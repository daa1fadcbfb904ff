use vstd::prelude::*;
use crate::gpu::{lemma_insert_remove, location_of, uniform_lookup, Device, Gpu, GpuCommand, GpuObject, GpuOp, ObjectKind, UniformValue};

verus! {

/// Why a shader program could not be built.
#[derive(Clone, Copy, Debug, PartialEq, Eq, Structural)]
pub enum ShaderError {
    /// The vertex stage did not compile.
    VertexCompile,
    /// The fragment stage did not compile.
    FragmentCompile,
    /// Both stages compiled but the program did not link.
    Link,
    /// The backend gave no object of this kind.
    NullHandle(ObjectKind),
}

/// The vertex stage, fragment stage and program objects of the given names.
pub open spec fn vertex_stage(v: u32) -> GpuObject {
    GpuObject { kind: ObjectKind::VertexShader, name: v }
}

pub open spec fn fragment_stage(f: u32) -> GpuObject {
    GpuObject { kind: ObjectKind::FragmentShader, name: f }
}

pub open spec fn program_object(p: u32) -> GpuObject {
    GpuObject { kind: ObjectKind::Program, name: p }
}

/// The log of compiling the vertex stage `v` from `vs` successfully.
pub open spec fn vertex_ok_ops(v: u32, vs: Seq<char>) -> Seq<GpuOp> {
    seq![
        GpuOp::Create(vertex_stage(v)),
        GpuOp::Compile { shader: vertex_stage(v), source: vs, ok: true },
    ]
}

/// The log of compiling both stages successfully.
pub open spec fn stages_ok_ops(v: u32, f: u32, vs: Seq<char>, fs: Seq<char>) -> Seq<GpuOp> {
    vertex_ok_ops(v, vs) + seq![
        GpuOp::Create(fragment_stage(f)),
        GpuOp::Compile { shader: fragment_stage(f), source: fs, ok: true },
    ]
}

/// The log of building a program from `vs` and `fs`, for each outcome, with
/// `v`, `f` and `p` the names the backend gave the two stages and the program.
/// Every stage made is deleted again; a program that failed to link is
/// deleted too; no program is made active.
pub open spec fn shader_build_ops(
    outcome: Result<u32, ShaderError>,
    v: u32,
    f: u32,
    p: u32,
    vs: Seq<char>,
    fs: Seq<char>,
) -> Seq<GpuOp> {
    match outcome {
        Err(ShaderError::NullHandle(ObjectKind::VertexShader)) => seq![
            GpuOp::CreateFailed(ObjectKind::VertexShader),
        ],
        Err(ShaderError::VertexCompile) => seq![
            GpuOp::Create(vertex_stage(v)),
            GpuOp::Compile { shader: vertex_stage(v), source: vs, ok: false },
            GpuOp::Delete(vertex_stage(v)),
        ],
        Err(ShaderError::NullHandle(ObjectKind::FragmentShader)) => vertex_ok_ops(v, vs) + seq![
            GpuOp::CreateFailed(ObjectKind::FragmentShader),
            GpuOp::Delete(vertex_stage(v)),
        ],
        Err(ShaderError::FragmentCompile) => vertex_ok_ops(v, vs) + seq![
            GpuOp::Create(fragment_stage(f)),
            GpuOp::Compile { shader: fragment_stage(f), source: fs, ok: false },
            GpuOp::Delete(fragment_stage(f)),
            GpuOp::Delete(vertex_stage(v)),
        ],
        Err(ShaderError::NullHandle(ObjectKind::Program)) => stages_ok_ops(v, f, vs, fs) + seq![
            GpuOp::CreateFailed(ObjectKind::Program),
            GpuOp::Delete(fragment_stage(f)),
            GpuOp::Delete(vertex_stage(v)),
        ],
        Err(ShaderError::Link) => stages_ok_ops(v, f, vs, fs) + seq![
            GpuOp::Create(program_object(p)),
            GpuOp::Link { program: p, vertex: v, fragment: f, ok: false },
            GpuOp::Delete(fragment_stage(f)),
            GpuOp::Delete(vertex_stage(v)),
            GpuOp::Delete(program_object(p)),
        ],
        Ok(q) => stages_ok_ops(v, f, vs, fs) + seq![
            GpuOp::Create(program_object(q)),
            GpuOp::Link { program: q, vertex: v, fragment: f, ok: true },
            GpuOp::Delete(fragment_stage(f)),
            GpuOp::Delete(vertex_stage(v)),
        ],
        Err(ShaderError::NullHandle(_)) => Seq::empty(),
    }
}

/// The program name on success, or the error.
pub open spec fn outcome_of(r: Result<ShaderProgram, ShaderError>) -> Result<u32, ShaderError> {
    match r {
        Ok(prog) => Ok(prog.name()),
        Err(e) => Err(e),
    }
}

/// A linked program of a vertex and a fragment stage, owned: released once,
/// by `release`. It keeps no uniform values of its own.
pub struct ShaderProgram {
    id: u32,
}

impl ShaderProgram {
    pub closed spec fn name(&self) -> u32 {
        self.id
    }

    pub open spec fn object(&self) -> GpuObject {
        GpuObject { kind: ObjectKind::Program, name: self.name() }
    }

    pub fn id(&self) -> (r: u32)
        ensures
            r == self.name(),
    {
        self.id
    }

    /// Compiles the vertex stage, then the fragment stage, then links them
    /// into a program. The first failure ends the build with its error; every
    /// stage made is released, and so is a program that failed to link. On
    /// success only the program stays allocated.
    pub fn new<D: Device>(gpu: &mut Gpu<D>, vertex_source: &str, fragment_source: &str) -> (r:
        Result<ShaderProgram, ShaderError>)
        ensures
            match r {
                Ok(p) => p.name() != 0 && final(gpu).live() == old(gpu).live().insert(p.object()),
                Err(ShaderError::NullHandle(k)) => final(gpu).live() == old(gpu).live() && (k
                    == ObjectKind::VertexShader || k == ObjectKind::FragmentShader || k
                    == ObjectKind::Program),
                Err(_) => final(gpu).live() == old(gpu).live(),
            },
            exists|v: u32, f: u32, p: u32|
                v != 0 && f != 0 && p != 0 && final(gpu).ops() == old(gpu).ops() + #[trigger] shader_build_ops(
                    outcome_of(r),
                    v,
                    f,
                    p,
                    vertex_source@,
                    fragment_source@,
                ),
    {
        let ghost ops0 = gpu.ops();
        let ghost live0 = gpu.live();
        let ghost vs = vertex_source@;
        let ghost fs = fragment_source@;
        let vertex = match gpu.acquire(ObjectKind::VertexShader) {
            Ok(name) => name,
            Err(_) => {
                let r = Err(ShaderError::NullHandle(ObjectKind::VertexShader));
                assert(gpu.ops() =~= ops0 + shader_build_ops(outcome_of(r), 1, 1, 1, vs, fs));
                return r;
            },
        };
        let vertex_object = GpuObject { kind: ObjectKind::VertexShader, name: vertex };
        let ghost live1 = gpu.live();
        proof {
            lemma_insert_remove(live0, vertex_object);
        }
        if !gpu.compile(vertex_object, vertex_source) {
            gpu.release(vertex_object);
            let r = Err(ShaderError::VertexCompile);
            assert(gpu.ops() =~= ops0 + shader_build_ops(outcome_of(r), vertex, 1, 1, vs, fs));
            return r;
        }
        let fragment = match gpu.acquire(ObjectKind::FragmentShader) {
            Ok(name) => name,
            Err(_) => {
                gpu.release(vertex_object);
                let r = Err(ShaderError::NullHandle(ObjectKind::FragmentShader));
                assert(gpu.ops() =~= ops0 + shader_build_ops(outcome_of(r), vertex, 1, 1, vs, fs));
                return r;
            },
        };
        let fragment_object = GpuObject { kind: ObjectKind::FragmentShader, name: fragment };
        proof {
            lemma_insert_remove(live1, fragment_object);
            broadcast use vstd::multiset::group_multiset_axioms;

            assert(live1.insert(fragment_object).remove(fragment_object).remove(vertex_object) =~= live0);
        }
        if !gpu.compile(fragment_object, fragment_source) {
            gpu.release(fragment_object);
            gpu.release(vertex_object);
            let r = Err(ShaderError::FragmentCompile);
            assert(gpu.ops() =~= ops0 + shader_build_ops(outcome_of(r), vertex, fragment, 1, vs, fs));
            return r;
        }
        let program = match gpu.acquire(ObjectKind::Program) {
            Ok(name) => name,
            Err(_) => {
                gpu.release(fragment_object);
                gpu.release(vertex_object);
                let r = Err(ShaderError::NullHandle(ObjectKind::Program));
                assert(gpu.ops() =~= ops0 + shader_build_ops(outcome_of(r), vertex, fragment, 1, vs, fs));
                return r;
            },
        };
        let program_object = GpuObject { kind: ObjectKind::Program, name: program };
        let linked = gpu.link(program, vertex, fragment);
        proof {
            broadcast use vstd::multiset::group_multiset_axioms;

            assert(live1.insert(fragment_object).insert(program_object).remove(fragment_object)
                =~= live1.insert(program_object));
            assert(live0.insert(vertex_object).insert(program_object).remove(vertex_object)
                =~= live0.insert(program_object));
            lemma_insert_remove(live0, program_object);
        }
        gpu.release(fragment_object);
        gpu.release(vertex_object);
        if !linked {
            gpu.release(program_object);
            let r = Err(ShaderError::Link);
            assert(gpu.ops() =~= ops0 + shader_build_ops(outcome_of(r), vertex, fragment, program, vs, fs));
            return r;
        }
        let r = Ok(ShaderProgram { id: program });
        assert(gpu.ops() =~= ops0 + shader_build_ops(outcome_of(r), vertex, fragment, program, vs, fs));
        r
    }

    /// Makes the program active.
    pub fn bind<D: Device>(&self, gpu: &mut Gpu<D>)
        ensures
            final(gpu).live() == old(gpu).live(),
            final(gpu).ops() == old(gpu).ops().push(GpuOp::Command(GpuCommand::UseProgram(self.name()))),
    {
        gpu.submit(GpuCommand::UseProgram(self.id));
    }

    /// Makes the program active, then sets one uniform of it.
    pub fn set_uniform<D: Device>(&mut self, gpu: &mut Gpu<D>, location: u32, value: UniformValue)
        ensures
            *final(self) == *old(self),
            final(gpu).live() == old(gpu).live(),
            final(gpu).ops() == old(gpu).ops().push(
                GpuOp::Command(GpuCommand::UseProgram(old(self).name())),
            ).push(GpuOp::Command(GpuCommand::SetUniform { location, value })),
    {
        self.bind(gpu);
        gpu.submit(GpuCommand::SetUniform { location, value });
    }

    /// Sets a 4x4 matrix uniform, given row by row as float bit patterns.
    pub fn set_uniform_matrix<D: Device>(&mut self, gpu: &mut Gpu<D>, location: u32, value: [u32; 16])
        ensures
            *final(self) == *old(self),
            final(gpu).live() == old(gpu).live(),
            final(gpu).ops() == old(gpu).ops().push(
                GpuOp::Command(GpuCommand::UseProgram(old(self).name())),
            ).push(GpuOp::Command(GpuCommand::SetUniform { location, value: UniformValue::Matrix4(value) })),
    {
        self.set_uniform(gpu, location, UniformValue::Matrix4(value));
    }

    /// Sets a float uniform, given as its bit pattern.
    pub fn set_uniform_float<D: Device>(&mut self, gpu: &mut Gpu<D>, location: u32, value: u32)
        ensures
            *final(self) == *old(self),
            final(gpu).live() == old(gpu).live(),
            final(gpu).ops() == old(gpu).ops().push(
                GpuOp::Command(GpuCommand::UseProgram(old(self).name())),
            ).push(GpuOp::Command(GpuCommand::SetUniform { location, value: UniformValue::Float(value) })),
    {
        self.set_uniform(gpu, location, UniformValue::Float(value));
    }

    pub fn set_uniform_float2<D: Device>(&mut self, gpu: &mut Gpu<D>, location: u32, value: (u32, u32))
        ensures
            *final(self) == *old(self),
            final(gpu).live() == old(gpu).live(),
            final(gpu).ops() == old(gpu).ops().push(
                GpuOp::Command(GpuCommand::UseProgram(old(self).name())),
            ).push(GpuOp::Command(GpuCommand::SetUniform { location, value: UniformValue::Float2(value.0, value.1) })),
    {
        self.set_uniform(gpu, location, UniformValue::Float2(value.0, value.1));
    }

    pub fn set_uniform_float3<D: Device>(&mut self, gpu: &mut Gpu<D>, location: u32, value: (u32, u32, u32))
        ensures
            *final(self) == *old(self),
            final(gpu).live() == old(gpu).live(),
            final(gpu).ops() == old(gpu).ops().push(
                GpuOp::Command(GpuCommand::UseProgram(old(self).name())),
            ).push(GpuOp::Command(GpuCommand::SetUniform { location, value: UniformValue::Float3(value.0, value.1, value.2) })),
    {
        self.set_uniform(gpu, location, UniformValue::Float3(value.0, value.1, value.2));
    }

    pub fn set_uniform_float4<D: Device>(&mut self, gpu: &mut Gpu<D>, location: u32, value: (u32, u32, u32, u32))
        ensures
            *final(self) == *old(self),
            final(gpu).live() == old(gpu).live(),
            final(gpu).ops() == old(gpu).ops().push(
                GpuOp::Command(GpuCommand::UseProgram(old(self).name())),
            ).push(GpuOp::Command(GpuCommand::SetUniform { location, value: UniformValue::Float4(value.0, value.1, value.2, value.3) })),
    {
        self.set_uniform(gpu, location, UniformValue::Float4(value.0, value.1, value.2, value.3));
    }

    /// Slot of the uniform called `name` in this program, as the backend
    /// answers it; `None` when the backend answers that there is none.
    pub fn get_uniform_location<D: Device>(&mut self, gpu: &mut Gpu<D>, name: &str) -> (r: Option<u32>)
        ensures
            *final(self) == *old(self),
            final(gpu).live() == old(gpu).live(),
            exists|answer: i32|
                final(gpu).ops() == old(gpu).ops().push(#[trigger] uniform_lookup(old(self).name(), name@, answer))
                && r == location_of(answer),
    {
        let r = gpu.uniform_location(self.id, name);
        proof {
            let answer = choose|answer: i32|
                gpu.ops() == old(gpu).ops().push(#[trigger] uniform_lookup(self.id, name@, answer))
                && r == location_of(answer);
            assert(uniform_lookup(old(self).name(), name@, answer) == uniform_lookup(self.id, name@, answer));
        }
        r
    }

    /// Deactivates any program, then releases this one.
    pub fn release<D: Device>(self, gpu: &mut Gpu<D>)
        ensures
            final(gpu).live() == old(gpu).live().remove(self.object()),
            final(gpu).ops() == old(gpu).ops().push(GpuOp::Command(GpuCommand::UseProgram(0))).push(
                GpuOp::Delete(self.object()),
            ),
    {
        gpu.submit(GpuCommand::UseProgram(0));
        gpu.release(GpuObject { kind: ObjectKind::Program, name: self.id });
    }
}

} // verus!
