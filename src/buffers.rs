use vstd::prelude::*;
use crate::gpu::{BufferTarget, Device, Gpu, GpuCommand, GpuError, GpuObject, GpuOp, ObjectKind};
use crate::vertexlayout::{
    attribute_bindings, binding_of, layout_stride, ScalarKind, VertexAtribute,
    VertexAttributeType, MAX_STRIDE,
};

verus! {

/// The log entries of configuring `layout` on a bound vertex array: one
/// attribute binding per attribute, in order.
pub open spec fn layout_ops(layout: Seq<VertexAtribute>) -> Seq<GpuOp> {
    Seq::new(layout.len(), |i: int| GpuOp::Command(GpuCommand::VertexAttribute(binding_of(layout, i))))
}

/// A buffer of raw vertex bytes, owned: released once, by `release`.
pub struct Vbo {
    id: u32,
}

impl Vbo {
    pub closed spec fn name(&self) -> u32 {
        self.id
    }

    pub open spec fn object(&self) -> GpuObject {
        GpuObject { kind: ObjectKind::Buffer, name: self.name() }
    }

    pub fn id(&self) -> (r: u32)
        ensures
            r == self.name(),
    {
        self.id
    }

    pub fn new<D: Device>(gpu: &mut Gpu<D>) -> (r: Result<Vbo, GpuError>)
        ensures
            match r {
                Ok(v) => {
                    &&& v.name() != 0
                    &&& final(gpu).live() == old(gpu).live().insert(v.object())
                    &&& final(gpu).ops() == old(gpu).ops().push(GpuOp::Create(v.object()))
                },
                Err(e) => {
                    &&& e == GpuError::NullHandle(ObjectKind::Buffer)
                    &&& final(gpu).live() == old(gpu).live()
                    &&& final(gpu).ops() == old(gpu).ops().push(GpuOp::CreateFailed(ObjectKind::Buffer))
                },
            },
    {
        let id = gpu.acquire(ObjectKind::Buffer)?;
        Ok(Vbo { id })
    }

    pub fn bind<D: Device>(&self, gpu: &mut Gpu<D>)
        ensures
            final(gpu).live() == old(gpu).live(),
            final(gpu).ops() == old(gpu).ops().push(
                GpuOp::Command(GpuCommand::BindBuffer { target: BufferTarget::Vertex, name: self.name() }),
            ),
    {
        gpu.submit(GpuCommand::BindBuffer { target: BufferTarget::Vertex, name: self.id });
    }

    /// Binds the buffer and replaces its whole contents with `bytes`.
    pub fn data<D: Device>(&mut self, gpu: &mut Gpu<D>, bytes: &[u8])
        ensures
            *final(self) == *old(self),
            final(gpu).live() == old(gpu).live(),
            final(gpu).ops() == old(gpu).ops().push(
                GpuOp::Command(GpuCommand::BindBuffer { target: BufferTarget::Vertex, name: old(self).name() }),
            ).push(GpuOp::VertexData(bytes@)),
    {
        self.bind(gpu);
        gpu.upload_vertices(bytes);
    }

    pub fn release<D: Device>(self, gpu: &mut Gpu<D>)
        ensures
            final(gpu).live() == old(gpu).live().remove(self.object()),
            final(gpu).ops() == old(gpu).ops().push(GpuOp::Delete(self.object())),
    {
        gpu.release(GpuObject { kind: ObjectKind::Buffer, name: self.id });
    }
}

/// A buffer of 32-bit indices, owned: released once, by `release`.
pub struct Ibo {
    id: u32,
}

impl Ibo {
    pub closed spec fn name(&self) -> u32 {
        self.id
    }

    pub open spec fn object(&self) -> GpuObject {
        GpuObject { kind: ObjectKind::Buffer, name: self.name() }
    }

    pub fn id(&self) -> (r: u32)
        ensures
            r == self.name(),
    {
        self.id
    }

    pub fn new<D: Device>(gpu: &mut Gpu<D>) -> (r: Result<Ibo, GpuError>)
        ensures
            match r {
                Ok(v) => {
                    &&& v.name() != 0
                    &&& final(gpu).live() == old(gpu).live().insert(v.object())
                    &&& final(gpu).ops() == old(gpu).ops().push(GpuOp::Create(v.object()))
                },
                Err(e) => {
                    &&& e == GpuError::NullHandle(ObjectKind::Buffer)
                    &&& final(gpu).live() == old(gpu).live()
                    &&& final(gpu).ops() == old(gpu).ops().push(GpuOp::CreateFailed(ObjectKind::Buffer))
                },
            },
    {
        let id = gpu.acquire(ObjectKind::Buffer)?;
        Ok(Ibo { id })
    }

    pub fn bind<D: Device>(&self, gpu: &mut Gpu<D>)
        ensures
            final(gpu).live() == old(gpu).live(),
            final(gpu).ops() == old(gpu).ops().push(
                GpuOp::Command(GpuCommand::BindBuffer { target: BufferTarget::Index, name: self.name() }),
            ),
    {
        gpu.submit(GpuCommand::BindBuffer { target: BufferTarget::Index, name: self.id });
    }

    /// Binds the buffer and replaces its whole contents with `indices`.
    pub fn data<D: Device>(&mut self, gpu: &mut Gpu<D>, indices: &[u32])
        ensures
            *final(self) == *old(self),
            final(gpu).live() == old(gpu).live(),
            final(gpu).ops() == old(gpu).ops().push(
                GpuOp::Command(GpuCommand::BindBuffer { target: BufferTarget::Index, name: old(self).name() }),
            ).push(GpuOp::IndexData(indices@)),
    {
        self.bind(gpu);
        gpu.upload_indices(indices);
    }

    pub fn release<D: Device>(self, gpu: &mut Gpu<D>)
        ensures
            final(gpu).live() == old(gpu).live().remove(self.object()),
            final(gpu).ops() == old(gpu).ops().push(GpuOp::Delete(self.object())),
    {
        gpu.release(GpuObject { kind: ObjectKind::Buffer, name: self.id });
    }
}

/// A vertex array object, owned: released once, by `release`.
pub struct Vao {
    id: u32,
}

impl Vao {
    pub closed spec fn name(&self) -> u32 {
        self.id
    }

    pub open spec fn object(&self) -> GpuObject {
        GpuObject { kind: ObjectKind::VertexArray, name: self.name() }
    }

    pub fn id(&self) -> (r: u32)
        ensures
            r == self.name(),
    {
        self.id
    }

    pub fn new<D: Device>(gpu: &mut Gpu<D>) -> (r: Result<Vao, GpuError>)
        ensures
            match r {
                Ok(v) => {
                    &&& v.name() != 0
                    &&& final(gpu).live() == old(gpu).live().insert(v.object())
                    &&& final(gpu).ops() == old(gpu).ops().push(GpuOp::Create(v.object()))
                },
                Err(e) => {
                    &&& e == GpuError::NullHandle(ObjectKind::VertexArray)
                    &&& final(gpu).live() == old(gpu).live()
                    &&& final(gpu).ops() == old(gpu).ops().push(GpuOp::CreateFailed(ObjectKind::VertexArray))
                },
            },
    {
        let id = gpu.acquire(ObjectKind::VertexArray)?;
        Ok(Vao { id })
    }

    pub fn bind<D: Device>(&self, gpu: &mut Gpu<D>)
        ensures
            final(gpu).live() == old(gpu).live(),
            final(gpu).ops() == old(gpu).ops().push(
                GpuOp::Command(GpuCommand::BindVertexArray(self.name())),
            ),
    {
        gpu.submit(GpuCommand::BindVertexArray(self.id));
    }

    pub fn unbind<D: Device>(gpu: &mut Gpu<D>)
        ensures
            final(gpu).live() == old(gpu).live(),
            final(gpu).ops() == old(gpu).ops().push(GpuOp::Command(GpuCommand::BindVertexArray(0))),
    {
        gpu.submit(GpuCommand::BindVertexArray(0));
    }

    /// The scalar type the backend reads an attribute of type `t` as.
    pub fn vertex_attribute_type_to_opengl(t: VertexAttributeType) -> (r: ScalarKind)
        ensures
            r == t.spec_scalar_kind(),
            r == ScalarKind::Int <==> t == VertexAttributeType::Int,
    {
        t.scalar_kind()
    }

    /// Binds the array, then binds attribute `i` of `layout` at location `i`,
    /// with the layout's stride and the attribute's running offset.
    pub fn set_vertex_layout<D: Device>(&self, gpu: &mut Gpu<D>, layout: &[VertexAtribute])
        requires
            layout_stride(layout@) <= MAX_STRIDE,
        ensures
            final(gpu).live() == old(gpu).live(),
            final(gpu).ops() == old(gpu).ops().push(
                GpuOp::Command(GpuCommand::BindVertexArray(self.name())),
            ) + layout_ops(layout@),
    {
        self.bind(gpu);
        let bindings = attribute_bindings(layout);
        let ghost start = gpu.ops();
        let mut i: usize = 0;
        while i < bindings.len()
            invariant
                bindings@.len() == layout@.len(),
                forall|j: int| 0 <= j < layout@.len() ==> #[trigger] bindings@[j] == binding_of(layout@, j),
                0 <= i <= bindings@.len(),
                gpu.live() == old(gpu).live(),
                gpu.ops() == start + layout_ops(layout@).take(i as int),
            decreases bindings@.len() - i,
        {
            gpu.submit(GpuCommand::VertexAttribute(bindings[i]));
            proof {
                assert(layout_ops(layout@).take(i as int + 1) =~= layout_ops(layout@).take(i as int).push(
                    GpuOp::Command(GpuCommand::VertexAttribute(binding_of(layout@, i as int))),
                ));
            }
            i = i + 1;
        }
        proof {
            assert(layout_ops(layout@).take(i as int) =~= layout_ops(layout@));
        }
    }

    pub fn release<D: Device>(self, gpu: &mut Gpu<D>)
        ensures
            final(gpu).live() == old(gpu).live().remove(self.object()),
            final(gpu).ops() == old(gpu).ops().push(GpuOp::Delete(self.object())),
    {
        gpu.release(GpuObject { kind: ObjectKind::VertexArray, name: self.id });
    }
}

} // verus!
