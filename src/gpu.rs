use vstd::prelude::*;
use vstd::multiset::Multiset;
use crate::vertexlayout::AttributeBinding;

verus! {

/// An 8-bit-per-channel RGBA color.
#[derive(Clone, Copy, Debug, PartialEq, Eq, Structural)]
pub struct Color {
    pub r: u8,
    pub g: u8,
    pub b: u8,
    pub a: u8,
}

/// The kinds of object a backend allocates.
#[derive(Clone, Copy, Debug, PartialEq, Eq, Structural)]
pub enum ObjectKind {
    Buffer,
    VertexArray,
    Texture,
    VertexShader,
    FragmentShader,
    Program,
    Framebuffer,
}

/// A backend object: its kind and the nonzero name the backend gave it.
#[derive(Clone, Copy, Debug, PartialEq, Eq, Structural)]
pub struct GpuObject {
    pub kind: ObjectKind,
    pub name: u32,
}

#[derive(Clone, Copy, Debug, PartialEq, Eq, Structural)]
pub enum BufferTarget {
    Vertex,
    Index,
}

/// Pixel layout of an uploaded image, inferred from its channel count.
#[derive(Clone, Copy, Debug, PartialEq, Eq, Structural)]
pub enum PixelFormat {
    Rgb,
    Rgba,
}

#[derive(Clone, Copy, Debug, PartialEq, Eq, Structural)]
pub enum MagFilter {
    Nearest,
    Linear,
}

#[derive(Clone, Copy, Debug, PartialEq, Eq, Structural)]
pub enum MinFilter {
    LinearMipmapNearest,
    LinearMipmapLinear,
}

/// A uniform value, each component given by the bit pattern of a 32-bit float.
#[derive(Clone, Copy, Debug, PartialEq, Eq)]
pub enum UniformValue {
    Float(u32),
    Float2(u32, u32),
    Float3(u32, u32, u32),
    Float4(u32, u32, u32, u32),
    /// A 4x4 matrix in row-major order.
    Matrix4([u32; 16]),
}

/// A state change or draw that a backend carries out; it returns nothing.
#[derive(Clone, Copy, Debug, PartialEq, Eq)]
pub enum GpuCommand {
    /// Make the rendering context current on the calling thread.
    MakeCurrent,
    Viewport { width: u32, height: u32 },
    ClearColor(Color),
    /// Clear the color target to the clear color.
    Clear,
    /// Bind a vertex array; name 0 unbinds.
    BindVertexArray(u32),
    BindBuffer { target: BufferTarget, name: u32 },
    /// Point an attribute location at the bound vertex buffer and enable it.
    VertexAttribute(AttributeBinding),
    /// Draw a triangle list of this many 32-bit indices from the bound vertex array.
    DrawIndexed(u32),
    /// Activate a texture unit and bind a 2D texture to it.
    BindTexture { slot: u32, name: u32 },
    /// Set repeat wrapping on both axes of the bound texture.
    TextureWrapRepeat,
    TextureFilter { mag: MagFilter, min: MinFilter },
    GenerateMipmap,
    /// Make a program active; name 0 deactivates.
    UseProgram(u32),
    SetUniform { location: u32, value: UniformValue },
    /// Bind a framebuffer as the color target; name 0 is the default surface.
    BindFramebuffer(u32),
    /// Attach a texture as color target 0 of the bound framebuffer.
    AttachColorTexture(u32),
}

/// What a backend was asked to do, in order.
pub enum GpuOp {
    Create(GpuObject),
    /// The backend gave no object of this kind.
    CreateFailed(ObjectKind),
    Delete(GpuObject),
    Command(GpuCommand),
    /// Full replace of the bound vertex buffer's contents, static usage.
    VertexData(Seq<u8>),
    /// Full replace of the bound index buffer's contents, static usage.
    IndexData(Seq<u32>),
    /// Mip level 0 of the bound texture.
    TextureImage { format: PixelFormat, width: u32, height: u32, pixels: Seq<u8> },
    /// A stage compiled from `source`, with the backend's answer.
    Compile { shader: GpuObject, source: Seq<char>, ok: bool },
    /// A program linked from two stages, with the backend's answer.
    Link { program: u32, vertex: u32, fragment: u32, ok: bool },
    /// A uniform of `program` looked up by name, with the backend's answer.
    UniformLookup { program: u32, name: Seq<char>, answer: i32 },
}

pub open spec fn uniform_lookup(program: u32, name: Seq<char>, answer: i32) -> GpuOp {
    GpuOp::UniformLookup { program, name, answer }
}

/// The slot a uniform lookup answered, or `None` for a negative answer.
pub open spec fn location_of(answer: i32) -> Option<u32> {
    if answer < 0 {
        None
    } else {
        Some(answer as u32)
    }
}

/// A graphics backend. Each method performs one backend operation.
pub trait Device {
    /// Allocates one object; 0 means the backend failed to give one.
    fn create(&mut self, kind: ObjectKind) -> u32;

    fn delete(&mut self, object: GpuObject);

    fn execute(&mut self, command: GpuCommand);

    fn upload_vertices(&mut self, bytes: &[u8]);

    fn upload_indices(&mut self, indices: &[u32]);

    fn upload_image(&mut self, format: PixelFormat, width: u32, height: u32, pixels: &[u8]);

    /// Compiles `source` into `shader`; true on success.
    fn compile(&mut self, shader: u32, source: &str) -> bool;

    /// Attaches both stages to `program` and links it; true on success.
    fn link(&mut self, program: u32, vertex: u32, fragment: u32) -> bool;

    /// Slot of a uniform of `program`; negative when it has none of that name.
    fn uniform_location(&mut self, program: u32, name: &str) -> i32;
}

/// A backend object could not be allocated.
#[derive(Clone, Copy, Debug, PartialEq, Eq, Structural)]
pub enum GpuError {
    NullHandle(ObjectKind),
}

/// A backend together with the record of what was asked of it and of the
/// objects allocated through it that are not released yet.
pub struct Gpu<D: Device> {
    device: D,
    log: Ghost<Seq<GpuOp>>,
    live: Ghost<Multiset<GpuObject>>,
}

/// Allocating an object and then releasing it leaves the live objects as they were.
pub proof fn lemma_insert_remove(m: Multiset<GpuObject>, x: GpuObject)
    ensures
        m.insert(x).remove(x) == m,
{
    broadcast use vstd::multiset::group_multiset_axioms;

    assert(m.insert(x).remove(x) =~= m);
}

impl<D: Device> Gpu<D> {
    pub closed spec fn ops(&self) -> Seq<GpuOp> {
        self.log@
    }

    pub closed spec fn live(&self) -> Multiset<GpuObject> {
        self.live@
    }

    pub fn new(device: D) -> (r: Self)
        ensures
            r.spec_device() == device,
            r.ops() == Seq::<GpuOp>::empty(),
            r.live() == Multiset::<GpuObject>::empty(),
    {
        Gpu { device, log: Ghost(Seq::empty()), live: Ghost(Multiset::empty()) }
    }

    pub closed spec fn spec_device(&self) -> D {
        self.device
    }

    pub fn device(&self) -> (r: &D)
        ensures
            *r == self.spec_device(),
    {
        &self.device
    }

    pub fn into_device(self) -> (r: D)
        ensures
            r == self.spec_device(),
    {
        self.device
    }

    /// Allocates one object of `kind`; a zero name from the backend is an error.
    pub fn acquire(&mut self, kind: ObjectKind) -> (r: Result<u32, GpuError>)
        ensures
            match r {
                Ok(name) => {
                    &&& name != 0
                    &&& final(self).live() == old(self).live().insert(GpuObject { kind, name })
                    &&& final(self).ops() == old(self).ops().push(
                        GpuOp::Create(GpuObject { kind, name }),
                    )
                },
                Err(e) => {
                    &&& e == GpuError::NullHandle(kind)
                    &&& final(self).live() == old(self).live()
                    &&& final(self).ops() == old(self).ops().push(GpuOp::CreateFailed(kind))
                },
            },
    {
        let name = self.device.create(kind);
        if name == 0 {
            self.log = Ghost(self.log@.push(GpuOp::CreateFailed(kind)));
            Err(GpuError::NullHandle(kind))
        } else {
            let object = GpuObject { kind, name };
            self.log = Ghost(self.log@.push(GpuOp::Create(object)));
            self.live = Ghost(self.live@.insert(object));
            Ok(name)
        }
    }

    /// Releases one object.
    pub fn release(&mut self, object: GpuObject)
        ensures
            final(self).live() == old(self).live().remove(object),
            final(self).ops() == old(self).ops().push(GpuOp::Delete(object)),
    {
        self.device.delete(object);
        self.log = Ghost(self.log@.push(GpuOp::Delete(object)));
        self.live = Ghost(self.live@.remove(object));
    }

    pub fn submit(&mut self, command: GpuCommand)
        ensures
            final(self).live() == old(self).live(),
            final(self).ops() == old(self).ops().push(GpuOp::Command(command)),
    {
        self.device.execute(command);
        self.log = Ghost(self.log@.push(GpuOp::Command(command)));
    }

    pub fn upload_vertices(&mut self, bytes: &[u8])
        ensures
            final(self).live() == old(self).live(),
            final(self).ops() == old(self).ops().push(GpuOp::VertexData(bytes@)),
    {
        self.device.upload_vertices(bytes);
        self.log = Ghost(self.log@.push(GpuOp::VertexData(bytes@)));
    }

    pub fn upload_indices(&mut self, indices: &[u32])
        ensures
            final(self).live() == old(self).live(),
            final(self).ops() == old(self).ops().push(GpuOp::IndexData(indices@)),
    {
        self.device.upload_indices(indices);
        self.log = Ghost(self.log@.push(GpuOp::IndexData(indices@)));
    }

    pub fn upload_image(&mut self, format: PixelFormat, width: u32, height: u32, pixels: &[u8])
        ensures
            final(self).live() == old(self).live(),
            final(self).ops() == old(self).ops().push(
                GpuOp::TextureImage { format, width, height, pixels: pixels@ },
            ),
    {
        self.device.upload_image(format, width, height, pixels);
        self.log = Ghost(
            self.log@.push(GpuOp::TextureImage { format, width, height, pixels: pixels@ }),
        );
    }

    /// Compiles one shader stage; whether it succeeds is the backend's answer.
    pub fn compile(&mut self, shader: GpuObject, source: &str) -> (ok: bool)
        ensures
            final(self).live() == old(self).live(),
            final(self).ops() == old(self).ops().push(GpuOp::Compile { shader, source: source@, ok }),
    {
        let ok = self.device.compile(shader.name, source);
        self.log = Ghost(self.log@.push(GpuOp::Compile { shader, source: source@, ok }));
        ok
    }

    /// Links a program from two compiled stages; the backend decides success.
    pub fn link(&mut self, program: u32, vertex: u32, fragment: u32) -> (ok: bool)
        ensures
            final(self).live() == old(self).live(),
            final(self).ops() == old(self).ops().push(GpuOp::Link { program, vertex, fragment, ok }),
    {
        let ok = self.device.link(program, vertex, fragment);
        self.log = Ghost(self.log@.push(GpuOp::Link { program, vertex, fragment, ok }));
        ok
    }

    /// Looks a uniform up by name; a negative backend answer means absent.
    pub fn uniform_location(&mut self, program: u32, name: &str) -> (r: Option<u32>)
        ensures
            final(self).live() == old(self).live(),
            exists|answer: i32|
                final(self).ops() == old(self).ops().push(#[trigger] uniform_lookup(program, name@, answer))
                && r == location_of(answer),
    {
        let location = self.device.uniform_location(program, name);
        self.log = Ghost(self.log@.push(GpuOp::UniformLookup { program, name: name@, answer: location }));
        assert(self.log@ == old(self).ops().push(uniform_lookup(program, name@, location)));
        if location < 0 {
            None
        } else {
            Some(location as u32)
        }
    }
}

} // verus!
