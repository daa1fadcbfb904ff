use std::cell::RefCell;
use std::rc::Rc;

use proer::buffers::{Ibo, Vao, Vbo};
use proer::framebuffer::FrameBuffer;
use proer::gpu::{
    BufferTarget, Color, Device, Gpu, GpuCommand, GpuError, GpuObject, MagFilter, MinFilter,
    ObjectKind, PixelFormat, UniformValue,
};
use proer::renderable::Renderable;
use proer::renderer::{Renderer, SceneError, ScenePhase};
use proer::shader::{ShaderError, ShaderProgram};
use proer::texture::{PixelImage, SamplingMode, Texture};
use proer::vertexlayout::{
    attribute_bindings, stride_of, AttributeBinding, ScalarKind, VertexAtribute,
    VertexAttributeType,
};

#[derive(Clone, Debug, PartialEq)]
enum Call {
    Create(ObjectKind, u32),
    Delete(GpuObject),
    Exec(GpuCommand),
    Vertices(Vec<u8>),
    Indices(Vec<u32>),
    Image(PixelFormat, u32, u32, Vec<u8>),
    Compile(u32, String),
    Link(u32, u32, u32),
}

#[derive(Default)]
struct Recorder {
    calls: Vec<Call>,
    next: u32,
    live: Vec<GpuObject>,
}

#[derive(Clone, Default)]
struct MockDevice {
    rec: Rc<RefCell<Recorder>>,
    fail_vertex: bool,
    fail_fragment: bool,
    fail_link: bool,
    null_kind: Option<ObjectKind>,
    stages: Rc<RefCell<Vec<(u32, bool)>>>,
}

impl Device for MockDevice {
    fn create(&mut self, kind: ObjectKind) -> u32 {
        if self.null_kind == Some(kind) {
            return 0;
        }
        let mut r = self.rec.borrow_mut();
        r.next += 1;
        let name = r.next;
        r.calls.push(Call::Create(kind, name));
        r.live.push(GpuObject { kind, name });
        if kind == ObjectKind::VertexShader {
            self.stages.borrow_mut().push((name, true));
        }
        if kind == ObjectKind::FragmentShader {
            self.stages.borrow_mut().push((name, false));
        }
        name
    }

    fn delete(&mut self, object: GpuObject) {
        let mut r = self.rec.borrow_mut();
        r.calls.push(Call::Delete(object));
        let pos = r.live.iter().position(|o| *o == object).expect("released twice");
        r.live.remove(pos);
    }

    fn execute(&mut self, command: GpuCommand) {
        self.rec.borrow_mut().calls.push(Call::Exec(command));
    }

    fn upload_vertices(&mut self, bytes: &[u8]) {
        self.rec.borrow_mut().calls.push(Call::Vertices(bytes.to_vec()));
    }

    fn upload_indices(&mut self, indices: &[u32]) {
        self.rec.borrow_mut().calls.push(Call::Indices(indices.to_vec()));
    }

    fn upload_image(&mut self, format: PixelFormat, width: u32, height: u32, pixels: &[u8]) {
        self.rec.borrow_mut().calls.push(Call::Image(format, width, height, pixels.to_vec()));
    }

    fn compile(&mut self, shader: u32, source: &str) -> bool {
        self.rec.borrow_mut().calls.push(Call::Compile(shader, source.to_string()));
        let is_vertex = self.stages.borrow().iter().any(|&(n, v)| n == shader && v);
        if is_vertex { !self.fail_vertex } else { !self.fail_fragment }
    }

    fn link(&mut self, program: u32, vertex: u32, fragment: u32) -> bool {
        self.rec.borrow_mut().calls.push(Call::Link(program, vertex, fragment));
        !self.fail_link
    }

    fn uniform_location(&mut self, _program: u32, name: &str) -> i32 {
        if name == "u_Color" { 2 } else { -1 }
    }
}

fn calls(d: &MockDevice) -> Vec<Call> {
    d.rec.borrow().calls.clone()
}

fn live(d: &MockDevice) -> Vec<GpuObject> {
    d.rec.borrow().live.clone()
}

fn attr(name: &str, datatype: VertexAttributeType) -> VertexAtribute {
    VertexAtribute { name: name.to_string(), datatype, interpolate: true }
}

fn quad_bytes() -> Vec<u8> {
    let v: [f32; 8] = [-0.5, -0.5, 0.5, -0.5, 0.5, 0.5, -0.5, 0.5];
    v.iter().flat_map(|f| f.to_le_bytes()).collect()
}

#[test]
fn attribute_type_sizes_and_amounts() {
    let all = [
        (VertexAttributeType::Float, 4, 1),
        (VertexAttributeType::Float2, 8, 2),
        (VertexAttributeType::Float3, 12, 3),
        (VertexAttributeType::Float4, 16, 4),
        (VertexAttributeType::Int, 4, 1),
    ];
    for (t, size, amount) in all {
        assert_eq!(t.size(), size);
        assert_eq!(t.amount(), amount);
    }
    assert_eq!(Vao::vertex_attribute_type_to_opengl(VertexAttributeType::Int), ScalarKind::Int);
    assert_eq!(Vao::vertex_attribute_type_to_opengl(VertexAttributeType::Float3), ScalarKind::Float);
}

#[test]
fn stride_is_sum_and_offsets_are_running_sums() {
    let layout = vec![
        attr("a_Pos", VertexAttributeType::Float3),
        attr("a_TexCoord", VertexAttributeType::Float2),
        attr("a_Id", VertexAttributeType::Int),
        attr("a_Color", VertexAttributeType::Float4),
    ];
    assert_eq!(stride_of(&layout), 40);
    let b = attribute_bindings(&layout);
    assert_eq!(b.len(), 4);
    assert_eq!(b[0], AttributeBinding { location: 0, components: 3, kind: ScalarKind::Float, stride: 40, offset: 0 });
    assert_eq!(b[1], AttributeBinding { location: 1, components: 2, kind: ScalarKind::Float, stride: 40, offset: 12 });
    assert_eq!(b[2], AttributeBinding { location: 2, components: 1, kind: ScalarKind::Int, stride: 40, offset: 20 });
    assert_eq!(b[3], AttributeBinding { location: 3, components: 4, kind: ScalarKind::Float, stride: 40, offset: 24 });
}

#[test]
fn empty_layout_has_zero_stride() {
    assert_eq!(stride_of(&[]), 0);
    assert!(attribute_bindings(&[]).is_empty());
}

#[test]
fn set_vertex_layout_binds_then_describes_each_attribute() {
    let dev = MockDevice::default();
    let mut gpu = Gpu::new(dev.clone());
    let vao = Vao::new(&mut gpu).unwrap();
    let layout = vec![attr("a", VertexAttributeType::Float2), attr("b", VertexAttributeType::Float)];
    vao.set_vertex_layout(&mut gpu, &layout);
    let c = calls(&dev);
    assert_eq!(c[1], Call::Exec(GpuCommand::BindVertexArray(vao.id())));
    assert_eq!(c[2], Call::Exec(GpuCommand::VertexAttribute(AttributeBinding { location: 0, components: 2, kind: ScalarKind::Float, stride: 12, offset: 0 })));
    assert_eq!(c[3], Call::Exec(GpuCommand::VertexAttribute(AttributeBinding { location: 1, components: 1, kind: ScalarKind::Float, stride: 12, offset: 8 })));
    assert_eq!(c.len(), 4);
    vao.release(&mut gpu);
    assert!(live(&dev).is_empty());
}

#[test]
fn buffers_upload_after_binding() {
    let dev = MockDevice::default();
    let mut gpu = Gpu::new(dev.clone());
    let mut vbo = Vbo::new(&mut gpu).unwrap();
    let mut ibo = Ibo::new(&mut gpu).unwrap();
    vbo.data(&mut gpu, &[1, 2, 3]);
    ibo.data(&mut gpu, &[7, 8]);
    let c = calls(&dev);
    assert_eq!(c[2], Call::Exec(GpuCommand::BindBuffer { target: BufferTarget::Vertex, name: vbo.id() }));
    assert_eq!(c[3], Call::Vertices(vec![1, 2, 3]));
    assert_eq!(c[4], Call::Exec(GpuCommand::BindBuffer { target: BufferTarget::Index, name: ibo.id() }));
    assert_eq!(c[5], Call::Indices(vec![7, 8]));
    vbo.release(&mut gpu);
    ibo.release(&mut gpu);
    assert!(live(&dev).is_empty());
}

#[test]
fn null_handle_is_an_error() {
    let dev = MockDevice { null_kind: Some(ObjectKind::Buffer), ..Default::default() };
    let mut gpu = Gpu::new(dev.clone());
    assert!(matches!(Vbo::new(&mut gpu), Err(GpuError::NullHandle(ObjectKind::Buffer))));
    let r = Renderable::new(&mut gpu, &quad_bytes(), &[0, 1, 2], &[attr("p", VertexAttributeType::Float2)]);
    assert!(matches!(r, Err(GpuError::NullHandle(ObjectKind::Buffer))));
    assert!(live(&dev).is_empty());
}

const VS: &str = "vertex source";
const FS: &str = "fragment source";

#[test]
fn shader_with_bad_vertex_source_gives_no_program() {
    let dev = MockDevice { fail_vertex: true, ..Default::default() };
    let mut gpu = Gpu::new(dev.clone());
    assert_eq!(ShaderProgram::new(&mut gpu, VS, FS).err(), Some(ShaderError::VertexCompile));
    assert!(live(&dev).is_empty());
    assert!(!calls(&dev).iter().any(|c| matches!(c, Call::Create(ObjectKind::Program, _))));
    assert_eq!(
        calls(&dev),
        vec![
            Call::Create(ObjectKind::VertexShader, 1),
            Call::Compile(1, VS.to_string()),
            Call::Delete(GpuObject { kind: ObjectKind::VertexShader, name: 1 }),
        ]
    );
}

#[test]
fn shader_with_bad_fragment_source_gives_no_program() {
    let dev = MockDevice { fail_fragment: true, ..Default::default() };
    let mut gpu = Gpu::new(dev.clone());
    assert_eq!(ShaderProgram::new(&mut gpu, VS, FS).err(), Some(ShaderError::FragmentCompile));
    assert!(live(&dev).is_empty());
    assert!(!calls(&dev).iter().any(|c| matches!(c, Call::Create(ObjectKind::Program, _))));
}

#[test]
fn shader_that_fails_to_link_releases_its_program() {
    let dev = MockDevice { fail_link: true, ..Default::default() };
    let mut gpu = Gpu::new(dev.clone());
    assert_eq!(ShaderProgram::new(&mut gpu, VS, FS).err(), Some(ShaderError::Link));
    assert!(live(&dev).is_empty());
    let c = calls(&dev);
    assert_eq!(c[5], Call::Link(3, 1, 2));
    assert_eq!(
        c[6..].to_vec(),
        vec![
            Call::Delete(GpuObject { kind: ObjectKind::FragmentShader, name: 2 }),
            Call::Delete(GpuObject { kind: ObjectKind::VertexShader, name: 1 }),
            Call::Delete(GpuObject { kind: ObjectKind::Program, name: 3 }),
        ]
    );
}

#[test]
fn shader_success_keeps_only_the_program() {
    let dev = MockDevice::default();
    let mut gpu = Gpu::new(dev.clone());
    let p = ShaderProgram::new(&mut gpu, VS, FS).unwrap();
    assert_eq!(live(&dev), vec![GpuObject { kind: ObjectKind::Program, name: p.id() }]);
    let c = calls(&dev);
    assert_eq!(c[1], Call::Compile(1, VS.to_string()));
    assert_eq!(c[3], Call::Compile(2, FS.to_string()));
    assert_eq!(c[5], Call::Link(3, 1, 2));
    assert_eq!(c.len(), 8);
    assert!(!c.iter().any(|x| matches!(x, Call::Exec(GpuCommand::UseProgram(_)))));
    p.release(&mut gpu);
    assert!(live(&dev).is_empty());
}

#[test]
fn shader_null_program_handle_releases_stages() {
    let dev = MockDevice { null_kind: Some(ObjectKind::Program), ..Default::default() };
    let mut gpu = Gpu::new(dev.clone());
    assert_eq!(ShaderProgram::new(&mut gpu, VS, FS).err(), Some(ShaderError::NullHandle(ObjectKind::Program)));
    assert!(live(&dev).is_empty());
}

#[test]
fn uniform_setters_rebind_the_program() {
    let dev = MockDevice::default();
    let mut gpu = Gpu::new(dev.clone());
    let mut p = ShaderProgram::new(&mut gpu, VS, FS).unwrap();
    let n = calls(&dev).len();
    p.set_uniform_float4(&mut gpu, 2, (1.0f32.to_bits(), 0, 0, 1.0f32.to_bits()));
    p.set_uniform_float(&mut gpu, 3, 0.5f32.to_bits());
    let c = calls(&dev);
    assert_eq!(c[n], Call::Exec(GpuCommand::UseProgram(p.id())));
    assert_eq!(c[n + 1], Call::Exec(GpuCommand::SetUniform { location: 2, value: UniformValue::Float4(1.0f32.to_bits(), 0, 0, 1.0f32.to_bits()) }));
    assert_eq!(c[n + 2], Call::Exec(GpuCommand::UseProgram(p.id())));
    assert_eq!(c[n + 3], Call::Exec(GpuCommand::SetUniform { location: 3, value: UniformValue::Float(0.5f32.to_bits()) }));
}

#[test]
fn uniform_location_absent_is_none() {
    let dev = MockDevice::default();
    let mut gpu = Gpu::new(dev.clone());
    let mut p = ShaderProgram::new(&mut gpu, VS, FS).unwrap();
    assert_eq!(p.get_uniform_location(&mut gpu, "u_Color"), Some(2));
    assert_eq!(p.get_uniform_location(&mut gpu, "u_Missing"), None);
}

#[test]
fn pixel_image_checks_channels_and_length() {
    assert!(PixelImage::new(2, 1, 2, vec![0; 4]).is_none());
    assert!(PixelImage::new(2, 1, 5, vec![0; 10]).is_none());
    assert!(PixelImage::new(2, 2, 3, vec![0; 11]).is_none());
    assert!(PixelImage::new(u32::MAX, u32::MAX, 4, vec![]).is_none());
    let rgb = PixelImage::new(2, 2, 3, vec![0; 12]).unwrap();
    assert_eq!(rgb.format(), PixelFormat::Rgb);
    let rgba = PixelImage::new(1, 2, 4, vec![9; 8]).unwrap();
    assert_eq!(rgba.format(), PixelFormat::Rgba);
    assert_eq!((rgba.width(), rgba.height(), rgba.channels()), (1, 2, 4));
}

#[test]
fn texture_upload_sets_wrap_filters_and_mipmaps() {
    let dev = MockDevice::default();
    let mut gpu = Gpu::new(dev.clone());
    let img = PixelImage::new(1, 1, 4, vec![1, 2, 3, 4]).unwrap();
    let t = Texture::new(&mut gpu, &img, SamplingMode::Nearest).unwrap();
    let id = t.id();
    assert_eq!(
        calls(&dev),
        vec![
            Call::Create(ObjectKind::Texture, id),
            Call::Exec(GpuCommand::BindTexture { slot: 0, name: id }),
            Call::Image(PixelFormat::Rgba, 1, 1, vec![1, 2, 3, 4]),
            Call::Exec(GpuCommand::TextureWrapRepeat),
            Call::Exec(GpuCommand::TextureFilter { mag: MagFilter::Nearest, min: MinFilter::LinearMipmapNearest }),
            Call::Exec(GpuCommand::GenerateMipmap),
        ]
    );
    let img3 = PixelImage::new(1, 1, 3, vec![1, 2, 3]).unwrap();
    let t2 = Texture::new(&mut gpu, &img3, SamplingMode::Linear).unwrap();
    let c = calls(&dev);
    assert_eq!(c[8], Call::Image(PixelFormat::Rgb, 1, 1, vec![1, 2, 3]));
    assert_eq!(c[10], Call::Exec(GpuCommand::TextureFilter { mag: MagFilter::Linear, min: MinFilter::LinearMipmapLinear }));
    t.release(&mut gpu);
    t2.release(&mut gpu);
    assert!(live(&dev).is_empty());
}

#[test]
fn renderable_draws_its_index_count_each_time() {
    let dev = MockDevice::default();
    let mut gpu = Gpu::new(dev.clone());
    let layout = vec![attr("a_Pos", VertexAttributeType::Float2)];
    let m = Renderable::new(&mut gpu, &quad_bytes(), &[0, 1, 2, 2, 3, 0], &layout).unwrap();
    assert_eq!(m.index_count_of(), 6);
    assert_eq!(live(&dev).len(), 3);
    let n = calls(&dev).len();
    m.draw(&mut gpu);
    let first: Vec<Call> = calls(&dev)[n..].to_vec();
    m.draw(&mut gpu);
    let second: Vec<Call> = calls(&dev)[n + 2..].to_vec();
    assert_eq!(first, vec![Call::Exec(GpuCommand::BindVertexArray(m.vertex_array_id())), Call::Exec(GpuCommand::DrawIndexed(6))]);
    assert_eq!(first, second);
    m.release(&mut gpu);
    assert!(live(&dev).is_empty());
}

#[test]
fn renderable_construction_order() {
    let dev = MockDevice::default();
    let mut gpu = Gpu::new(dev.clone());
    let layout = vec![attr("a_Pos", VertexAttributeType::Float2)];
    let bytes = quad_bytes();
    let _m = Renderable::new(&mut gpu, &bytes, &[0, 1, 2], &layout).unwrap();
    let c = calls(&dev);
    assert_eq!(c[0], Call::Create(ObjectKind::VertexArray, 1));
    assert_eq!(c[1], Call::Exec(GpuCommand::BindVertexArray(1)));
    assert_eq!(c[2], Call::Create(ObjectKind::Buffer, 2));
    assert_eq!(c[4], Call::Indices(vec![0, 1, 2]));
    assert_eq!(c[5], Call::Create(ObjectKind::Buffer, 3));
    assert_eq!(c[7], Call::Vertices(bytes));
    assert_eq!(c.last(), Some(&Call::Exec(GpuCommand::BindVertexArray(0))));
}

fn viewport_and_clear(c: &[Call]) -> (Option<GpuCommand>, Option<GpuCommand>) {
    let v = c.iter().rev().find_map(|x| match x {
        Call::Exec(g @ GpuCommand::Viewport { .. }) => Some(*g),
        _ => None,
    });
    let cl = c.iter().rev().find_map(|x| match x {
        Call::Exec(g @ GpuCommand::ClearColor(_)) => Some(*g),
        _ => None,
    });
    (v, cl)
}

#[test]
fn scene_state_comes_from_begin_scene_arguments() {
    let dev = MockDevice::default();
    let mut r = Renderer::new(dev.clone());
    let red = Color { r: 255, g: 0, b: 0, a: 255 };
    let green = Color { r: 0, g: 200, b: 0, a: 255 };
    assert_eq!(r.begin_scene(&red, (800, 600)), Ok(()));
    assert_eq!(r.end_scene(), Ok(()));
    let n = calls(&dev).len();
    assert_eq!(r.begin_scene(&green, (1024, 768)), Ok(()));
    let c = calls(&dev);
    assert_eq!(
        c[n..].to_vec(),
        vec![
            Call::Exec(GpuCommand::MakeCurrent),
            Call::Exec(GpuCommand::BindFramebuffer(0)),
            Call::Exec(GpuCommand::Viewport { width: 1024, height: 768 }),
            Call::Exec(GpuCommand::ClearColor(green)),
            Call::Exec(GpuCommand::Clear),
        ]
    );
    assert_eq!(viewport_and_clear(&c), (Some(GpuCommand::Viewport { width: 1024, height: 768 }), Some(GpuCommand::ClearColor(green))));
    assert_eq!(r.get_viewport(), (1024, 768));
    assert_eq!(r.end_scene(), Ok(()));
}

#[test]
fn scene_phase_misuse_is_refused() {
    let dev = MockDevice::default();
    let mut r = Renderer::new(dev.clone());
    let c = Color { r: 1, g: 2, b: 3, a: 4 };
    assert_eq!(r.end_scene(), Err(SceneError::NotInScene));
    assert_eq!(r.begin_scene(&c, (10, 10)), Ok(()));
    let n = calls(&dev).len();
    assert_eq!(r.begin_scene(&c, (20, 20)), Err(SceneError::AlreadyInScene));
    assert_eq!(calls(&dev).len(), n);
    assert_eq!(r.get_viewport(), (10, 10));
    assert_eq!(r.scene_phase(), ScenePhase::InScene);
    assert_eq!(r.end_scene(), Ok(()));
    assert_eq!(r.scene_phase(), ScenePhase::Idle);
}

#[test]
fn framebuffer_scene_restores_default_target() {
    let dev = MockDevice::default();
    let mut r = Renderer::new(dev.clone());
    let img = PixelImage::new(1, 1, 3, vec![0, 0, 0]).unwrap();
    let t = Texture::new(r.gpu_mut(), &img, SamplingMode::Linear).unwrap();
    let tex = t.id();
    let fb = FrameBuffer::new(r.gpu_mut(), t).ok().unwrap();
    assert_eq!(fb.color().id(), tex);
    let c = Color { r: 0, g: 0, b: 0, a: 0 };
    assert_eq!(r.begin_scene_framebuffer(&c, (64, 32), &fb), Ok(()));
    assert_eq!(r.scene_phase(), ScenePhase::InFramebufferScene);
    assert!(calls(&dev).contains(&Call::Exec(GpuCommand::BindFramebuffer(fb.id()))));
    assert_eq!(r.end_scene(), Ok(()));
    assert_eq!(calls(&dev).last(), Some(&Call::Exec(GpuCommand::BindFramebuffer(0))));
    fb.release(r.gpu_mut());
    assert!(live(&dev).is_empty());
}

#[test]
fn draw_renderable_binds_textures_in_order_then_shader() {
    let dev = MockDevice::default();
    let mut r = Renderer::new(dev.clone());
    let img = PixelImage::new(1, 1, 3, vec![0, 0, 0]).unwrap();
    let t0 = Texture::new(r.gpu_mut(), &img, SamplingMode::Linear).unwrap();
    let t1 = Texture::new(r.gpu_mut(), &img, SamplingMode::Nearest).unwrap();
    let p = ShaderProgram::new(r.gpu_mut(), VS, FS).unwrap();
    let m = Renderable::new(r.gpu_mut(), &quad_bytes(), &[0, 1, 2], &[attr("p", VertexAttributeType::Float2)]).unwrap();
    let textures = vec![t0, t1];
    let n = calls(&dev).len();
    r.draw_renderable(&m, &p, &textures);
    assert_eq!(
        calls(&dev)[n..].to_vec(),
        vec![
            Call::Exec(GpuCommand::BindTexture { slot: 0, name: textures[0].id() }),
            Call::Exec(GpuCommand::BindTexture { slot: 1, name: textures[1].id() }),
            Call::Exec(GpuCommand::UseProgram(p.id())),
            Call::Exec(GpuCommand::BindVertexArray(m.vertex_array_id())),
            Call::Exec(GpuCommand::DrawIndexed(3)),
        ]
    );
}

#[test]
fn immediate_draw_releases_its_transient_objects() {
    let dev = MockDevice::default();
    let mut r = Renderer::new(dev.clone());
    let p = ShaderProgram::new(r.gpu_mut(), VS, FS).unwrap();
    let before = live(&dev);
    let n = calls(&dev).len();
    let layout = vec![attr("p", VertexAttributeType::Float2)];
    assert_eq!(r.draw(&quad_bytes(), &[0, 1, 2, 2, 3, 0], &layout, &p, &[]), Ok(()));
    assert_eq!(live(&dev), before);
    let c = calls(&dev)[n..].to_vec();
    let draws: Vec<&Call> = c.iter().filter(|x| matches!(x, Call::Exec(GpuCommand::DrawIndexed(_)))).collect();
    assert_eq!(draws, vec![&Call::Exec(GpuCommand::DrawIndexed(6))]);
    let deletes = c.iter().filter(|x| matches!(x, Call::Delete(_))).count();
    assert_eq!(deletes, 3);
}

#[test]
fn immediate_draw_with_null_handle_leaks_nothing() {
    let dev = MockDevice::default();
    let mut r = Renderer::new(dev.clone());
    let p = ShaderProgram::new(r.gpu_mut(), VS, FS).unwrap();
    let before = live(&dev);
    let mut failing = dev.clone();
    failing.null_kind = Some(ObjectKind::Buffer);
    let mut r2 = Renderer::new(failing.clone());
    let layout = vec![attr("p", VertexAttributeType::Float2)];
    assert_eq!(r2.draw(&quad_bytes(), &[0, 1, 2], &layout, &p, &[]), Err(GpuError::NullHandle(ObjectKind::Buffer)));
    assert_eq!(live(&dev), before);
    let _ = r.get_viewport();
}
