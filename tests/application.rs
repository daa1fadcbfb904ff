use std::cell::RefCell;
use std::rc::Rc;
use std::time::Duration;

use proer::application::{AppContext, Application};
use proer::event::{Action, Event, MouseButton};
use proer::gpu::{Color, Device, GpuCommand, GpuObject, ObjectKind, PixelFormat};
use proer::layer::Layer;
use proer::renderable::Renderable;
use proer::shader::ShaderProgram;
use proer::texture::{PixelImage, SamplingMode, Texture};
use proer::vertexlayout::{VertexAtribute, VertexAttributeType};

#[derive(Clone, Default)]
struct LogDevice {
    commands: Rc<RefCell<Vec<GpuCommand>>>,
    next: Rc<RefCell<u32>>,
}

impl Device for LogDevice {
    fn create(&mut self, _kind: ObjectKind) -> u32 {
        *self.next.borrow_mut() += 1;
        *self.next.borrow()
    }
    fn delete(&mut self, _object: GpuObject) {}
    fn execute(&mut self, command: GpuCommand) {
        self.commands.borrow_mut().push(command);
    }
    fn upload_vertices(&mut self, _bytes: &[u8]) {}
    fn upload_indices(&mut self, _indices: &[u32]) {}
    fn upload_image(&mut self, _format: PixelFormat, _width: u32, _height: u32, _pixels: &[u8]) {}
    fn compile(&mut self, _shader: u32, _source: &str) -> bool {
        true
    }
    fn link(&mut self, _program: u32, _vertex: u32, _fragment: u32) -> bool {
        true
    }
    fn uniform_location(&mut self, _program: u32, _name: &str) -> i32 {
        0
    }
}

type Journal = Rc<RefCell<Vec<String>>>;

struct Recording {
    name: &'static str,
    handles: bool,
    closes_on_update: bool,
    journal: Journal,
    sizes: Rc<RefCell<Vec<(u32, u32)>>>,
}

impl Recording {
    fn new(name: &'static str, handles: bool, journal: &Journal) -> Self {
        Recording { name, handles, closes_on_update: false, journal: journal.clone(), sizes: Rc::default() }
    }
}

impl Layer<LogDevice> for Recording {
    fn on_create(&mut self, _app: &mut AppContext<LogDevice>) {
        self.journal.borrow_mut().push(format!("create {}", self.name));
    }
    fn on_update(&mut self, _elapsed: Duration, app: &mut AppContext<LogDevice>) {
        self.journal.borrow_mut().push(format!("update {}", self.name));
        self.sizes.borrow_mut().push(app.get_size());
        if self.closes_on_update {
            app.close();
        }
    }
    fn on_event(&mut self, _e: Event, _app: &mut AppContext<LogDevice>) -> bool {
        self.journal.borrow_mut().push(format!("event {}", self.name));
        self.handles
    }
    fn on_destroy(&mut self, _app: &mut AppContext<LogDevice>) {
        self.journal.borrow_mut().push(format!("destroy {}", self.name));
    }
}

fn journal(j: &Journal) -> Vec<String> {
    j.borrow().clone()
}

#[test]
fn handled_event_stops_at_the_handling_layer() {
    let j: Journal = Rc::default();
    let mut app = Application::new(LogDevice::default(), (800, 600));
    app.add_layer(Recording::new("A", false, &j));
    app.add_layer(Recording::new("B", true, &j));
    app.add_layer(Recording::new("C", false, &j));
    j.borrow_mut().clear();
    let e = Event::Button(MouseButton::Left, Action::Press);
    assert_eq!(app.dispatch_event(e), Some(1));
    assert_eq!(journal(&j), vec!["event A", "event B"]);
}

#[test]
fn unhandled_event_reaches_every_layer_in_order() {
    let j: Journal = Rc::default();
    let mut app = Application::new(LogDevice::default(), (800, 600));
    app.add_layer(Recording::new("A", false, &j));
    app.add_layer(Recording::new("B", false, &j));
    j.borrow_mut().clear();
    assert_eq!(app.dispatch_event(Event::Focus), None);
    assert_eq!(journal(&j), vec!["event A", "event B"]);
}

#[test]
fn resize_sets_the_size_the_next_frame_sees() {
    let j: Journal = Rc::default();
    let mut app = Application::new(LogDevice::default(), (800, 600));
    let layer = Recording::new("A", false, &j);
    let sizes = layer.sizes.clone();
    app.add_layer(layer);
    assert_eq!(app.get_size(), (800, 600));
    app.frame(&[Event::Resize(1024, 768), Event::Focus], Duration::from_millis(16));
    assert_eq!(app.get_size(), (1024, 768));
    assert_eq!(*sizes.borrow(), vec![(1024, 768)]);
    app.frame(&[], Duration::from_millis(16));
    assert_eq!(*sizes.borrow(), vec![(1024, 768), (1024, 768)]);
}

#[test]
fn cursor_move_is_cached() {
    let mut app: Application<LogDevice, Recording> = Application::new(LogDevice::default(), (8, 8));
    assert_eq!(app.get_cursor_pos(), (0, 0));
    let pos = (12.5f64.to_bits(), 3.0f64.to_bits());
    app.dispatch_event(Event::CursorMove(pos.0, pos.1));
    assert_eq!(app.get_cursor_pos(), pos);
    assert_eq!(f64::from_bits(app.get_cursor_pos().0), 12.5);
}

#[test]
fn close_event_stops_the_application() {
    let j: Journal = Rc::default();
    let mut app = Application::new(LogDevice::default(), (8, 8));
    app.add_layer(Recording::new("A", false, &j));
    assert!(app.is_running());
    app.frame(&[Event::Close], Duration::from_millis(1));
    assert!(!app.is_running());
    assert_eq!(journal(&j), vec!["create A", "event A", "update A"]);
}

#[test]
fn a_layer_may_close_the_application() {
    let j: Journal = Rc::default();
    let mut app = Application::new(LogDevice::default(), (8, 8));
    let mut layer = Recording::new("A", false, &j);
    layer.closes_on_update = true;
    app.add_layer(layer);
    app.frame(&[], Duration::from_millis(1));
    assert!(!app.is_running());
}

#[test]
fn frame_updates_every_layer_in_stack_order() {
    let j: Journal = Rc::default();
    let mut app = Application::new(LogDevice::default(), (8, 8));
    app.add_layer(Recording::new("A", false, &j));
    app.add_layer(Recording::new("B", true, &j));
    app.frame(&[Event::Char('x')], Duration::from_millis(5));
    assert_eq!(journal(&j), vec!["create A", "create B", "event A", "event B", "update A", "update B"]);
    assert_eq!(app.len(), 2);
}

#[test]
fn shutdown_destroys_each_layer_once() {
    let j: Journal = Rc::default();
    let mut app = Application::new(LogDevice::default(), (8, 8));
    app.add_layer(Recording::new("A", false, &j));
    app.add_layer(Recording::new("B", false, &j));
    j.borrow_mut().clear();
    app.shutdown();
    app.shutdown();
    assert_eq!(journal(&j), vec!["destroy A", "destroy B"]);
    assert!(!app.is_running());
}

struct QuadLayer {
    shader: Option<ShaderProgram>,
    textures: Vec<Texture>,
    quad: Option<Renderable>,
    texture_name: Rc<RefCell<u32>>,
}

impl Layer<LogDevice> for QuadLayer {
    fn on_create(&mut self, app: &mut AppContext<LogDevice>) {
        let gpu = app.renderer().gpu_mut();
        let layout = vec![VertexAtribute { name: "a_Pos".to_string(), datatype: VertexAttributeType::Float2, interpolate: true }];
        let vertices: Vec<u8> = [-0.5f32, -0.5, 0.5, -0.5, 0.5, 0.5, -0.5, 0.5].iter().flat_map(|f| f.to_le_bytes()).collect();
        self.quad = Some(Renderable::new(gpu, &vertices, &[0, 1, 2, 2, 3, 0], &layout).unwrap());
        self.shader = Some(ShaderProgram::new(gpu, "vs", "fs").unwrap());
        let image = PixelImage::new(2, 2, 4, vec![255; 16]).unwrap();
        let texture = Texture::new(gpu, &image, SamplingMode::Nearest).unwrap();
        *self.texture_name.borrow_mut() = texture.id();
        self.textures.push(texture);
    }

    fn on_update(&mut self, _elapsed: Duration, app: &mut AppContext<LogDevice>) {
        let size = app.get_size();
        let renderer = app.renderer();
        renderer.begin_scene(&Color { r: 0, g: 200, b: 0, a: 255 }, size).unwrap();
        renderer.draw_renderable(self.quad.as_ref().unwrap(), self.shader.as_ref().unwrap(), &self.textures);
        renderer.end_scene().unwrap();
    }
}

#[test]
fn quad_layer_frame_draws_six_indices_with_its_texture() {
    let device = LogDevice::default();
    let commands = device.commands.clone();
    let mut app = Application::new(device, (800, 600));
    let texture_name = Rc::new(RefCell::new(0));
    app.add_layer(QuadLayer { shader: None, textures: Vec::new(), quad: None, texture_name: texture_name.clone() });
    commands.borrow_mut().clear();
    app.frame(&[], Duration::from_millis(16));
    let c = commands.borrow().clone();
    assert_eq!(c[2], GpuCommand::Viewport { width: 800, height: 600 });
    let draws: Vec<GpuCommand> = c.iter().copied().filter(|x| matches!(x, GpuCommand::DrawIndexed(_))).collect();
    assert_eq!(draws, vec![GpuCommand::DrawIndexed(6)]);
    let tex = *texture_name.borrow();
    let bound: Vec<GpuCommand> = c.iter().copied().filter(|x| matches!(x, GpuCommand::BindTexture { .. })).collect();
    assert_eq!(bound, vec![GpuCommand::BindTexture { slot: 0, name: tex }]);
    commands.borrow_mut().clear();
    app.frame(&[Event::Resize(1024, 768)], Duration::from_millis(16));
    assert!(commands.borrow().contains(&GpuCommand::Viewport { width: 1024, height: 768 }));
}

#[test]
fn key_scroll_and_move_events_leave_cached_state() {
    let j: Journal = Rc::default();
    let mut app = Application::new(LogDevice::default(), (640, 480));
    app.add_layer(Recording::new("A", false, &j));
    app.frame(
        &[Event::Key(egui::Key::A, Action::Press), Event::Scroll(0, 1.0f64.to_bits()), Event::Move(3, 4)],
        Duration::from_millis(2),
    );
    assert_eq!(app.get_size(), (640, 480));
    assert_eq!(app.get_cursor_pos(), (0, 0));
    assert!(app.is_running());
    assert_eq!(journal(&j), vec!["create A", "event A", "event A", "event A", "update A"]);
}

#[test]
fn renderer_is_reachable_from_the_application() {
    let device = LogDevice::default();
    let commands = device.commands.clone();
    let mut app: Application<LogDevice, Recording> = Application::new(device, (4, 4));
    let c = Color { r: 9, g: 8, b: 7, a: 6 };
    assert!(app.renderer().begin_scene(&c, (4, 4)).is_ok());
    assert!(app.renderer().end_scene().is_ok());
    assert_eq!(commands.borrow()[3], GpuCommand::ClearColor(c));
    app.close();
    assert!(!app.is_running());
}

#[test]
fn a_layer_closing_on_create_stops_the_application() {
    struct Closer;
    impl Layer<LogDevice> for Closer {
        fn on_create(&mut self, app: &mut AppContext<LogDevice>) {
            app.close();
        }
    }
    let mut app = Application::new(LogDevice::default(), (8, 8));
    app.add_layer(Closer);
    assert!(!app.is_running());
    assert!(!app.is_shut_down());
    app.shutdown();
    assert!(app.is_shut_down());
}

#[test]
fn frame_hands_every_event_down_in_order() {
    let j: Journal = Rc::default();
    let mut app = Application::new(LogDevice::default(), (8, 8));
    app.add_layer(Recording::new("A", true, &j));
    app.add_layer(Recording::new("B", false, &j));
    j.borrow_mut().clear();
    app.frame(&[Event::Focus, Event::UnFocus], Duration::from_millis(3));
    assert_eq!(journal(&j), vec!["event A", "event A", "update A", "update B"]);
}
