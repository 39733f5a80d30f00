use gl_test::cleanup::Cleanup;
use gl_test::context;
use gl_test::context::{Level, Reply, Request, Size, Step};
use gl_test::gl_support::{DebugSeverity, DebugSource, DebugType, Gl, PendingTriangleVao};
use gl_test::glenums::{BufferTarget, BufferUsage};
use gl_test::label::Label;
use gl_test::memory::{ClassicBuffer, ClassicVao, GpuDataIndices, GpuDataVerts};
use gl_test::shaders::datatypes::Triangle;
use gl_test::shaders::ShaderProgram;

const ARRAY: u32 = 0x8892;
const FLOAT: u32 = 0x1406;

#[test]
fn enumerants_of_the_filters() {
    assert_eq!(DebugSeverity::DontCare.bits(), 0x1100);
    assert_eq!(DebugSeverity::High.bits(), 0x9146);
    assert_eq!(DebugSeverity::Medium.bits(), 0x9147);
    assert_eq!(DebugSeverity::Low.bits(), 0x9148);
    assert_eq!(DebugSeverity::Notification.bits(), 0x826B);
    assert_eq!(DebugSource::DontCare.bits(), 0x1100);
    assert_eq!(DebugSource::Api.bits(), 0x8246);
    assert_eq!(DebugSource::WindowSystem.bits(), 0x8247);
    assert_eq!(DebugSource::ShaderCompiler.bits(), 0x8248);
    assert_eq!(DebugSource::ThirdParty.bits(), 0x8249);
    assert_eq!(DebugSource::Application.bits(), 0x824A);
    assert_eq!(DebugSource::Other.bits(), 0x824B);
    assert_eq!(DebugType::DontCare.bits(), 0x1100);
    assert_eq!(DebugType::Error.bits(), 0x824C);
    assert_eq!(DebugType::Deprecated.bits(), 0x824D);
    assert_eq!(DebugType::Undefined.bits(), 0x824E);
    assert_eq!(DebugType::Portability.bits(), 0x824F);
    assert_eq!(DebugType::Performance.bits(), 0x8250);
    assert_eq!(DebugType::Other.bits(), 0x8251);
    assert_eq!(DebugType::Marker.bits(), 0x8268);
    assert_eq!(DebugType::Push.bits(), 0x8269);
    assert_eq!(DebugType::Pop.bits(), 0x826A);
}

#[test]
fn all_is_the_or_of_what_names_something() {
    assert_eq!(DebugSeverity::all(), 0x936F);
    // The third party is left out.
    assert_eq!(DebugSource::all(), 0x824F);
    assert_eq!(DebugType::all(), 0x827F);
}

#[test]
fn the_wildcard_is_the_default() {
    assert_eq!(DebugSeverity::default(), DebugSeverity::DontCare);
    assert_eq!(DebugSource::default(), DebugSource::DontCare);
    assert_eq!(DebugType::default(), DebugType::DontCare);
}

#[test]
fn values_from_their_enumerants() {
    assert_eq!(DebugSeverity::from(0x9146), DebugSeverity::High);
    assert_eq!(DebugSeverity::from(0x9147), DebugSeverity::Medium);
    assert_eq!(DebugSeverity::from(0x9148), DebugSeverity::Low);
    assert_eq!(DebugSeverity::from(0x826B), DebugSeverity::Notification);
    assert_eq!(DebugSeverity::from(0x1100), DebugSeverity::DontCare);
    assert_eq!(DebugSeverity::from(0), DebugSeverity::DontCare);
    assert_eq!(DebugSource::from(0x8246), DebugSource::Api);
    // The enumerant of the shader compiler gives the window system, that of the window system
    // the wildcard.
    assert_eq!(DebugSource::from(0x8248), DebugSource::WindowSystem);
    assert_eq!(DebugSource::from(0x8247), DebugSource::DontCare);
    assert_eq!(DebugSource::from(0x8249), DebugSource::ThirdParty);
    assert_eq!(DebugSource::from(0x824A), DebugSource::Application);
    assert_eq!(DebugSource::from(0x824B), DebugSource::Other);
    assert_eq!(DebugSource::from(7), DebugSource::DontCare);
    assert_eq!(DebugType::from(0x824C), DebugType::Error);
    assert_eq!(DebugType::from(0x824D), DebugType::Deprecated);
    assert_eq!(DebugType::from(0x824E), DebugType::Undefined);
    assert_eq!(DebugType::from(0x824F), DebugType::Portability);
    assert_eq!(DebugType::from(0x8250), DebugType::Performance);
    assert_eq!(DebugType::from(0x8268), DebugType::Marker);
    assert_eq!(DebugType::from(0x8269), DebugType::Push);
    assert_eq!(DebugType::from(0x826A), DebugType::Pop);
    assert_eq!(DebugType::from(0x8251), DebugType::Other);
    assert_eq!(DebugType::from(0x8252), DebugType::DontCare);
    let source: DebugSource = 0x8246.into();
    assert_eq!(source, DebugSource::Api);
}

#[test]
fn the_or_of_values_is_the_or_of_their_enumerants() {
    assert_eq!(DebugSeverity::High | DebugSeverity::Medium, 0x9147);
    assert_eq!(DebugSeverity::High | DebugSeverity::Notification, 0x936F);
    assert_eq!(1u32 | DebugSeverity::High, 0x9147);
    assert_eq!(DebugSource::Api | DebugSource::Other, 0x824F);
    assert_eq!(0u32 | DebugSource::Api, 0x8246);
    assert_eq!(DebugType::Error | DebugType::Marker, 0x826C);
    assert_eq!(0x10000u32 | DebugType::DontCare, 0x11100);
}

#[test]
fn sources_and_kinds_compare_by_their_enumerants() {
    assert!(DebugSource::DontCare < DebugSource::Api);
    assert!(DebugSource::Api < DebugSource::WindowSystem);
    assert!(DebugSource::Application < DebugSource::Other);
    assert!(DebugType::Performance < DebugType::Other);
    assert!(DebugType::Other < DebugType::Marker);
    assert!(DebugType::Push < DebugType::Pop);
}

#[test]
fn names_of_the_values() {
    assert_eq!(DebugSeverity::DontCare.name(), "DontCare");
    assert_eq!(DebugSeverity::Notification.name(), "Notification");
    assert_eq!(DebugSource::ShaderCompiler.name(), "ShaderCompiler");
    assert_eq!(DebugType::Undefined.name(), "Undefined");
    assert_eq!(DebugType::Pop.name(), format!("{:?}", DebugType::Pop));
}

#[test]
fn debug_messages_with_the_names_of_the_values() {
    assert_eq!(
        Gl::gl_debug_callback(0x8246, 0x824C, 5, 0x9146, b"msg"),
        "[5: High][Api: Error] - msg"
    );
    assert_eq!(
        Gl::gl_debug_callback(0x8248, 0x8251, 1280, 0x826B, &[b'a', 0x80]),
        "[1280: Notification][WindowSystem: Other] - a\u{FFFD}"
    );
    assert_eq!(
        Gl::gl_debug_callback(1, 2, 0, 3, b""),
        "[0: DontCare][DontCare: DontCare] - "
    );
}

#[test]
fn a_report_with_the_names_of_the_values() {
    assert_eq!(Gl::report(0x824B, 0x826A, 9, 0x9148, "done"), "[9: Low][Other: Pop] - done");
}

fn program(gl: &mut Gl, name: u32, label: &str) -> ShaderProgram {
    let pending = ShaderProgram::from_shaders(&mut gl.inner, &[], label);
    let pending = match pending.resume(&mut gl.inner, Reply::Name(name)) {
        Step::Ask(pending) => pending,
        Step::Done(_) => panic!("the program ended without its status"),
    };
    let made = match pending.resume(&mut gl.inner, Reply::Integer(1)) {
        Step::Done(made) => made.unwrap(),
        Step::Ask(_) => panic!("the program asks for more"),
    };
    gl.inner.take();
    made
}

#[test]
fn programs_are_found_by_their_label() {
    let mut gl = Gl::new();
    assert!(gl.get_shader("Flat").is_none());
    let flat = program(&mut gl, 1, "Flat");
    assert_eq!(gl.insert_shader(flat).name(), 1);
    let lit = program(&mut gl, 2, "Lit");
    assert_eq!(gl.insert_shader(lit).label(), "Lit");
    assert_eq!(gl.inner.take(), Vec::<Request>::new());
    assert_eq!(gl.get_shader("Flat").map(|found| found.name()), Some(1));
    assert_eq!(gl.get_shader("Lit").map(|found| found.name()), Some(2));
    assert!(gl.get_shader("flat").is_none());
    assert!(gl.get_shader("").is_none());
}

#[test]
fn a_program_gives_way_to_one_of_its_label() {
    let mut gl = Gl::new();
    let flat = program(&mut gl, 1, "Flat");
    gl.insert_shader(flat);
    let lit = program(&mut gl, 2, "Lit");
    gl.insert_shader(lit);
    let newer = program(&mut gl, 3, "Flat");
    assert_eq!(gl.insert_shader(newer).name(), 3);
    assert_eq!(gl.inner.take(), vec![Request::DeleteProgram { program: 1 }]);
    assert_eq!(gl.get_shader("Flat").map(|found| found.name()), Some(3));
    assert_eq!(gl.get_shader("Lit").map(|found| found.name()), Some(2));
    let mut queue = context::Gl::new();
    gl.cleanup(&mut queue);
    assert_eq!(
        queue.take(),
        vec![Request::DeleteProgram { program: 3 }, Request::DeleteProgram { program: 2 }]
    );
}

#[test]
fn viewport_draw_and_debug_output() {
    let mut gl = Gl::new();
    gl.viewport(Size { width: 640, height: 480 });
    gl.draw();
    gl.register_debug_callback();
    gl.debug_message_control(DebugSource::Api, DebugType::DontCare, DebugSeverity::High);
    let violet = Request::ClearColor {
        red: 0.5f32.to_bits(),
        green: 0.0f32.to_bits(),
        blue: 1.0f32.to_bits(),
        alpha: 1.0f32.to_bits(),
    };
    assert_eq!(
        gl.inner.take(),
        vec![
            Request::Viewport { x: 0, y: 0, width: 640, height: 480 },
            violet.clone(),
            Request::Clear { mask: 0x4000 },
            violet,
            Request::DrawArrays { mode: 4, first: 0, count: 3 },
            Request::Enable { cap: 0x92E0 | 0x8242 },
            Request::DebugMessageCallback,
            Request::DebugMessageControl {
                source: 0x8246,
                kind: 0x1100,
                severity: 0x9146,
                enabled: true,
            },
        ]
    );
}

fn pointer(index: u32, offset: usize) -> Request {
    Request::VertexAttribPointer {
        index,
        size: 3,
        kind: FLOAT,
        normalized: false,
        stride: 24,
        offset,
    }
}

#[test]
fn the_triangle_over_one_buffer() {
    let mut gl = Gl::new();
    let pending = gl.triangle_vao();
    assert!(matches!(pending, PendingTriangleVao::Vertices { .. }));
    assert_eq!(gl.inner.take(), vec![Request::GenBuffers]);
    let pending = match pending.resume(&mut gl, Reply::Name(1)) {
        Step::Ask(pending) => pending,
        Step::Done(_) => panic!("the triangle ended without its vertex array"),
    };
    let requests = gl.inner.take();
    assert_eq!(requests.len(), 4);
    assert_eq!(requests[0], Request::BindBuffer { target: ARRAY, buffer: 1 });
    assert!(matches!(&requests[1], Request::BufferData { size: 72, usage: 0x88E4, .. }));
    assert_eq!(requests[2], Request::BindBuffer { target: ARRAY, buffer: 1 });
    assert_eq!(requests[3], Request::GenVertexArrays);
    let array = match pending.resume(&mut gl, Reply::Name(2)) {
        Step::Done(array) => array,
        Step::Ask(_) => panic!("the triangle asks for more"),
    };
    assert_eq!(
        gl.inner.take(),
        vec![
            Request::BindVertexArray { array: 2 },
            Request::EnableVertexAttribArray { index: 0 },
            pointer(0, 0),
            Request::EnableVertexAttribArray { index: 1 },
            pointer(1, 12),
        ]
    );
    assert_eq!(array.label(), "Triangle");
    array.cleanup(&mut gl.inner);
    assert_eq!(
        gl.inner.take(),
        vec![Request::DeleteVertexArrays { array: 2 }, Request::DeleteBuffers { buffer: 1 }]
    );
}

#[test]
fn a_buffer_that_is_taken_as_it_comes() {
    let mut gl = context::Gl::new();
    let pending = ClassicBuffer::new(&mut gl, BufferTarget::array(), "b");
    assert_eq!(gl.take(), vec![Request::GenBuffers]);
    let mut buffer = pending.resume(&mut gl, Reply::Name(0));
    assert_eq!(buffer.target(), BufferTarget::array());
    assert_eq!(buffer.label(), "b");
    buffer.bind(&mut gl);
    buffer.rebind(&mut gl, BufferTarget::texture_buffer());
    assert_eq!(buffer.target(), BufferTarget::texture_buffer());
    buffer.unbind(&mut gl);
    ClassicBuffer::unbind_any(&mut gl, BufferTarget::array());
    buffer.write(&mut gl, &Triangle::default().indices(), BufferUsage::stream_read());
    buffer.cleanup(&mut gl);
    assert_eq!(
        gl.take(),
        vec![
            Request::Log {
                level: Level::Error,
                text: "GenBuffers failed to reserve a buffer name.\nObject id = 0 for Array"
                    .to_string(),
            },
            Request::BindBuffer { target: ARRAY, buffer: 0 },
            Request::BindBuffer { target: 0x8C2A, buffer: 0 },
            Request::BindBuffer { target: 0x8C2A, buffer: 0 },
            Request::BindBuffer { target: ARRAY, buffer: 0 },
            Request::BindBuffer { target: 0x8C2A, buffer: 0 },
            Request::BufferData { target: 0x8C2A, size: 12, data: vec![0, 1, 2], usage: 0x88E1 },
            Request::DeleteBuffers { buffer: 0 },
        ]
    );
}

#[test]
fn a_vertex_array_that_is_taken_as_it_comes() {
    let mut gl = context::Gl::new();
    let buffer =
        ClassicBuffer::new(&mut gl, BufferTarget::uniform(), "b").resume(&mut gl, Reply::Name(4));
    gl.take();
    let layouts = Triangle::default().memory_layout();
    let pending = ClassicVao::new(&mut gl, buffer, &layouts, "a");
    assert_eq!(
        gl.take(),
        vec![Request::BindBuffer { target: ARRAY, buffer: 4 }, Request::GenVertexArrays]
    );
    let array = pending.resume(&mut gl, Reply::Name(0));
    assert_eq!(
        gl.take(),
        vec![
            Request::BindVertexArray { array: 0 },
            Request::Log {
                level: Level::Error,
                text: "GenVertexArrays did not create a vertex array.".to_string(),
            },
            Request::EnableVertexAttribArray { index: 0 },
            pointer(0, 0),
            Request::EnableVertexAttribArray { index: 1 },
            pointer(1, 12),
        ]
    );
    array.bind(&mut gl);
    ClassicVao::unbind(&mut gl);
    assert_eq!(
        gl.take(),
        vec![Request::BindVertexArray { array: 0 }, Request::BindVertexArray { array: 0 }]
    );
    assert_eq!(array.label(), "a");
}
