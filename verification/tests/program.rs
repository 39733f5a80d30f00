use gl_test::cleanup::Cleanup;
use gl_test::context::{FileError, Gl, Level, Reply, Request, Step};
use gl_test::glerror::GlError;
use gl_test::gltest::{ControlFlow, Event, Key, PendingGlTest, BACKGROUND_GREEN, BACKGROUND_RED};
use gl_test::label::Label;
use gl_test::resources::programs::{Rectangle, TriangleBuf, TriangleShader};
use gl_test::context::Size;
use gl_test::GlTest;

const ARRAY: u32 = 0x8892;
const ELEMENT_ARRAY: u32 = 0x8893;
const STATIC_DRAW: u32 = 0x88E4;
const FLOAT: u32 = 0x1406;

fn bits(values: &[f32]) -> Vec<u32> {
    values.iter().map(|value| value.to_bits()).collect()
}

fn triangle() -> Vec<u32> {
    bits(&[
        -0.5, -0.5, 0.0, 1.0, 0.0, 0.0, //
        0.5, -0.5, 0.0, 0.0, 1.0, 0.0, //
        0.0, 0.5, 0.0, 0.0, 0.0, 1.0,
    ])
}

fn rectangle() -> Vec<u32> {
    bits(&[
        0.5, 0.5, 0.0, 1.0, 0.0, 0.0, //
        0.5, -0.5, 0.0, 0.0, 1.0, 0.0, //
        -0.5, 0.5, 0.0, 0.0, 0.0, 1.0, //
        -0.5, -0.5, 0.0, 0.25, 0.25, 0.25,
    ])
}

fn info(text: &str) -> Request {
    Request::Log { level: Level::Info, text: text.to_string() }
}

fn error(text: &str) -> Request {
    Request::Log { level: Level::Error, text: text.to_string() }
}

fn pointer(index: u32, size: i32, offset: usize) -> Request {
    Request::VertexAttribPointer { index, size, kind: FLOAT, normalized: false, stride: 24, offset }
}

/// The requests that set a shape up, with the names that a driver counts up from `first`.
fn shape(first: u32, vertices: Vec<u32>, indices: Vec<u32>, components: i32) -> Vec<Request> {
    let (vbo, ebo, vao) = (first, first + 1, first + 2);
    vec![
        Request::GenBuffers,
        Request::BindBuffer { target: ARRAY, buffer: vbo },
        Request::BufferData {
            target: ARRAY,
            size: 4 * vertices.len(),
            data: vertices,
            usage: STATIC_DRAW,
        },
        Request::GenBuffers,
        Request::BindBuffer { target: ELEMENT_ARRAY, buffer: ebo },
        Request::BufferData {
            target: ELEMENT_ARRAY,
            size: 4 * indices.len(),
            data: indices,
            usage: STATIC_DRAW,
        },
        Request::BindBuffer { target: ARRAY, buffer: vbo },
        Request::GenVertexArrays,
        Request::BindVertexArray { array: vao },
        Request::BindBuffer { target: ELEMENT_ARRAY, buffer: ebo },
        Request::EnableVertexAttribArray { index: 0 },
        pointer(0, components, 0),
        Request::EnableVertexAttribArray { index: 1 },
        pointer(1, components, 12),
        Request::BindVertexArray { array: 0 },
        Request::BindBuffer { target: ELEMENT_ARRAY, buffer: 0 },
        Request::BindBuffer { target: ARRAY, buffer: 0 },
    ]
}

/// A driver that performs nothing and answers as a context in good order would: names count
/// up from 1, every status is true, and the files hold their own path.
struct Driver {
    names: u32,
    extensions: i32,
    transcript: Vec<Request>,
}

impl Driver {
    fn new(extensions: i32) -> Driver {
        Driver { names: 0, extensions, transcript: Vec::new() }
    }

    fn name(&mut self) -> Reply {
        self.names += 1;
        Reply::Name(self.names)
    }

    fn perform(&mut self, gl: &mut Gl) -> Reply {
        let requests = gl.take();
        let reply = match requests.last() {
            Some(Request::GenBuffers)
            | Some(Request::GenVertexArrays)
            | Some(Request::CreateShader { .. })
            | Some(Request::CreateProgram) => self.name(),
            Some(Request::GetShaderiv { .. }) | Some(Request::GetProgramiv { .. }) => {
                Reply::Integer(1)
            }
            Some(Request::GetIntegerv { pname: 0x821B }) => Reply::Integer(4),
            Some(Request::GetIntegerv { pname: 0x821C }) => Reply::Integer(6),
            Some(Request::GetIntegerv { pname: 0x821D }) => Reply::Integer(self.extensions),
            Some(Request::GetIntegerv { pname: 0x9126 }) => Reply::Integer(1),
            Some(Request::GetIntegerv { .. }) => Reply::Integer(2),
            Some(Request::GetIntegerPair { .. }) => Reply::Pair(800, 600),
            Some(Request::GetString { name }) => {
                Reply::Text(Some(format!("string {:x}", name).into_bytes()))
            }
            Some(Request::GetStringi { index, .. }) => {
                Reply::Text(Some(format!("extension {}", index).into_bytes()))
            }
            Some(Request::ReadFile { path }) => Reply::File(Ok(format!("// {}", path))),
            _ => Reply::Nothing,
        };
        self.transcript.extend(requests);
        reply
    }

    fn set_up(&mut self, gl: &mut Gl) -> Result<GlTest, GlError> {
        let mut pending = GlTest::new(gl);
        loop {
            let reply = self.perform(gl);
            // The last request that was recorded yields the answer.
            assert_ne!(reply, Reply::Nothing);
            assert!(pending.can_resume(&reply));
            match pending.resume(gl, reply) {
                Step::Ask(next) => pending = next,
                Step::Done(result) => {
                    self.perform(gl);
                    return result;
                }
            }
        }
    }
}

#[test]
fn the_program_is_set_up_in_order() {
    let mut gl = Gl::new();
    let mut driver = Driver::new(2);
    let program = driver.set_up(&mut gl).unwrap();
    let mut expected = vec![
        Request::Enable { cap: 0x92E0 },
        Request::Enable { cap: 0x8242 },
        Request::DebugMessageCallback,
        Request::DebugMessageControl {
            source: 0x1100,
            kind: 0x1100,
            severity: 0x1100,
            enabled: true,
        },
        Request::GetIntegerv { pname: 0x821B },
        Request::GetIntegerv { pname: 0x821C },
        Request::GetString { name: 0x1F00 },
        Request::GetString { name: 0x1F01 },
        Request::GetIntegerv { pname: 0x821D },
        Request::GetStringi { name: 0x1F03, index: 0 },
        Request::GetStringi { name: 0x1F03, index: 1 },
        Request::GetString { name: 0x8B8C },
        Request::GetIntegerv { pname: 0x9126 },
        Request::GetIntegerv { pname: 0x821E },
        info("OpenGL v4.6"),
        info("Vendor: string 1f00"),
        info("GPU: string 1f01"),
        info("GLSL version: string 8b8c"),
        info("Loading shader from file: assets/shaders/triangle.vert"),
        Request::ReadFile { path: "assets/shaders/triangle.vert".to_string() },
        Request::CreateShader { kind: 0x8B31 },
        Request::ShaderSource { shader: 1, source: "// assets/shaders/triangle.vert".to_string() },
        Request::CompileShader { shader: 1 },
        Request::GetShaderiv { shader: 1, pname: 0x8B81, initial: 1 },
        info("Loading shader from file: assets/shaders/triangle.frag"),
        Request::ReadFile { path: "assets/shaders/triangle.frag".to_string() },
        Request::CreateShader { kind: 0x8B30 },
        Request::ShaderSource { shader: 2, source: "// assets/shaders/triangle.frag".to_string() },
        Request::CompileShader { shader: 2 },
        Request::GetShaderiv { shader: 2, pname: 0x8B81, initial: 1 },
        info("Creating shader program 'TriangleShader'"),
        Request::CreateProgram,
        info("Attaching Vertex shader"),
        Request::AttachShader { program: 3, shader: 1 },
        info("Attaching Fragment shader"),
        Request::AttachShader { program: 3, shader: 2 },
        Request::LinkProgram { program: 3 },
        Request::GetProgramiv { program: 3, pname: 0x8B82, initial: 1 },
        Request::DetachShader { program: 3, shader: 1 },
        Request::DetachShader { program: 3, shader: 2 },
        Request::DeleteShader { shader: 1 },
        Request::DeleteShader { shader: 2 },
    ];
    expected.extend(shape(4, triangle(), vec![0, 1, 2], 3));
    expected.extend(shape(7, rectangle(), vec![0, 1, 2, 1, 2, 3], 4));
    expected.extend(vec![
        Request::ClearColor {
            red: (220.0f32 / 255.0).to_bits(),
            green: (205.0f32 / 255.0).to_bits(),
            blue: 1.0f32.to_bits(),
            alpha: 1.0f32.to_bits(),
        },
        Request::ClearDepthf { depth: 0.0f32.to_bits() },
        Request::ClearStencil { stencil: 0 },
    ]);
    assert_eq!(driver.transcript, expected);

    assert_eq!(program.info.version.to_string(), "OpenGL v4.6");
    assert_eq!(program.info.vendor, "string 1f00");
    assert_eq!(program.info.renderer, "string 1f01");
    assert_eq!(program.info.glsl, "string 8b8c");
    assert_eq!(program.info.extensions, vec!["extension 0".to_string(), "extension 1".to_string()]);
    assert_eq!(program.triangle_prog.shader.label(), "TriangleShader");
    assert_eq!(program.triangle_prog.shader.name(), 3);
    assert_eq!(program.trianglebuf.vao.label(), "TriangleVao");
    assert_eq!(program.trianglebuf.vao.vertex_buffer().label(), "TriangleVerts");
    assert_eq!(program.trianglebuf.vao.element_buffer().unwrap().label(), "TriangleEBO");
    assert_eq!(program.rectanglebuf.vao.label(), "RectangleVAO");
    assert_eq!(program.rectanglebuf.vao.vertex_buffer().label(), "RectangleVertices");
    assert_eq!(program.rectanglebuf.vao.element_buffer().unwrap().label(), "RectangleEBO");
}

#[test]
fn the_background_is_that_of_the_program() {
    assert_eq!(BACKGROUND_RED, (220.0f32 / 255.0).to_bits());
    assert_eq!(BACKGROUND_GREEN, (205.0f32 / 255.0).to_bits());
}

#[test]
fn the_program_starts_with_the_largest_viewport() {
    let mut gl = Gl::new();
    let mut driver = Driver::new(0);
    let program = driver.set_up(&mut gl).unwrap();
    driver.transcript.clear();
    let pending = program.run(&mut gl);
    let reply = driver.perform(&mut gl);
    assert_eq!(reply, Reply::Pair(800, 600));
    pending.resume(&mut gl, reply);
    driver.perform(&mut gl);
    assert_eq!(
        driver.transcript,
        vec![
            Request::Clear { mask: 0x4000 },
            Request::GetIntegerPair { pname: 0x0D3A },
            Request::Viewport { x: 0, y: 0, width: 800, height: 600 },
            Request::SwapBuffers,
            Request::UseProgram { program: 3 },
        ]
    );
}

fn draws(array: u32, count: i32) -> Vec<Request> {
    vec![
        Request::Clear { mask: 0x4000 },
        Request::BindVertexArray { array },
        Request::DrawElements { mode: 4, count, kind: 0x1405, offset: 0 },
        Request::RequestRedraw,
    ]
}

#[test]
fn what_the_program_does_on_events() {
    let mut gl = Gl::new();
    let program = Driver::new(0).set_up(&mut gl).unwrap();

    assert_eq!(program.handle(&mut gl, Event::KeyboardInput(Some(Key::A))), ControlFlow::Wait);
    assert_eq!(gl.take(), draws(6, 3));
    assert_eq!(program.handle(&mut gl, Event::KeyboardInput(Some(Key::B))), ControlFlow::Wait);
    assert_eq!(gl.take(), draws(9, 6));
    assert_eq!(program.handle(&mut gl, Event::KeyboardInput(Some(Key::Other))), ControlFlow::Wait);
    assert_eq!(program.handle(&mut gl, Event::KeyboardInput(None)), ControlFlow::Wait);
    assert_eq!(program.handle(&mut gl, Event::LoopDestroyed), ControlFlow::Wait);
    assert_eq!(program.handle(&mut gl, Event::Other), ControlFlow::Wait);
    assert_eq!(gl.take(), Vec::<Request>::new());

    let size = Size { width: 1024, height: 768 };
    assert_eq!(program.handle(&mut gl, Event::Resized(size)), ControlFlow::Wait);
    assert_eq!(
        gl.take(),
        vec![
            Request::ResizeContext { width: 1024, height: 768 },
            Request::Viewport { x: 0, y: 0, width: 1024, height: 768 },
        ]
    );
    assert_eq!(program.handle(&mut gl, Event::RedrawRequested), ControlFlow::Wait);
    assert_eq!(gl.take(), vec![Request::SwapBuffers]);
    assert_eq!(program.handle(&mut gl, Event::CloseRequested), ControlFlow::Exit);
    assert_eq!(gl.take(), Vec::<Request>::new());
}

#[test]
fn the_end_of_the_loop_releases_the_shapes() {
    let mut gl = Gl::new();
    let program = Driver::new(0).set_up(&mut gl).unwrap();
    assert_eq!(program.handle(&mut gl, Event::LoopDestroyed), ControlFlow::Wait);
    assert_eq!(gl.take(), Vec::<Request>::new());
    program.close(&mut gl);
    assert_eq!(
        gl.take(),
        vec![
            Request::DeleteVertexArrays { array: 6 },
            Request::DeleteBuffers { buffer: 4 },
            Request::DeleteBuffers { buffer: 5 },
            Request::DeleteVertexArrays { array: 9 },
            Request::DeleteBuffers { buffer: 7 },
            Request::DeleteBuffers { buffer: 8 },
        ]
    );
}

#[test]
fn the_program_is_released_in_the_order_of_its_parts() {
    let mut gl = Gl::new();
    let program = Driver::new(0).set_up(&mut gl).unwrap();
    program.cleanup(&mut gl);
    assert_eq!(
        gl.take(),
        vec![
            Request::DeleteProgram { program: 3 },
            Request::DeleteVertexArrays { array: 6 },
            Request::DeleteBuffers { buffer: 4 },
            Request::DeleteBuffers { buffer: 5 },
            Request::DeleteVertexArrays { array: 9 },
            Request::DeleteBuffers { buffer: 7 },
            Request::DeleteBuffers { buffer: 8 },
        ]
    );
}

/// Sets the program up with a driver in good order until the request at the place `at` of
/// the requests that yield a value, which is answered by `reply`; gives the error and what was
/// recorded after that answer.
fn fails_at(at: usize, reply: Reply) -> (GlError, Vec<Request>) {
    let mut gl = Gl::new();
    let mut driver = Driver::new(0);
    let mut pending = GlTest::new(&mut gl);
    let mut asked = 0;
    loop {
        let mut answer = driver.perform(&mut gl);
        if asked == at {
            answer = reply;
            asked += 1;
            match pending.resume(&mut gl, answer) {
                Step::Done(Err(error)) => return (error, gl.take()),
                Step::Done(Ok(_)) => panic!("the setting up ended well"),
                Step::Ask(next) => {
                    pending = next;
                    // An error that needs a log: the driver in good order hands one over.
                    let length = driver.perform(&mut gl);
                    pending = match pending.resume(&mut gl, length) {
                        Step::Ask(next) => next,
                        Step::Done(_) => panic!("no log was asked for"),
                    };
                    driver.perform(&mut gl);
                    match pending.resume(&mut gl, Reply::Bytes(b"log".to_vec())) {
                        Step::Done(Err(error)) => return (error, gl.take()),
                        _ => panic!("the log gave no error"),
                    }
                }
            }
        }
        asked += 1;
        pending = match pending.resume(&mut gl, answer) {
            Step::Ask(next) => next,
            Step::Done(_) => panic!("the setting up ended before the answer in question"),
        };
    }
}

#[test]
fn an_error_releases_what_was_made() {
    // With no extension, the details take eight answers; then come the file, the name and
    // the status of each shader, and the name and the status of the program.
    let (error, after) = fails_at(8, Reply::File(Err(FileError::Open("gone".to_string()))));
    assert_eq!(
        error,
        GlError::Shader("gone\nPath: assets/shaders/triangle.vert".to_string())
    );
    assert_eq!(after, Vec::<Request>::new());

    let (error, after) = fails_at(11, Reply::File(Err(FileError::Read("bad".to_string()))));
    assert_eq!(error, GlError::Shader("bad".to_string()));
    assert_eq!(after, vec![Request::DeleteShader { shader: 1 }]);

    let (error, after) = fails_at(13, Reply::Integer(0));
    assert_eq!(error, GlError::Shader("log".to_string()));
    assert_eq!(after, vec![Request::DeleteShader { shader: 1 }]);

    let (error, after) = fails_at(15, Reply::Integer(0));
    assert_eq!(error, GlError::ShaderProgram("log".to_string()));
    assert_eq!(
        after,
        vec![Request::DeleteShader { shader: 1 }, Request::DeleteShader { shader: 2 }]
    );

    // The first buffer of the triangle.
    let (error, after) = fails_at(16, Reply::Name(0));
    assert!(matches!(error, GlError::Buffer(_)));
    let unnamed = "GenBuffers did not reserve a buffer name. Possible context error?";
    assert_eq!(after, vec![self::error(unnamed), Request::DeleteProgram { program: 3 }]);

    // The second buffer of the triangle.
    let (error, after) = fails_at(17, Reply::Name(0));
    assert!(matches!(error, GlError::Buffer(_)));
    assert_eq!(
        after,
        vec![
            self::error(unnamed),
            Request::DeleteBuffers { buffer: 4 },
            Request::DeleteProgram { program: 3 },
        ]
    );

    // The vertex array of the rectangle.
    let (error, after) = fails_at(21, Reply::Name(0));
    assert_eq!(
        error,
        GlError::Buffer("GenVertexArrays returned a vertex array object id of 0.".to_string())
    );
    assert_eq!(
        after,
        vec![
            Request::BindVertexArray { array: 0 },
            self::error("GenVertexArrays did not create a vertex array."),
            Request::DeleteBuffers { buffer: 8 },
            Request::DeleteBuffers { buffer: 7 },
            Request::DeleteVertexArrays { array: 6 },
            Request::DeleteBuffers { buffer: 4 },
            Request::DeleteBuffers { buffer: 5 },
            Request::DeleteProgram { program: 3 },
        ]
    );
}

#[test]
fn the_setting_up_ends_whatever_the_answers() {
    for reply in [Reply::Nothing, Reply::Name(1), Reply::Integer(0), Reply::Integer(1)] {
        let mut gl = Gl::new();
        let mut pending = GlTest::new(&mut gl);
        let mut answers = 0;
        loop {
            gl.take();
            let answer = match &reply {
                Reply::Name(name) => Reply::Name(*name),
                Reply::Integer(value) => Reply::Integer(*value),
                _ => Reply::Nothing,
            };
            assert!(pending.can_resume(&answer));
            answers += 1;
            match pending.resume(&mut gl, answer) {
                Step::Ask(next) => pending = next,
                Step::Done(_) => break,
            }
            assert!(answers < 40);
        }
    }
}

#[test]
fn the_parts_of_the_program_alone() {
    let mut gl = Gl::new();
    let pending = TriangleBuf::new(&mut gl);
    let mut driver = Driver::new(0);
    let mut step = Step::Ask(pending);
    let made = loop {
        match step {
            Step::Ask(pending) => {
                let reply = driver.perform(&mut gl);
                step = pending.resume(&mut gl, reply);
            }
            Step::Done(made) => break made,
        }
    };
    driver.perform(&mut gl);
    assert_eq!(driver.transcript, shape(1, triangle(), vec![0, 1, 2], 3));
    assert_eq!(made.unwrap().vao.label(), "TriangleVao");

    let mut driver = Driver::new(0);
    let mut step = Step::Ask(Rectangle::new(&mut gl));
    let made = loop {
        match step {
            Step::Ask(pending) => {
                let reply = driver.perform(&mut gl);
                step = pending.resume(&mut gl, reply);
            }
            Step::Done(made) => break made,
        }
    };
    driver.perform(&mut gl);
    assert_eq!(driver.transcript, shape(1, rectangle(), vec![0, 1, 2, 1, 2, 3], 4));
    assert_eq!(made.unwrap().vao.label(), "RectangleVAO");

    let mut driver = Driver::new(0);
    let mut step = TriangleShader::new(&mut gl);
    let made = loop {
        match step {
            Step::Ask(pending) => {
                let reply = driver.perform(&mut gl);
                assert!(pending.can_resume(&reply));
                step = pending.resume(&mut gl, reply);
            }
            Step::Done(made) => break made,
        }
    };
    assert_eq!(made.unwrap().shader.name(), 3);
}

#[test]
fn pending_states_can_be_told_apart() {
    let mut gl = Gl::new();
    assert!(matches!(GlTest::new(&mut gl), PendingGlTest::Info { .. }));
}
