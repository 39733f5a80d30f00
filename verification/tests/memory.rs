use gl_test::cleanup::Cleanup;
use gl_test::context::{Gl, Level, Reply, Request};
use gl_test::glenums::{BufferTarget, BufferUsage};
use gl_test::glerror::GlError;
use gl_test::label::Label;
use gl_test::memory::stateful::{Buffer, VertexArray};
use gl_test::memory::{GpuDataVerts, Layout};
use gl_test::shaders::datatypes::Triangle;

const ARRAY: u32 = 0x8892;
const ELEMENT_ARRAY: u32 = 0x8893;
const STATIC_DRAW: u32 = 0x88E4;
const FLOAT: u32 = 0x1406;

fn buffer(gl: &mut Gl, name: u32, target: BufferTarget, label: &str) -> Buffer {
    let made = Buffer::new(gl, target, label).resume(gl, Reply::Name(name)).unwrap();
    assert_eq!(gl.take(), vec![Request::GenBuffers]);
    made
}

#[test]
fn a_buffer_asks_for_a_name_and_takes_it() {
    let mut gl = Gl::new();
    let pending = Buffer::new(&mut gl, BufferTarget::array(), "Vertices");
    assert_eq!(gl.take(), vec![Request::GenBuffers]);
    let made = pending.resume(&mut gl, Reply::Name(3)).unwrap();
    assert_eq!(gl.take(), Vec::<Request>::new());
    assert_eq!(made.target(), BufferTarget::array());
    assert_eq!(made.label(), "Vertices");
    made.bind(&mut gl);
    assert_eq!(gl.take(), vec![Request::BindBuffer { target: ARRAY, buffer: 3 }]);
}

#[test]
fn a_buffer_without_a_name_is_an_error() {
    let mut gl = Gl::new();
    let pending = Buffer::new(&mut gl, BufferTarget::array(), "Vertices");
    gl.take();
    match pending.resume(&mut gl, Reply::Name(0)) {
        Err(GlError::Buffer(message)) => assert_eq!(
            message,
            "GenBuffers failed to reserve a buffer name.\nObject id = 0 for Array"
        ),
        _ => panic!("the name 0 gave no buffer error"),
    }
    assert_eq!(
        gl.take(),
        vec![Request::Log {
            level: Level::Error,
            text: "GenBuffers did not reserve a buffer name. Possible context error?".to_string(),
        }]
    );
    let pending = Buffer::new(&mut gl, BufferTarget::element_array(), "Indices");
    match pending.resume(&mut gl, Reply::Name(0)) {
        Err(GlError::Buffer(message)) => assert_eq!(
            message,
            "GenBuffers failed to reserve a buffer name.\nObject id = 0 for Array | ElementArray"
        ),
        _ => panic!("the name 0 gave no buffer error"),
    }
}

#[test]
fn an_answer_without_a_name_counts_as_the_name_0() {
    let mut gl = Gl::new();
    let pending = Buffer::new(&mut gl, BufferTarget::array(), "Vertices");
    assert!(matches!(pending.resume(&mut gl, Reply::Nothing), Err(GlError::Buffer(_))));
    let pending = Buffer::new(&mut gl, BufferTarget::array(), "Vertices");
    assert!(matches!(pending.resume(&mut gl, Reply::Integer(5)), Err(GlError::Buffer(_))));
}

#[test]
fn binding_and_unbinding() {
    let mut gl = Gl::new();
    let mut made = buffer(&mut gl, 9, BufferTarget::array(), "b");
    made.unbind(&mut gl);
    made.rebind(&mut gl, BufferTarget::uniform());
    assert_eq!(made.target(), BufferTarget::uniform());
    made.bind(&mut gl);
    made.unbind(&mut gl);
    Buffer::unbind_any(&mut gl, BufferTarget::query());
    assert_eq!(
        gl.take(),
        vec![
            Request::BindBuffer { target: ARRAY, buffer: 0 },
            Request::BindBuffer { target: 0x8A11, buffer: 9 },
            Request::BindBuffer { target: 0x8A11, buffer: 9 },
            Request::BindBuffer { target: 0x8A11, buffer: 0 },
            Request::BindBuffer { target: 0x9192, buffer: 0 },
        ]
    );
    assert_eq!(made.label(), "b");
}

#[test]
fn writing_binds_the_buffer_and_copies_the_data() {
    let mut gl = Gl::new();
    let made = buffer(&mut gl, 4, BufferTarget::array(), "b");
    let triangle = Triangle::default();
    made.write(&mut gl, &triangle, BufferUsage::static_draw());
    let requests = gl.take();
    assert_eq!(requests.len(), 2);
    assert_eq!(requests[0], Request::BindBuffer { target: ARRAY, buffer: 4 });
    match &requests[1] {
        Request::BufferData { target, size, data, usage } => {
            assert_eq!(*target, ARRAY);
            assert_eq!(*size, 72);
            assert_eq!(data.len(), 18);
            assert_eq!(data[0], (-0.5f32).to_bits());
            assert_eq!(data[17], 1.0f32.to_bits());
            assert_eq!(*usage, STATIC_DRAW);
        }
        other => panic!("no data was copied: {:?}", other),
    }
    made.fill(&mut gl, 8, vec![1, 2], BufferUsage::dynamic_draw());
    assert_eq!(
        gl.take(),
        vec![
            Request::BindBuffer { target: ARRAY, buffer: 4 },
            Request::BufferData { target: ARRAY, size: 8, data: vec![1, 2], usage: 0x88E8 },
        ]
    );
}

#[test]
fn a_buffer_is_released_by_its_deletion() {
    let mut gl = Gl::new();
    let made = buffer(&mut gl, 4, BufferTarget::array(), "b");
    made.cleanup(&mut gl);
    assert_eq!(gl.take(), vec![Request::DeleteBuffers { buffer: 4 }]);
}

fn pointer(index: u32, size: i32, stride: i32, offset: usize) -> Request {
    Request::VertexAttribPointer { index, size, kind: FLOAT, normalized: false, stride, offset }
}

#[test]
fn a_vertex_array_is_set_up_in_order() {
    let mut gl = Gl::new();
    let vbo = buffer(&mut gl, 1, BufferTarget::copy_read(), "v");
    let ebo = buffer(&mut gl, 2, BufferTarget::element_array(), "e");
    let layouts = Triangle::default().memory_layout();
    let pending = VertexArray::new(&mut gl, vbo, Some(ebo), &layouts, "Shape");
    assert_eq!(
        gl.take(),
        vec![Request::BindBuffer { target: ARRAY, buffer: 1 }, Request::GenVertexArrays]
    );
    let array = pending.resume(&mut gl, Reply::Name(5)).unwrap();
    assert_eq!(
        gl.take(),
        vec![
            Request::BindVertexArray { array: 5 },
            Request::BindBuffer { target: ELEMENT_ARRAY, buffer: 2 },
            Request::EnableVertexAttribArray { index: 0 },
            pointer(0, 3, 24, 0),
            Request::EnableVertexAttribArray { index: 1 },
            pointer(1, 3, 24, 12),
            Request::BindVertexArray { array: 0 },
            Request::BindBuffer { target: ELEMENT_ARRAY, buffer: 0 },
            Request::BindBuffer { target: ARRAY, buffer: 0 },
        ]
    );
    assert_eq!(array.label(), "Shape");
    assert_eq!(array.vertex_buffer().target(), BufferTarget::array());
    assert_eq!(array.vertex_buffer().label(), "v");
    assert_eq!(array.element_buffer().map(|ebo| ebo.label()), Some("e".to_string()));
    array.bind(&mut gl);
    VertexArray::unbind(&mut gl);
    array.cleanup(&mut gl);
    assert_eq!(
        gl.take(),
        vec![
            Request::BindVertexArray { array: 5 },
            Request::BindVertexArray { array: 0 },
            Request::DeleteVertexArrays { array: 5 },
            Request::DeleteBuffers { buffer: 1 },
            Request::DeleteBuffers { buffer: 2 },
        ]
    );
}

#[test]
fn a_vertex_array_without_indices_and_without_attributes() {
    let mut gl = Gl::new();
    let vbo = buffer(&mut gl, 1, BufferTarget::array(), "v");
    let pending = VertexArray::new(&mut gl, vbo, None, &[], "Bare");
    gl.take();
    let array = pending.resume(&mut gl, Reply::Name(8)).unwrap();
    assert_eq!(
        gl.take(),
        vec![
            Request::BindVertexArray { array: 8 },
            Request::BindVertexArray { array: 0 },
            Request::BindBuffer { target: ARRAY, buffer: 0 },
        ]
    );
    assert!(array.element_buffer().is_none());
    array.cleanup(&mut gl);
    assert_eq!(
        gl.take(),
        vec![Request::DeleteVertexArrays { array: 8 }, Request::DeleteBuffers { buffer: 1 }]
    );
}

#[test]
fn a_vertex_array_without_a_name_releases_its_buffers() {
    let mut gl = Gl::new();
    let vbo = buffer(&mut gl, 1, BufferTarget::array(), "v");
    let ebo = buffer(&mut gl, 2, BufferTarget::element_array(), "e");
    let layouts = Triangle::default().memory_layout();
    let pending = VertexArray::new(&mut gl, vbo, Some(ebo), &layouts, "Shape");
    gl.take();
    match pending.resume(&mut gl, Reply::Name(0)) {
        Err(GlError::Buffer(message)) => {
            assert_eq!(message, "GenVertexArrays returned a vertex array object id of 0.")
        }
        _ => panic!("the name 0 gave no buffer error"),
    }
    assert_eq!(
        gl.take(),
        vec![
            Request::BindVertexArray { array: 0 },
            Request::Log {
                level: Level::Error,
                text: "GenVertexArrays did not create a vertex array.".to_string(),
            },
            Request::DeleteBuffers { buffer: 2 },
            Request::DeleteBuffers { buffer: 1 },
        ]
    );
}

#[test]
fn attributes_are_cut_to_the_width_of_the_interface() {
    let mut gl = Gl::new();
    let vbo = buffer(&mut gl, 1, BufferTarget::array(), "v");
    let layouts = [Layout { index: 0x1_0000_0002, size: 0xFFFF_FFFF, stride: 0x8000_0000, start: 40 }];
    let pending = VertexArray::new(&mut gl, vbo, None, &layouts, "Wide");
    gl.take();
    pending.resume(&mut gl, Reply::Name(8)).unwrap();
    let requests = gl.take();
    assert_eq!(requests[1], Request::EnableVertexAttribArray { index: 2 });
    assert_eq!(requests[2], pointer(2, -1, i32::MIN, 40));
}
