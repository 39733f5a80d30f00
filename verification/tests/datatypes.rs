use gl_test::memory::{GpuData, GpuDataIndices, GpuDataVerts, Layout};
use gl_test::shaders::datatypes::vertex::{HALF, MINUS_HALF, ONE, QUARTER, ZERO};
use gl_test::shaders::datatypes::{Rectangle, Triangle, Vertex, Vertex3};

fn bits(values: &[f32]) -> Vec<u32> {
    values.iter().map(|value| value.to_bits()).collect()
}

#[test]
fn the_bit_patterns_are_those_of_the_numbers() {
    assert_eq!(ZERO, 0.0f32.to_bits());
    assert_eq!(QUARTER, 0.25f32.to_bits());
    assert_eq!(HALF, 0.5f32.to_bits());
    assert_eq!(MINUS_HALF, (-0.5f32).to_bits());
    assert_eq!(ONE, 1.0f32.to_bits());
}

#[test]
fn a_vertex_is_its_position_then_its_colour() {
    let vertex = Vertex3::new(
        [0.5f32.to_bits(), (-0.5f32).to_bits(), 0.0f32.to_bits()],
        [1.0f32.to_bits(), 0.0f32.to_bits(), 0.25f32.to_bits()],
    );
    assert_eq!(vertex.words(), bits(&[0.5, -0.5, 0.0, 1.0, 0.0, 0.25]));
    assert_eq!(vertex.size_total(), 24);
    assert_eq!(vertex.stride(), 24);
    assert_eq!(Vertex3::size_position(), 12);
    assert_eq!(Vertex3::size_color(), 12);
}

#[test]
fn sizes_of_a_vertex_follow_its_components() {
    let vertex: Vertex<2, 4> = Vertex::new([1, 2], [3, 4, 5, 6]);
    assert_eq!(Vertex::<2, 4>::size_position(), 8);
    assert_eq!(Vertex::<2, 4>::size_color(), 16);
    assert_eq!(vertex.stride(), 24);
    assert_eq!(vertex.size_total(), 24);
    assert_eq!(vertex.words(), vec![1, 2, 3, 4, 5, 6]);
    assert_eq!(
        vertex.memory_layout(),
        [
            Layout { index: 0, size: 3, stride: 24, start: 0 },
            Layout { index: 1, size: 3, stride: 24, start: 8 },
        ]
    );
    let empty: Vertex<0, 0> = Vertex::new([], []);
    assert_eq!(empty.stride(), 0);
    assert_eq!(empty.words(), Vec::<u32>::new());
}

#[test]
fn the_triangle_of_the_program() {
    let triangle = Triangle::default();
    assert_eq!(
        triangle.words(),
        bits(&[
            -0.5, -0.5, 0.0, 1.0, 0.0, 0.0, //
            0.5, -0.5, 0.0, 0.0, 1.0, 0.0, //
            0.0, 0.5, 0.0, 0.0, 0.0, 1.0,
        ])
    );
    assert_eq!(triangle.size_total(), 72);
    assert_eq!(triangle.stride(), 24);
    assert_eq!(
        triangle.memory_layout(),
        [
            Layout { index: 0, size: 3, stride: 24, start: 0 },
            Layout { index: 1, size: 3, stride: 24, start: 12 },
        ]
    );
    let indices = triangle.indices();
    assert_eq!(indices.words(), vec![0, 1, 2]);
    assert_eq!(indices.size_total(), 12);
}

#[test]
fn the_rectangle_of_the_program() {
    let rectangle = Rectangle::default();
    assert_eq!(
        rectangle.words(),
        bits(&[
            0.5, 0.5, 0.0, 1.0, 0.0, 0.0, //
            0.5, -0.5, 0.0, 0.0, 1.0, 0.0, //
            -0.5, 0.5, 0.0, 0.0, 0.0, 1.0, //
            -0.5, -0.5, 0.0, 0.25, 0.25, 0.25,
        ])
    );
    assert_eq!(rectangle.size_total(), 96);
    assert_eq!(rectangle.stride(), 24);
    assert_eq!(
        rectangle.memory_layout(),
        [
            Layout { index: 0, size: 4, stride: 24, start: 0 },
            Layout { index: 1, size: 4, stride: 24, start: 12 },
        ]
    );
    let indices = rectangle.indices();
    assert_eq!(indices.words(), vec![0, 1, 2, 1, 2, 3]);
    assert_eq!(indices.size_total(), 24);
}

#[test]
fn a_shape_of_given_vertices() {
    let a = Vertex3::new([1, 2, 3], [4, 5, 6]);
    let b = Vertex3::new([7, 8, 9], [10, 11, 12]);
    let c = Vertex3::new([13, 14, 15], [16, 17, 18]);
    let triangle = Triangle::new([a, b, c]);
    assert_eq!(triangle.words(), (1..=18).collect::<Vec<u32>>());
    let d = Vertex3::new([19, 20, 21], [22, 23, 24]);
    let rectangle = Rectangle::new([a, b, c, d]);
    assert_eq!(rectangle.words(), (1..=24).collect::<Vec<u32>>());
    assert_eq!(rectangle.size_total(), 4 * rectangle.words().len());
}
