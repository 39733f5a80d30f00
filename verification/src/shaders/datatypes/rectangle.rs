use crate::memory::{GpuData, GpuDataIndices, GpuDataVerts, Layout};
use crate::shaders::datatypes::vertex::{Vertex3, HALF, MINUS_HALF, ONE, QUARTER, ZERO};
use vstd::prelude::*;

verus! {

/// The indices by which the vertices of a rectangle are drawn, as two triangles.
#[derive(Debug, Clone, Copy)]
pub struct RectangleIndices {
    indices: [u32; 6],
}

impl GpuData for RectangleIndices {
    closed spec fn contents(&self) -> Seq<u32> {
        self.indices@
    }

    fn words(&self) -> (words: Vec<u32>) {
        let mut words: Vec<u32> = Vec::new();
        let mut i: usize = 0;
        while i < 6
            invariant
                i <= 6,
                words@ == self.indices@.take(i as int),
            decreases 6 - i,
        {
            words.push(self.indices[i]);
            i += 1;
            assert(words@ =~= self.indices@.take(i as int));
        }
        assert(words@ =~= self.indices@);
        words
    }

    fn size_total(&self) -> (size: usize) {
        assert(self.contents().len() == 6);
        24
    }
}

/// Four vertices with their colours: top right, bottom right, top left, bottom left. The second
/// and third lie on the diagonal that both triangles of the rectangle share.
#[derive(Debug, Clone, Copy)]
pub struct Rectangle {
    vertices: [Vertex3; 4],
}

impl Rectangle {
    /// The vertices, first to last.
    pub closed spec fn vertices(&self) -> Seq<Vertex3> {
        self.vertices@
    }

    /// The words of the rectangle that the program draws: position and colour of each vertex.
    pub open spec fn default_contents() -> Seq<u32> {
        seq![
            HALF, HALF, ZERO, ONE, ZERO, ZERO,
            HALF, MINUS_HALF, ZERO, ZERO, ONE, ZERO,
            MINUS_HALF, HALF, ZERO, ZERO, ZERO, ONE,
            MINUS_HALF, MINUS_HALF, ZERO, QUARTER, QUARTER, QUARTER,
        ]
    }

    /// Where the vertices of a rectangle hold position and colour.
    pub open spec fn default_attributes() -> Seq<Layout> {
        seq![
            Layout { index: 0, size: 4, stride: 24, start: 0 },
            Layout { index: 1, size: 4, stride: 24, start: 12 },
        ]
    }

    /// The rectangle of the vertices `vertices`.
    pub fn new(vertices: [Vertex3; 4]) -> (rectangle: Self)
        ensures
            rectangle.vertices() == vertices@,
    {
        Rectangle { vertices }
    }
}

impl GpuData for Rectangle {
    open spec fn contents(&self) -> Seq<u32> {
        self.vertices()[0].contents() + self.vertices()[1].contents() + self.vertices()[2].contents() + self.vertices()[3].contents()
    }

    fn words(&self) -> (words: Vec<u32>) {
        let mut words = self.vertices[0].words();
        let mut next = self.vertices[1].words();
        words.append(&mut next);
        let mut next = self.vertices[2].words();
        words.append(&mut next);
        let mut next = self.vertices[3].words();
        words.append(&mut next);
        words
    }

    fn size_total(&self) -> (size: usize) {
        proof {
            self.vertices()[0].lemma_sizes();
            self.vertices()[1].lemma_sizes();
            self.vertices()[2].lemma_sizes();
            self.vertices()[3].lemma_sizes();
        }
        96
    }
}

impl GpuDataVerts<2> for Rectangle {
    open spec fn vertex_size(&self) -> nat {
        24
    }

    open spec fn attributes(&self) -> Seq<Layout> {
        Self::default_attributes()
    }

    fn stride(&self) -> (stride: usize) {
        let stride = self.vertices[0].stride();
        assert(self.vertices[0].vertex_size() == 24);
        assert(self.vertex_size() == 24);
        stride
    }

    fn memory_layout(&self) -> (layouts: [Layout; 2]) {
        let layouts = [
            Layout { index: 0, size: 4, stride: self.stride(), start: 0 },
            Layout { index: 1, size: 4, stride: self.stride(), start: Vertex3::size_position() },
        ];
        assert(layouts@ =~= self.attributes());
        layouts
    }
}

impl GpuDataIndices<RectangleIndices, 2> for Rectangle {
    open spec fn index_contents(&self) -> Seq<u32> {
        seq![0, 1, 2, 1, 2, 3]
    }

    fn indices(&self) -> (indices: RectangleIndices) {
        let indices = RectangleIndices { indices: [0, 1, 2, 1, 2, 3] };
        assert(indices.contents() =~= self.index_contents());
        indices
    }
}

impl Default for Rectangle {
    /// The rectangle that the program draws: position and colour of each vertex.
    fn default() -> (rectangle: Self)
        ensures
            rectangle.contents() == Self::default_contents(),
    {
        let vertices = [
            Vertex3::new([HALF, HALF, ZERO], [ONE, ZERO, ZERO]),
            Vertex3::new([HALF, MINUS_HALF, ZERO], [ZERO, ONE, ZERO]),
            Vertex3::new([MINUS_HALF, HALF, ZERO], [ZERO, ZERO, ONE]),
            Vertex3::new([MINUS_HALF, MINUS_HALF, ZERO], [QUARTER, QUARTER, QUARTER]),
        ];
        let rectangle = Rectangle { vertices };
        assert(rectangle.contents() =~= Self::default_contents());
        rectangle
    }
}

} // verus!
