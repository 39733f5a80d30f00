use crate::memory::{GpuData, GpuDataIndices, GpuDataVerts, Layout};
use crate::shaders::datatypes::vertex::{Vertex3, HALF, MINUS_HALF, ONE, ZERO};
use vstd::prelude::*;

verus! {

/// The indices by which the vertices of a triangle are drawn.
#[derive(Debug, Clone, Copy)]
pub struct TriangleIndices {
    indices: [u32; 3],
}

impl GpuData for TriangleIndices {
    closed spec fn contents(&self) -> Seq<u32> {
        self.indices@
    }

    fn words(&self) -> (words: Vec<u32>) {
        let mut words: Vec<u32> = Vec::new();
        let mut i: usize = 0;
        while i < 3
            invariant
                i <= 3,
                words@ == self.indices@.take(i as int),
            decreases 3 - i,
        {
            words.push(self.indices[i]);
            i += 1;
            assert(words@ =~= self.indices@.take(i as int));
        }
        assert(words@ =~= self.indices@);
        words
    }

    fn size_total(&self) -> (size: usize) {
        assert(self.contents().len() == 3);
        12
    }
}

/// Three vertices with their colours.
#[derive(Debug, Clone, Copy)]
pub struct Triangle {
    vertices: [Vertex3; 3],
}

impl Triangle {
    /// The vertices, first to last.
    pub closed spec fn vertices(&self) -> Seq<Vertex3> {
        self.vertices@
    }

    /// The words of the triangle that the program draws: position and colour of each vertex.
    pub open spec fn default_contents() -> Seq<u32> {
        seq![
            MINUS_HALF, MINUS_HALF, ZERO, ONE, ZERO, ZERO,
            HALF, MINUS_HALF, ZERO, ZERO, ONE, ZERO,
            ZERO, HALF, ZERO, ZERO, ZERO, ONE,
        ]
    }

    /// Where the vertices of a triangle hold position and colour.
    pub open spec fn default_attributes() -> Seq<Layout> {
        seq![
            Layout { index: 0, size: 3, stride: 24, start: 0 },
            Layout { index: 1, size: 3, stride: 24, start: 12 },
        ]
    }

    /// The triangle of the vertices `vertices`.
    pub fn new(vertices: [Vertex3; 3]) -> (triangle: Self)
        ensures
            triangle.vertices() == vertices@,
    {
        Triangle { vertices }
    }
}

impl GpuData for Triangle {
    open spec fn contents(&self) -> Seq<u32> {
        self.vertices()[0].contents() + self.vertices()[1].contents() + self.vertices()[2].contents()
    }

    fn words(&self) -> (words: Vec<u32>) {
        let mut words = self.vertices[0].words();
        let mut next = self.vertices[1].words();
        words.append(&mut next);
        let mut next = self.vertices[2].words();
        words.append(&mut next);
        words
    }

    fn size_total(&self) -> (size: usize) {
        proof {
            self.vertices()[0].lemma_sizes();
            self.vertices()[1].lemma_sizes();
            self.vertices()[2].lemma_sizes();
        }
        72
    }
}

impl GpuDataVerts<2> for Triangle {
    open spec fn vertex_size(&self) -> nat {
        24
    }

    open spec fn attributes(&self) -> Seq<Layout> {
        Self::default_attributes()
    }

    fn stride(&self) -> (stride: usize) {
        let stride = self.vertices[0].stride();
        assert(self.vertices[0].vertex_size() == 24);
        assert(self.vertex_size() == 24);
        stride
    }

    fn memory_layout(&self) -> (layouts: [Layout; 2]) {
        let layouts = [
            Layout { index: 0, size: 3, stride: self.stride(), start: 0 },
            Layout { index: 1, size: 3, stride: self.stride(), start: Vertex3::size_position() },
        ];
        assert(layouts@ =~= self.attributes());
        layouts
    }
}

impl GpuDataIndices<TriangleIndices, 2> for Triangle {
    open spec fn index_contents(&self) -> Seq<u32> {
        seq![0, 1, 2]
    }

    fn indices(&self) -> (indices: TriangleIndices) {
        let indices = TriangleIndices { indices: [0, 1, 2] };
        assert(indices.contents() =~= self.index_contents());
        indices
    }
}

impl Default for Triangle {
    /// The triangle that the program draws: position and colour of each vertex.
    fn default() -> (triangle: Self)
        ensures
            triangle.contents() == Self::default_contents(),
    {
        let vertices = [
            Vertex3::new([MINUS_HALF, MINUS_HALF, ZERO], [ONE, ZERO, ZERO]),
            Vertex3::new([HALF, MINUS_HALF, ZERO], [ZERO, ONE, ZERO]),
            Vertex3::new([ZERO, HALF, ZERO], [ZERO, ZERO, ONE]),
        ];
        let triangle = Triangle { vertices };
        assert(triangle.contents() =~= Self::default_contents());
        triangle
    }
}

} // verus!
