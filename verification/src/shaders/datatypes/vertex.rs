use crate::memory::{GpuData, GpuDataVerts, Layout};
use vstd::prelude::*;

verus! {

/// The bit pattern of the single precision number 0.
pub const ZERO: u32 = 0;

/// The bit pattern of the single precision number 0.25.
pub const QUARTER: u32 = 0x3E80_0000;

/// The bit pattern of the single precision number 0.5.
pub const HALF: u32 = 0x3F00_0000;

/// The bit pattern of the single precision number -0.5.
pub const MINUS_HALF: u32 = 0xBF00_0000;

/// The bit pattern of the single precision number 1.
pub const ONE: u32 = 0x3F80_0000;

/// A vertex with a colour: a position of `P` components and a colour of `C` components, each
/// the bit pattern of a single precision number.
#[derive(Clone, Copy, Debug)]
pub struct Vertex<const P: usize, const C: usize> {
    position: [u32; P],
    color: [u32; C],
}

/// A vertex in space with a colour of red, green and blue.
pub type Vertex3 = Vertex<3, 3>;

impl<const P: usize, const C: usize> Vertex<P, C> {
    #[verifier::type_invariant]
    spec fn fits(self) -> bool {
        4 * (P + C) <= usize::MAX
    }

    /// The components of the position.
    pub closed spec fn position(&self) -> Seq<u32> {
        self.position@
    }

    /// The components of the colour.
    pub closed spec fn color(&self) -> Seq<u32> {
        self.color@
    }

    /// A position has `P` components and a colour `C`.
    pub proof fn lemma_sizes(self)
        ensures
            self.position().len() == P,
            self.color().len() == C,
    {
    }

    /// A vertex at `position` with the colour `color`.
    pub fn new(position: [u32; P], color: [u32; C]) -> (vertex: Self)
        requires
            4 * (P + C) <= usize::MAX,
        ensures
            vertex.position() == position@,
            vertex.color() == color@,
    {
        Vertex { position, color }
    }

    /// The size of the position in bytes.
    #[inline]
    pub fn size_position() -> (size: usize)
        requires
            4 * P <= usize::MAX,
        ensures
            size == 4 * P,
    {
        4 * P
    }

    /// The size of the colour in bytes.
    #[inline]
    pub fn size_color() -> (size: usize)
        requires
            4 * C <= usize::MAX,
        ensures
            size == 4 * C,
    {
        4 * C
    }
}

impl<const P: usize, const C: usize> GpuData for Vertex<P, C> {
    open spec fn contents(&self) -> Seq<u32> {
        self.position() + self.color()
    }

    fn words(&self) -> (words: Vec<u32>) {
        let mut words: Vec<u32> = Vec::new();
        let mut i: usize = 0;
        while i < P
            invariant
                i <= P,
                words@ == self.position@.take(i as int),
            decreases P - i,
        {
            words.push(self.position[i]);
            i += 1;
            assert(words@ =~= self.position@.take(i as int));
        }
        let mut j: usize = 0;
        while j < C
            invariant
                j <= C,
                words@ == self.position@ + self.color@.take(j as int),
            decreases C - j,
        {
            words.push(self.color[j]);
            j += 1;
            assert(words@ =~= self.position@ + self.color@.take(j as int));
        }
        assert(words@ =~= self.position@ + self.color@);
        words
    }

    fn size_total(&self) -> (size: usize) {
        let size = self.stride();
        assert(self.contents().len() == P + C);
        assert(self.vertex_size() == 4 * (P + C));
        size
    }
}

impl<const P: usize, const C: usize> GpuDataVerts<2> for Vertex<P, C> {
    open spec fn vertex_size(&self) -> nat {
        (4 * (P + C)) as nat
    }

    open spec fn attributes(&self) -> Seq<Layout> {
        seq![
            Layout { index: 0, size: 3, stride: (4 * (P + C)) as usize, start: 0 },
            Layout { index: 1, size: 3, stride: (4 * (P + C)) as usize, start: (4 * P) as usize },
        ]
    }

    #[inline]
    fn stride(&self) -> (stride: usize) {
        proof {
            use_type_invariant(self);
        }
        let stride = 4 * (P + C);
        assert(self.vertex_size() == stride);
        stride
    }

    fn memory_layout(&self) -> (layouts: [Layout; 2]) {
        proof {
            use_type_invariant(self);
        }
        let layouts = [
            Layout { index: 0, size: 3, stride: self.stride(), start: 0 },
            Layout { index: 1, size: 3, stride: self.stride(), start: Self::size_position() },
        ];
        assert(layouts@ =~= self.attributes());
        layouts
    }
}

} // verus!
