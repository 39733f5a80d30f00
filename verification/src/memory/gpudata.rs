use crate::memory::layout::Layout;
use vstd::prelude::*;

verus! {

/// Data that can be copied into a buffer of the graphics processor: a row of words of 32 bits,
/// each an index or the bit pattern of a single precision number.
pub trait GpuData {
    /// The words of the data, first to last.
    spec fn contents(&self) -> Seq<u32>;

    /// A copy of the words of the data.
    #[must_use]
    fn words(&self) -> (words: Vec<u32>)
        ensures
            words@ == self.contents(),
    ;

    /// The size of the data in bytes.
    fn size_total(&self) -> (size: usize)
        ensures
            size == 4 * self.contents().len(),
    ;
}

/// Data that holds vertices, each with `LN` attributes.
pub trait GpuDataVerts<const LN: usize>: GpuData {
    /// The size of one vertex in bytes.
    spec fn vertex_size(&self) -> nat;

    /// Where the data holds each attribute.
    spec fn attributes(&self) -> Seq<Layout>;

    /// The distance in bytes from one vertex to the next.
    fn stride(&self) -> (stride: usize)
        ensures
            stride == self.vertex_size(),
    ;

    /// The layout of each attribute.
    fn memory_layout(&self) -> (layouts: [Layout; LN])
        ensures
            layouts@ == self.attributes(),
    ;
}

/// Vertices that come with the indices by which they are drawn.
pub trait GpuDataIndices<D, const LN: usize>: GpuDataVerts<LN> where D: GpuData {
    /// The indices, in the order of drawing.
    spec fn index_contents(&self) -> Seq<u32>;

    /// The indices as data of their own.
    fn indices(&self) -> (indices: D)
        ensures
            indices.contents() == self.index_contents(),
    ;
}

} // verus!
