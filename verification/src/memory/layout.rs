use vstd::prelude::*;

verus! {

/// Where a buffer of vertices holds one attribute.
#[derive(Debug, Clone, Copy, PartialEq, Eq, Structural)]
pub struct Layout {
    /// Location of the attribute in the shader.
    pub index: usize,
    /// Number of components of the attribute: three for a position in space.
    pub size: usize,
    /// Distance in bytes from the attribute of one vertex to that of the next: the size of all
    /// the attributes of a vertex.
    pub stride: usize,
    /// Offset in bytes of the attribute in the first vertex.
    pub start: usize,
}

} // verus!
