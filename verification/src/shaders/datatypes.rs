//! Simple shapes to try shaders on.

pub mod rectangle;
pub mod triangle;
pub mod vertex;

pub use rectangle::{Rectangle, RectangleIndices};
pub use triangle::{Triangle, TriangleIndices};
pub use vertex::{Vertex, Vertex3};
