//! The shapes of the program, each in buffers of the graphics processor, and the program that
//! draws them.

pub mod rectangle;
pub mod shape;
pub mod triangle;

pub use rectangle::{PendingRectangle, Rectangle, RectangleView};
pub use shape::{Indexed, IndexedView, PendingShape, PendingShapeView};
pub use triangle::{
    PendingTriangleBuf, PendingTriangleShader, TriangleBuf, TriangleBufView, TriangleShader,
    TriangleShaderView,
};
