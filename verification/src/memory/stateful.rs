//! Buffers and vertex arrays that are set up through the bindings of the context: what they
//! bind stays bound until it is unbound.

pub mod buffer;
pub mod vao;

pub use buffer::ClassicBuffer as Buffer;
pub use buffer::{BufferView, PendingBuffer, PendingBufferView};
pub use vao::{PendingVertexArray, PendingVertexArrayView, VertexArray, VertexArrayView};
