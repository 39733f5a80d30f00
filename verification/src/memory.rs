//! Data for the graphics processor, and the objects that hold it there.

pub mod classicbuf;
pub mod classicvao;
pub mod gpudata;
pub mod layout;
pub mod stateful;

pub use classicbuf::{unnamed_buffer, ClassicBuffer, PendingClassicBuffer};
pub use classicvao::{classic_setup, ClassicVao, ClassicVaoView, PendingClassicVao};
pub use gpudata::{GpuData, GpuDataIndices, GpuDataVerts};
pub use layout::Layout;
