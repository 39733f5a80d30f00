//! The graphics context as the library sees it, and what is known of it.

pub mod bindings;
pub mod clear;
pub mod gl;
pub mod info;
pub mod rect;
pub mod request;

pub use bindings::{whitespace, DebugMessage, Gl};
pub use clear::{Clear, Color};
pub use rect::{Rect, Size};
pub use request::{
    asks, FileError, FileErrorView, Level, Reply, Request, RequestView, Step,
};
