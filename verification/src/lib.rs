//! The logic of a small program that draws a triangle and a rectangle: the wrappers of the
//! objects of the graphics interface, the order of the calls that set them up, and what the
//! program does on the events of its window.
//!
//! The library makes no call itself. It records requests in a [`context::Gl`] and a driver
//! performs them; see [`context::request`].

pub mod cleanup;
pub mod context;
pub mod gl_support;
pub mod glenums;
pub mod glerror;
pub mod gltest;
pub mod label;
pub mod memory;
pub mod resources;
pub mod shaders;
pub mod text;

pub use gltest::GlTest;
