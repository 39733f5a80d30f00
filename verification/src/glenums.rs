//! Enumerants of the graphics interface wrapped into types of their own.
//!
//! Each type holds a set of flags as the bitwise or of their values. A set never holds a bit
//! that is in none of the type's flags.

pub mod buffers;
pub mod clearkind;
pub mod contextflags;
pub mod contextprofile;
pub mod debug;
pub mod drawmode;
pub mod enable;
pub mod flags;
pub mod geterror;
pub mod getstring;
pub mod objects;

pub use buffers::{BufferTarget, BufferUsage};
pub use clearkind::ClearKind;
pub use contextflags::ContextFlags;
pub use contextprofile::ContextProfile;
pub use debug::{DebugSeverity, DebugSource, DebugType};
pub use drawmode::DrawMode;
pub use enable::Enable;
pub use geterror::GetError;
pub use getstring::GetString;
pub use objects::ObjectName;
