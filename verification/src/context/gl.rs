//! Enumerants of the graphics interface, with the values its registry assigns them.

use vstd::prelude::*;

verus! {

// Wildcard and severities of debug messages.
pub const DONT_CARE: u32 = 0x1100;

pub const DEBUG_SEVERITY_HIGH: u32 = 0x9146;

pub const DEBUG_SEVERITY_MEDIUM: u32 = 0x9147;

pub const DEBUG_SEVERITY_LOW: u32 = 0x9148;

pub const DEBUG_SEVERITY_NOTIFICATION: u32 = 0x826B;

// Sources of debug messages.
pub const DEBUG_SOURCE_API: u32 = 0x8246;

pub const DEBUG_SOURCE_WINDOW_SYSTEM: u32 = 0x8247;

pub const DEBUG_SOURCE_SHADER_COMPILER: u32 = 0x8248;

pub const DEBUG_SOURCE_THIRD_PARTY: u32 = 0x8249;

pub const DEBUG_SOURCE_APPLICATION: u32 = 0x824A;

pub const DEBUG_SOURCE_OTHER: u32 = 0x824B;

// Types of debug messages.
pub const DEBUG_TYPE_ERROR: u32 = 0x824C;

pub const DEBUG_TYPE_DEPRECATED_BEHAVIOR: u32 = 0x824D;

pub const DEBUG_TYPE_UNDEFINED_BEHAVIOR: u32 = 0x824E;

pub const DEBUG_TYPE_PORTABILITY: u32 = 0x824F;

pub const DEBUG_TYPE_PERFORMANCE: u32 = 0x8250;

pub const DEBUG_TYPE_OTHER: u32 = 0x8251;

pub const DEBUG_TYPE_MARKER: u32 = 0x8268;

pub const DEBUG_TYPE_PUSH_GROUP: u32 = 0x8269;

pub const DEBUG_TYPE_POP_GROUP: u32 = 0x826A;

// Buffer binding targets.
pub const ARRAY_BUFFER: u32 = 0x8892;

pub const ATOMIC_COUNTER_BUFFER: u32 = 0x92C0;

pub const COPY_READ_BUFFER: u32 = 0x8F36;

pub const COPY_WRITE_BUFFER: u32 = 0x8F37;

pub const DISPATCH_INDIRECT_BUFFER: u32 = 0x90EE;

pub const DRAW_INDIRECT_BUFFER: u32 = 0x8F3F;

pub const ELEMENT_ARRAY_BUFFER: u32 = 0x8893;

pub const PIXEL_PACK_BUFFER: u32 = 0x88EB;

pub const PIXEL_UNPACK_BUFFER: u32 = 0x88EC;

pub const QUERY_BUFFER: u32 = 0x9192;

pub const SHADER_STORAGE_BUFFER: u32 = 0x90D2;

pub const TEXTURE_BUFFER: u32 = 0x8C2A;

pub const TRANSFORM_FEEDBACK_BUFFER: u32 = 0x8C8E;

pub const UNIFORM_BUFFER: u32 = 0x8A11;

// Buffer usage hints.
pub const STREAM_DRAW: u32 = 0x88E0;

pub const STREAM_READ: u32 = 0x88E1;

pub const STREAM_COPY: u32 = 0x88E2;

pub const STATIC_DRAW: u32 = 0x88E4;

pub const STATIC_READ: u32 = 0x88E5;

pub const STATIC_COPY: u32 = 0x88E6;

pub const DYNAMIC_DRAW: u32 = 0x88E8;

pub const DYNAMIC_READ: u32 = 0x88E9;

pub const DYNAMIC_COPY: u32 = 0x88EA;

// Buffers that a clear can reach.
pub const COLOR_BUFFER_BIT: u32 = 0x4000;

pub const DEPTH_BUFFER_BIT: u32 = 0x0100;

pub const STENCIL_BUFFER_BIT: u32 = 0x0400;

// Bits of the context flags.
pub const CONTEXT_FLAG_FORWARD_COMPATIBLE_BIT: u32 = 0x0001;

pub const CONTEXT_FLAG_DEBUG_BIT: u32 = 0x0002;

pub const CONTEXT_FLAG_ROBUST_ACCESS_BIT: u32 = 0x0004;

pub const CONTEXT_FLAG_NO_ERROR_BIT: u32 = 0x0008;

// Bits of the context profile mask.
pub const CONTEXT_CORE_PROFILE_BIT: u32 = 0x0001;

pub const CONTEXT_COMPATIBILITY_PROFILE_BIT: u32 = 0x0002;

// Primitive modes of a draw call.
pub const POINTS: u32 = 0x0000;

pub const LINES: u32 = 0x0001;

pub const LINE_LOOP: u32 = 0x0002;

pub const LINE_STRIP: u32 = 0x0003;

pub const TRIANGLES: u32 = 0x0004;

pub const TRIANGLE_STRIP: u32 = 0x0005;

pub const TRIANGLE_FAN: u32 = 0x0006;

pub const LINE_STRIP_ADJACENCY: u32 = 0x000B;

pub const TRIANGLES_ADJACENCY: u32 = 0x000C;

pub const TRIANGLE_STRIP_ADJACENCY: u32 = 0x000D;

pub const PATCHES: u32 = 0x000E;

// Error codes.
pub const NO_ERROR: u32 = 0x0000;

pub const INVALID_ENUM: u32 = 0x0500;

pub const INVALID_VALUE: u32 = 0x0501;

pub const INVALID_OPERATION: u32 = 0x0502;

pub const STACK_OVERFLOW: u32 = 0x0503;

pub const STACK_UNDERFLOW: u32 = 0x0504;

pub const OUT_OF_MEMORY: u32 = 0x0505;

pub const INVALID_FRAMEBUFFER_OPERATION: u32 = 0x0506;

// Names of the context strings.
pub const VENDOR: u32 = 0x1F00;

pub const RENDERER: u32 = 0x1F01;

pub const VERSION: u32 = 0x1F02;

pub const EXTENSIONS: u32 = 0x1F03;

pub const SHADING_LANGUAGE_VERSION: u32 = 0x8B8C;

// Object kinds that can carry a label.
pub const BUFFER: u32 = 0x82E0;

pub const SHADER: u32 = 0x82E1;

pub const PROGRAM: u32 = 0x82E2;

pub const QUERY: u32 = 0x82E3;

pub const PROGRAM_PIPELINE: u32 = 0x82E4;

pub const SAMPLER: u32 = 0x82E6;

pub const VERTEX_ARRAY: u32 = 0x8074;

pub const TRANSFORM_FEEDBACK: u32 = 0x8E22;

pub const TEXTURE: u32 = 0x1702;

pub const RENDERBUFFER: u32 = 0x8D41;

pub const FRAMEBUFFER: u32 = 0x8D40;

// Shader kinds.
pub const FRAGMENT_SHADER: u32 = 0x8B30;

pub const VERTEX_SHADER: u32 = 0x8B31;

pub const GEOMETRY_SHADER: u32 = 0x8DD9;

pub const SHADER_BINARY_FORMAT_SPIR_V: u32 = 0x9551;

// Names of the context integers.
pub const MAJOR_VERSION: u32 = 0x821B;

pub const MINOR_VERSION: u32 = 0x821C;

pub const NUM_EXTENSIONS: u32 = 0x821D;

pub const CONTEXT_FLAGS: u32 = 0x821E;

pub const CONTEXT_PROFILE_MASK: u32 = 0x9126;

pub const MAX_VIEWPORT_DIMS: u32 = 0x0D3A;

// Capabilities of the debug output.
pub const DEBUG_OUTPUT: u32 = 0x92E0;

pub const DEBUG_OUTPUT_SYNCHRONOUS: u32 = 0x8242;

// Names of the shader and program parameters.
pub const COMPILE_STATUS: u32 = 0x8B81;

pub const LINK_STATUS: u32 = 0x8B82;

pub const INFO_LOG_LENGTH: u32 = 0x8B84;

// Component types.
pub const UNSIGNED_INT: u32 = 0x1405;

pub const FLOAT: u32 = 0x1406;

/// Boolean true as a status reports it.
pub const TRUE: i32 = 1;

/// Boolean false as a status reports it.
pub const FALSE: i32 = 0;

} // verus!
