//! Shaders, programs, and the data that they draw.

pub mod datatypes;
pub mod shader;
pub mod shaderprogram;

pub use shader::{
    PendingShader, PendingShaderView, Shader, ShaderDescriptor, ShaderDescriptorView, ShaderFrom,
    ShaderFromView, ShaderKind, ShaderView,
};
pub use shaderprogram::{
    PendingProgram, PendingProgramView, PendingRaw, PendingRawView, ShaderProgram,
    ShaderProgramView,
};
