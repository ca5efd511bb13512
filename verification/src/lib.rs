//! A small, verified front end for an OpenGL-style graphics backend.
//!
//! Nothing in this crate talks to a driver. Every operation that would touch
//! the backend instead appends the calls it amounts to, in order, to a list of
//! [`Command`]s that the caller hands in; whoever owns the rendering context
//! replays that list. What the backend reports back (object names, compile and
//! link status, the locations of a program's inputs) enters as plain values.
//! The contracts say exactly which commands each operation issues and when it
//! succeeds.

pub mod attribute;
pub mod buffers;
pub mod command;
pub mod draw_layer;
pub mod shader;
pub mod text;
pub mod texture;

pub use attribute::{Attribute, AttributeDescriptor, AttributeType, Attributes};
pub use buffers::{DrawTarget, DrawUsage, Ebo, Vao, Vbo};
pub use command::Command;
pub use draw_layer::{ClearFlags, DrawLayer, DrawMode, UniformResource};
pub use shader::{
    AsShaderType, CompileReport, Fragment, LinkReport, NamedLocation, Program, ProgramView,
    Shader, ShaderError, ShaderType, Vertex,
};
pub use texture::{ActiveTexture, ActiveTextureView, Texture};
