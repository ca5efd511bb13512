//! Shader objects, shader programs and what can go wrong in building them.

pub mod error;
pub mod program;
pub mod shader;

pub use error::ShaderError;
pub use program::{LinkReport, NamedLocation, Program, ProgramView};
pub use shader::{AsShaderType, CompileReport, Fragment, Shader, ShaderType, Vertex};
