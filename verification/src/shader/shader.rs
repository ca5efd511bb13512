//! Shader objects of the two stages.

use core::marker::PhantomData;
use vstd::prelude::*;
use vstd::string::StringSliceAdditionalSpecFns;
use vstd::utf8::encode_utf8;
use crate::shader::error::ShaderError;
use crate::text::{first_nul, spec_has_nul, spec_is_first_nul};

verus! {

/// The pipeline stage a shader runs in.
#[derive(Clone, Copy, Debug, PartialEq, Eq, Structural)]
pub enum ShaderType {
    Fragment,
    Vertex,
}

impl ShaderType {
    /// The number the backend knows this stage by.
    pub open spec fn spec_code(self) -> u32 {
        match self {
            ShaderType::Fragment => 0x8B30,
            ShaderType::Vertex => 0x8B31,
        }
    }

    /// The number the backend knows this stage by.
    #[verifier::when_used_as_spec(spec_code)]
    pub fn code(self) -> (code: u32)
        ensures
            code == self.spec_code(),
    {
        match self {
            ShaderType::Fragment => 0x8B30,
            ShaderType::Vertex => 0x8B31,
        }
    }
}

/// A marker type that stands for one pipeline stage.
pub trait AsShaderType {
    /// The stage this marker stands for.
    spec fn spec_shader_type() -> ShaderType;

    /// The stage this marker stands for.
    fn as_shader_type() -> (stage: ShaderType)
        ensures
            stage == Self::spec_shader_type(),
    ;
}

/// Marker of the fragment stage.
pub struct Fragment;

impl AsShaderType for Fragment {
    open spec fn spec_shader_type() -> ShaderType {
        ShaderType::Fragment
    }

    fn as_shader_type() -> ShaderType {
        ShaderType::Fragment
    }
}

/// Marker of the vertex stage.
pub struct Vertex;

impl AsShaderType for Vertex {
    open spec fn spec_shader_type() -> ShaderType {
        ShaderType::Vertex
    }

    fn as_shader_type() -> ShaderType {
        ShaderType::Vertex
    }
}

/// What the backend reports after it was asked to compile a shader.
pub struct CompileReport {
    /// The name of the shader object.
    pub shader: u32,
    /// Whether compilation succeeded.
    pub compiled: bool,
    /// The backend's diagnostic log.
    pub log: String,
}

/// A compiled shader of stage `S`.
pub struct Shader<S: AsShaderType> {
    pub(crate) handle: u32,
    data: PhantomData<S>,
}

impl<S: AsShaderType> View for Shader<S> {
    type V = u32;

    /// The name of the shader object.
    closed spec fn view(&self) -> u32 {
        self.handle
    }
}

impl<S: AsShaderType> Shader<S> {
    /// The bytes to hand to the backend as the source of a shader: the UTF-8
    /// encoding of `source` followed by a zero byte. A source that itself
    /// holds a zero byte is refused, with the position of the first one.
    pub fn source_bytes(source: &str) -> (bytes: Result<Vec<u8>, ShaderError>)
        ensures
            match bytes {
                Ok(bytes) => {
                    &&& !spec_has_nul(source@)
                    &&& bytes@ == encode_utf8(source@).push(0u8)
                },
                Err(error) => {
                    &&& spec_has_nul(source@)
                    &&& error matches ShaderError::CStringConversion(position)
                    &&& spec_is_first_nul(encode_utf8(source@), position as int)
                },
            },
    {
        match first_nul(source) {
            Some(position) => Err(ShaderError::CStringConversion(position)),
            None => {
                let mut bytes = source.as_bytes_vec();
                bytes.push(0u8);
                Ok(bytes)
            },
        }
    }

    /// Decides what came of a compilation: the shader, or the backend's log
    /// as a compilation error.
    pub fn compile(report: CompileReport) -> (shader: Result<Self, ShaderError>)
        ensures
            report.compiled ==> shader is Ok && shader->Ok_0@ == report.shader,
            !report.compiled ==> shader == Err::<Self, ShaderError>(
                ShaderError::CompilationError(report.log),
            ),
    {
        if !report.compiled {
            return Err(ShaderError::CompilationError(report.log));
        }
        Ok(Self { handle: report.shader, data: PhantomData })
    }

    /// The name of the shader object.
    pub fn handle(&self) -> (name: u32)
        ensures
            name == self@,
    {
        self.handle
    }
}

} // verus!
