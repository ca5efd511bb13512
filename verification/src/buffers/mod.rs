//! Buffer objects and the enumerations that say how a buffer is bound and
//! used.

pub mod ebo;
pub mod vao;
pub mod vbo;

pub use ebo::Ebo;
pub use vao::Vao;
pub use vbo::Vbo;

use vstd::prelude::*;

verus! {

/// How the data store of a buffer is going to be accessed.
#[derive(Clone, Copy, Debug, PartialEq, Eq, Structural)]
pub enum DrawUsage {
    StreamDraw,
    StreamRead,
    StreamCopy,
    StaticDraw,
    StaticRead,
    StaticCopy,
    DynamicDraw,
    DynamicRead,
    DynamicCopy,
}

impl DrawUsage {
    /// The number the backend knows this usage hint by.
    pub open spec fn spec_code(self) -> u32 {
        match self {
            DrawUsage::StreamDraw => 0x88E0,
            DrawUsage::StreamRead => 0x88E1,
            DrawUsage::StreamCopy => 0x88E2,
            DrawUsage::StaticDraw => 0x88E4,
            DrawUsage::StaticRead => 0x88E5,
            DrawUsage::StaticCopy => 0x88E6,
            DrawUsage::DynamicDraw => 0x88E8,
            DrawUsage::DynamicRead => 0x88E9,
            DrawUsage::DynamicCopy => 0x88EA,
        }
    }

    /// The number the backend knows this usage hint by.
    #[verifier::when_used_as_spec(spec_code)]
    pub fn code(self) -> (code: u32)
        ensures
            code == self.spec_code(),
    {
        match self {
            DrawUsage::StreamDraw => 0x88E0,
            DrawUsage::StreamRead => 0x88E1,
            DrawUsage::StreamCopy => 0x88E2,
            DrawUsage::StaticDraw => 0x88E4,
            DrawUsage::StaticRead => 0x88E5,
            DrawUsage::StaticCopy => 0x88E6,
            DrawUsage::DynamicDraw => 0x88E8,
            DrawUsage::DynamicRead => 0x88E9,
            DrawUsage::DynamicCopy => 0x88EA,
        }
    }
}

/// The binding point a buffer is attached to.
#[derive(Clone, Copy, Debug, PartialEq, Eq, Structural)]
pub enum DrawTarget {
    ArrayBuffer,
    AtomicCounterBuffer,
    CopyReadBuffer,
    CopyWriteBuffer,
    DispatchIndirectBuffer,
    DrawIndirectBuffer,
    ElementArrayBuffer,
    PixelPackBuffer,
    PixelUnpackBuffer,
    QueryBuffer,
    ShaderStorageBuffer,
    TextureBuffer,
    TransformFeedbackBuffer,
    UniformBuffer,
}

impl DrawTarget {
    /// The number the backend knows this binding point by.
    pub open spec fn spec_code(self) -> u32 {
        match self {
            DrawTarget::ArrayBuffer => 0x8892,
            DrawTarget::AtomicCounterBuffer => 0x92C0,
            DrawTarget::CopyReadBuffer => 0x8F36,
            DrawTarget::CopyWriteBuffer => 0x8F37,
            DrawTarget::DispatchIndirectBuffer => 0x90EE,
            DrawTarget::DrawIndirectBuffer => 0x8F3F,
            DrawTarget::ElementArrayBuffer => 0x8893,
            DrawTarget::PixelPackBuffer => 0x88EB,
            DrawTarget::PixelUnpackBuffer => 0x88EC,
            DrawTarget::QueryBuffer => 0x9192,
            DrawTarget::ShaderStorageBuffer => 0x90D2,
            DrawTarget::TextureBuffer => 0x8C2A,
            DrawTarget::TransformFeedbackBuffer => 0x8C8E,
            DrawTarget::UniformBuffer => 0x8A11,
        }
    }

    /// The number the backend knows this binding point by.
    #[verifier::when_used_as_spec(spec_code)]
    pub fn code(self) -> (code: u32)
        ensures
            code == self.spec_code(),
    {
        match self {
            DrawTarget::ArrayBuffer => 0x8892,
            DrawTarget::AtomicCounterBuffer => 0x92C0,
            DrawTarget::CopyReadBuffer => 0x8F36,
            DrawTarget::CopyWriteBuffer => 0x8F37,
            DrawTarget::DispatchIndirectBuffer => 0x90EE,
            DrawTarget::DrawIndirectBuffer => 0x8F3F,
            DrawTarget::ElementArrayBuffer => 0x8893,
            DrawTarget::PixelPackBuffer => 0x88EB,
            DrawTarget::PixelUnpackBuffer => 0x88EC,
            DrawTarget::QueryBuffer => 0x9192,
            DrawTarget::ShaderStorageBuffer => 0x90D2,
            DrawTarget::TextureBuffer => 0x8C2A,
            DrawTarget::TransformFeedbackBuffer => 0x8C8E,
            DrawTarget::UniformBuffer => 0x8A11,
        }
    }
}

} // verus!
