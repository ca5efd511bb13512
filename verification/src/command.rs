//! The calls this library asks a graphics backend to make.

use vstd::prelude::*;
use crate::attribute::AttributeType;
use crate::buffers::{DrawTarget, DrawUsage};
use crate::draw_layer::DrawMode;

verus! {

/// One call to the graphics backend, with the arguments it is made with.
///
/// Object names, locations, sizes and counts are carried as the backend takes
/// them; enumerated arguments keep their type and are turned into the
/// backend's numbers by their `code` methods when the call is made.
#[allow(inconsistent_fields)]
#[derive(Clone, Copy, Debug, PartialEq, Eq, Structural)]
pub enum Command {
    /// Make `array` the current vertex array.
    BindVertexArray { array: u32 },
    /// Attach `buffer` to the binding point `target`.
    BindBuffer { target: DrawTarget, buffer: u32 },
    /// Fill the buffer bound to `target` with `size` bytes of the caller's
    /// data.
    BufferData { target: DrawTarget, size: usize, usage: DrawUsage },
    /// Switch on the vertex input slot `index`.
    EnableVertexAttribArray { index: u32 },
    /// Describe where in each vertex record the input slot `index` finds its
    /// data: `size` components of type `mem_type`, `offset` bytes into a
    /// record of `stride` bytes.
    VertexAttribPointer {
        index: u32,
        size: i32,
        mem_type: AttributeType,
        normalized: bool,
        stride: i32,
        offset: usize,
    },
    /// Select the texture unit numbered `unit`, counted from the first one.
    ActiveTexture { unit: u32 },
    /// Bind `texture` as the two-dimensional texture of the selected unit.
    BindTexture2D { texture: u32 },
    /// Upload the caller's pixels, four bytes each in red, green, blue, alpha
    /// order, as the base image of the bound two-dimensional texture.
    TexImage2D { width: i32, height: i32 },
    /// Build the smaller images of the bound two-dimensional texture.
    GenerateMipmap2D,
    /// Set the signed integer uniform at `location`.
    Uniform1i { location: i32, value: i32 },
    /// Set the unsigned integer uniform at `location`.
    Uniform1ui { location: i32, value: u32 },
    /// Clear the buffers selected by the bits of `mask`.
    Clear { mask: u32 },
    /// Make `program` the current shader program.
    UseProgram { program: u32 },
    /// Draw `count` vertices of the current vertex array, starting at `first`.
    DrawArrays { mode: DrawMode, first: i32, count: i32 },
    /// Draw `count` indexed vertices; the indices have type `index_type` and
    /// start `indices` bytes into the bound element buffer.
    DrawElements { mode: DrawMode, count: i32, index_type: AttributeType, indices: usize },
    /// Set the drawing rectangle.
    Viewport { x: i32, y: i32, width: i32, height: i32 },
    /// Switch on depth testing.
    EnableDepthTest,
    /// Let a fragment pass the depth test when it is nearer than what is
    /// stored.
    DepthFuncLess,
}

} // verus!
