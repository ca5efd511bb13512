//! The drawing surface: clearing, selecting a program, issuing draw calls,
//! feeding uniforms.

use vstd::prelude::*;
use crate::attribute::AttributeType;
use crate::buffers::vao::Vao;
use crate::command::Command;
use crate::shader::program::{spec_resolve, Program};

verus! {

/// The kind of primitive a draw call assembles its vertices into.
#[derive(Clone, Copy, Debug, PartialEq, Eq, Structural)]
pub enum DrawMode {
    Triangles,
}

impl DrawMode {
    /// The number the backend knows this primitive by.
    pub open spec fn spec_code(self) -> u32 {
        match self {
            DrawMode::Triangles => 0x0004,
        }
    }

    /// The number the backend knows this primitive by.
    #[verifier::when_used_as_spec(spec_code)]
    pub fn code(self) -> (code: u32)
        ensures
            code == self.spec_code(),
    {
        match self {
            DrawMode::Triangles => 0x0004,
        }
    }
}

/// A set of buffers to clear, one bit for each.
#[derive(Clone, Copy, Debug, PartialEq, Eq, Structural)]
pub struct ClearFlags(u32);

impl View for ClearFlags {
    type V = u32;

    /// The bits of the set.
    closed spec fn view(&self) -> u32 {
        self.0
    }
}

impl ClearFlags {
    /// The color buffer.
    pub fn color() -> (flags: Self)
        ensures
            flags@ == 0x4000,
    {
        Self(0x4000)
    }

    /// The depth buffer.
    pub fn depth() -> (flags: Self)
        ensures
            flags@ == 0x0100,
    {
        Self(0x0100)
    }

    /// The stencil buffer.
    pub fn stencil() -> (flags: Self)
        ensures
            flags@ == 0x0400,
    {
        Self(0x0400)
    }

    /// The bits of the set, as the backend takes them.
    pub fn bits(self) -> (bits: u32)
        ensures
            bits == self@,
    {
        self.0
    }
}

impl vstd::std_specs::ops::BitOrSpecImpl for ClearFlags {
    open spec fn obeys_bitor_spec() -> bool {
        true
    }

    open spec fn bitor_req(self, rhs: Self) -> bool {
        true
    }

    closed spec fn bitor_spec(self, rhs: Self) -> Self {
        ClearFlags(self.0 | rhs.0)
    }
}

impl core::ops::BitOr for ClearFlags {
    type Output = Self;

    /// The union of two sets of buffers.
    fn bitor(self, rhs: Self) -> (both: Self)
        ensures
            both@ == self@ | rhs@,
    {
        Self(self.0 | rhs.0)
    }
}

/// A value that can be loaded into a uniform of a shader program.
pub trait UniformResource {
    /// Whether the value is in a state in which it can be loaded.
    spec fn spec_ready(&self) -> bool;

    /// The call that loads the value into the uniform at `location`.
    spec fn spec_uniform(&self, location: i32) -> Command;

    /// Loads the value into the uniform at `location`.
    fn uniform(&self, location: i32, calls: &mut Vec<Command>)
        requires
            self.spec_ready(),
        ensures
            final(calls)@ == old(calls)@.push(self.spec_uniform(location)),
    ;
}

impl UniformResource for u32 {
    open spec fn spec_ready(&self) -> bool {
        true
    }

    open spec fn spec_uniform(&self, location: i32) -> Command {
        Command::Uniform1ui { location, value: *self }
    }

    fn uniform(&self, location: i32, calls: &mut Vec<Command>) {
        calls.push(Command::Uniform1ui { location, value: *self });
    }
}

/// The calls of a draw that reads its vertices straight from the buffers of
/// `array`.
pub open spec fn spec_draw_arrays_calls(array: u32, mode: DrawMode, first: i32, count: i32) -> Seq<
    Command,
> {
    seq![Command::BindVertexArray { array }, Command::DrawArrays { mode, first, count }]
}

/// The calls of a draw that picks its vertices by index.
pub open spec fn spec_draw_elements_calls(
    array: u32,
    mode: DrawMode,
    count: i32,
    index_type: AttributeType,
    indices: usize,
) -> Seq<Command> {
    seq![
        Command::BindVertexArray { array },
        Command::DrawElements { mode, count, index_type, indices },
    ]
}

/// An extent in pixels: the extent in points, twice that where the surface
/// has two pixels to the point.
pub open spec fn spec_extent(points: i32, doubled: bool) -> int {
    if doubled {
        2 * points
    } else {
        points as int
    }
}

/// The drawing surface of the current rendering context.
#[derive(Debug)]
pub struct DrawLayer;

impl DrawLayer {
    /// The drawing surface of a context whose entry points are loaded.
    pub fn new() -> Self {
        Self
    }

    /// Clears the buffers in `flags`.
    pub fn clear(&self, flags: ClearFlags, calls: &mut Vec<Command>)
        ensures
            final(calls)@ == old(calls)@.push(Command::Clear { mask: flags@ }),
    {
        calls.push(Command::Clear { mask: flags.0 });
    }

    /// Makes `program` the current shader program.
    pub fn use_program(&self, program: &Program, calls: &mut Vec<Command>)
        ensures
            final(calls)@ == old(calls)@.push(Command::UseProgram { program: program@.id }),
    {
        program.use_internal(calls);
    }

    /// Draws `count` vertices from the buffers of `vao`, starting at
    /// `first`.
    pub fn draw_arrays(
        &self,
        vao: &Vao,
        mode: DrawMode,
        first: i32,
        count: i32,
        calls: &mut Vec<Command>,
    )
        ensures
            final(calls)@ == old(calls)@ + spec_draw_arrays_calls(vao@, mode, first, count),
    {
        vao.bind(calls);
        calls.push(Command::DrawArrays { mode, first, count });
        assert(calls@ =~= old(calls)@ + spec_draw_arrays_calls(vao@, mode, first, count));
    }

    /// Draws `count` vertices from the buffers of `vao`, picked by the
    /// indices of type `type_` that start `indicies` bytes into the bound
    /// element buffer.
    pub fn draw_elements(
        &self,
        vao: &Vao,
        mode: DrawMode,
        count: i32,
        type_: AttributeType,
        indicies: usize,
        calls: &mut Vec<Command>,
    )
        ensures
            final(calls)@ == old(calls)@ + spec_draw_elements_calls(
                vao@,
                mode,
                count,
                type_,
                indicies,
            ),
    {
        vao.bind(calls);
        calls.push(Command::DrawElements { mode, count, index_type: type_, indices: indicies });
        assert(calls@ =~= old(calls)@ + spec_draw_elements_calls(
            vao@,
            mode,
            count,
            type_,
            indicies,
        ));
    }

    /// Sets the drawing rectangle to a surface of `width` by `height`
    /// points, anchored at the origin. Where the surface has two pixels to
    /// the point in each direction, `doubled` says so and both extents are
    /// doubled.
    pub fn resize_to(&self, width: i32, height: i32, doubled: bool, calls: &mut Vec<Command>)
        requires
            doubled ==> i32::MIN <= 2 * width <= i32::MAX,
            doubled ==> i32::MIN <= 2 * height <= i32::MAX,
        ensures
            final(calls)@ == old(calls)@.push(
                Command::Viewport {
                    x: 0,
                    y: 0,
                    width: spec_extent(width, doubled) as i32,
                    height: spec_extent(height, doubled) as i32,
                },
            ),
    {
        if doubled {
            calls.push(Command::Viewport { x: 0, y: 0, width: width * 2, height: height * 2 });
        } else {
            calls.push(Command::Viewport { x: 0, y: 0, width, height });
        }
    }

    /// Switches on depth testing, with nearer fragments winning.
    pub fn enable_depth_testing(&self, calls: &mut Vec<Command>)
        ensures
            final(calls)@ == old(calls)@.push(Command::EnableDepthTest).push(
                Command::DepthFuncLess,
            ),
    {
        calls.push(Command::EnableDepthTest);
        calls.push(Command::DepthFuncLess);
    }

    /// Loads `uniform` into the uniform of `program` called `location`.
    /// Yields `None`, and asks nothing of the backend, when the program has
    /// no uniform of that name.
    pub fn put_uniform<R>(
        &self,
        program: &Program,
        location: &str,
        uniform: &R,
        calls: &mut Vec<Command>,
    ) -> (put: Option<()>) where R: UniformResource
        requires
            uniform.spec_ready(),
        ensures
            match spec_resolve(program@.uniforms, location@) {
                Some(id) => put is Some && final(calls)@ == old(calls)@.push(
                    uniform.spec_uniform(id as i32),
                ),
                None => put is None && final(calls)@ == old(calls)@,
            },
    {
        let id: i32 = program.get_uniform(location)?;
        uniform.uniform(id, calls);
        Some(())
    }
}

} // verus!
