//! Vertex buffer objects.

use vstd::layout::size_of;
use vstd::prelude::*;
use crate::buffers::vao::Vao;
use crate::buffers::{DrawTarget, DrawUsage};
use crate::command::Command;

verus! {

broadcast use vstd::layout::layout_of_slices;

/// The two calls that fill a buffer: attach it to `draw_target`, then load
/// `size` bytes with the hint `draw_type`. The load always goes to the
/// array-buffer binding point.
pub open spec fn spec_upload_calls(
    buffer: u32,
    size: usize,
    draw_target: DrawTarget,
    draw_type: DrawUsage,
) -> Seq<Command> {
    seq![
        Command::BindBuffer { target: draw_target, buffer },
        Command::BufferData { target: DrawTarget::ArrayBuffer, size, usage: draw_type },
    ]
}

/// Attaches `buffer` to `draw_target` and loads `data` into the array-buffer
/// binding point.
pub(crate) fn upload<T>(
    buffer: u32,
    data: &[T],
    draw_target: DrawTarget,
    draw_type: DrawUsage,
    calls: &mut Vec<Command>,
)
    ensures
        final(calls)@ == old(calls)@ + spec_upload_calls(
            buffer,
            (data@.len() * size_of::<T>()) as usize,
            draw_target,
            draw_type,
        ),
{
    let size: usize = core::mem::size_of_val(data);
    calls.push(Command::BindBuffer { target: draw_target, buffer });
    calls.push(Command::BufferData { target: DrawTarget::ArrayBuffer, size, usage: draw_type });
    assert(calls@ =~= old(calls)@ + spec_upload_calls(buffer, size, draw_target, draw_type));
}

/// A buffer object that holds vertex data.
#[derive(Debug)]
pub struct Vbo(u32);

impl View for Vbo {
    type V = u32;

    /// The name of the buffer object.
    closed spec fn view(&self) -> u32 {
        self.0
    }
}

impl Vbo {
    /// The buffer that the backend generated under the name `id`, made with
    /// `vao` as the current vertex array.
    pub fn new(vao: &Vao, id: u32, calls: &mut Vec<Command>) -> (vbo: Self)
        ensures
            vbo@ == id,
            final(calls)@ == old(calls)@.push(Command::BindVertexArray { array: vao@ }),
    {
        vao.bind(calls);
        Self(id)
    }

    /// Loads `data` as vertex data that is written once and drawn many
    /// times.
    pub fn bind_data<T>(&self, data: &[T], calls: &mut Vec<Command>)
        ensures
            final(calls)@ == old(calls)@ + spec_upload_calls(
                self@,
                (data@.len() * size_of::<T>()) as usize,
                DrawTarget::ArrayBuffer,
                DrawUsage::StaticDraw,
            ),
    {
        self.bind_data_ex(data, DrawTarget::ArrayBuffer, DrawUsage::StaticDraw, calls);
    }

    /// Attaches this buffer to `draw_target` and loads `data` with the usage
    /// hint `draw_type`.
    pub fn bind_data_ex<T>(
        &self,
        data: &[T],
        draw_target: DrawTarget,
        draw_type: DrawUsage,
        calls: &mut Vec<Command>,
    )
        ensures
            final(calls)@ == old(calls)@ + spec_upload_calls(
                self@,
                (data@.len() * size_of::<T>()) as usize,
                draw_target,
                draw_type,
            ),
    {
        upload(self.0, data, draw_target, draw_type, calls);
    }

    /// The name of the buffer object.
    pub fn id(&self) -> (name: u32)
        ensures
            name == self@,
    {
        self.0
    }
}

} // verus!
