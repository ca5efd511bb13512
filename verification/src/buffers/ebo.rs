//! Element buffer objects.

use vstd::layout::size_of;
use vstd::prelude::*;
use crate::buffers::vao::Vao;
use crate::buffers::vbo::{spec_upload_calls, upload};
use crate::buffers::{DrawTarget, DrawUsage};
use crate::command::Command;

verus! {

/// A buffer object that holds vertex indices.
#[derive(Debug)]
pub struct Ebo(u32);

impl View for Ebo {
    type V = u32;

    /// The name of the buffer object.
    closed spec fn view(&self) -> u32 {
        self.0
    }
}

impl Ebo {
    /// The buffer that the backend generated under the name `id`, made with
    /// `vao` as the current vertex array.
    pub fn new(vao: &Vao, id: u32, calls: &mut Vec<Command>) -> (ebo: Self)
        ensures
            ebo@ == id,
            final(calls)@ == old(calls)@.push(Command::BindVertexArray { array: vao@ }),
    {
        vao.bind(calls);
        Self(id)
    }

    /// Loads `data` as index data that is written once and drawn many times.
    pub fn bind_data<T>(&self, data: &[T], calls: &mut Vec<Command>)
        ensures
            final(calls)@ == old(calls)@ + spec_upload_calls(
                self@,
                (data@.len() * size_of::<T>()) as usize,
                DrawTarget::ElementArrayBuffer,
                DrawUsage::StaticDraw,
            ),
    {
        self.bind_data_ex(data, DrawTarget::ElementArrayBuffer, DrawUsage::StaticDraw, calls);
    }

    /// Attaches this buffer to `draw_target` and loads `data` with the usage
    /// hint `draw_type`.
    pub fn bind_data_ex<T>(
        &self,
        data: &[T],
        draw_target: DrawTarget,
        draw_type: DrawUsage,
        calls: &mut Vec<Command>,
    )
        ensures
            final(calls)@ == old(calls)@ + spec_upload_calls(
                self@,
                (data@.len() * size_of::<T>()) as usize,
                draw_target,
                draw_type,
            ),
    {
        upload(self.0, data, draw_target, draw_type, calls);
    }

    /// The name of the buffer object.
    pub fn id(&self) -> (name: u32)
        ensures
            name == self@,
    {
        self.0
    }
}

} // verus!
