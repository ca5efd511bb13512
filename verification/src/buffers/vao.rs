//! Vertex array objects.

use vstd::prelude::*;
use crate::command::Command;

verus! {

/// A vertex array object: the backend's record of which buffers feed which
/// vertex inputs.
#[derive(Debug)]
pub struct Vao(u32);

impl View for Vao {
    type V = u32;

    /// The name of the vertex array object.
    closed spec fn view(&self) -> u32 {
        self.0
    }
}

impl Vao {
    /// The vertex array that the backend generated under the name `id`.
    pub fn new(id: u32) -> (vao: Self)
        ensures
            vao@ == id,
    {
        Self(id)
    }

    /// Makes this the current vertex array.
    pub fn bind(&self, calls: &mut Vec<Command>)
        ensures
            final(calls)@ == old(calls)@.push(Command::BindVertexArray { array: self@ }),
    {
        calls.push(Command::BindVertexArray { array: self.0 });
    }

    /// The name of the vertex array object.
    pub fn id(&self) -> (name: u32)
        ensures
            name == self@,
    {
        self.0
    }
}

} // verus!
