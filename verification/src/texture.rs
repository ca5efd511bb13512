//! Textures and the texture units they are bound to.

use vstd::prelude::*;
use crate::command::Command;
use crate::draw_layer::UniformResource;

verus! {

/// The number of texture units a program can sample from.
pub const TEXTURE_UNITS: u32 = 32;

/// A two-dimensional texture.
#[derive(Debug)]
pub struct Texture(u32);

impl View for Texture {
    type V = u32;

    /// The name of the texture object.
    closed spec fn view(&self) -> u32 {
        self.0
    }
}

/// The calls that turn a fresh texture object into a mipmapped image of
/// `width` by `height` pixels.
pub open spec fn spec_texture_calls(texture: u32, width: i32, height: i32) -> Seq<Command> {
    seq![
        Command::BindTexture2D { texture },
        Command::TexImage2D { width, height },
        Command::GenerateMipmap2D,
    ]
}

/// The calls that bind `texture` to the texture unit `index`.
pub open spec fn spec_bind_calls(texture: u32, index: u32) -> Seq<Command> {
    seq![Command::ActiveTexture { unit: index }, Command::BindTexture2D { texture }]
}

impl Texture {
    /// The texture that the backend generated under the name `id`, loaded
    /// with an image of `width` by `height` pixels of four bytes each.
    pub fn new(id: u32, width: i32, height: i32, calls: &mut Vec<Command>) -> (texture: Self)
        ensures
            texture@ == id,
            final(calls)@ == old(calls)@ + spec_texture_calls(id, width, height),
    {
        calls.push(Command::BindTexture2D { texture: id });
        calls.push(Command::TexImage2D { width, height });
        calls.push(Command::GenerateMipmap2D);
        assert(calls@ =~= old(calls)@ + spec_texture_calls(id, width, height));
        Self(id)
    }

    /// Binds this texture to the texture unit `index`.
    fn bind(&self, index: u32, calls: &mut Vec<Command>)
        requires
            index < TEXTURE_UNITS,
        ensures
            final(calls)@ == old(calls)@ + spec_bind_calls(self@, index),
    {
        calls.push(Command::ActiveTexture { unit: index });
        calls.push(Command::BindTexture2D { texture: self.0 });
        assert(calls@ =~= old(calls)@ + spec_bind_calls(self@, index));
    }

    /// The name of the texture object.
    pub fn id(&self) -> (name: u32)
        ensures
            name == self@,
    {
        self.0
    }
}

/// The mathematical content of an [`ActiveTexture`].
pub struct ActiveTextureView {
    /// The number of the texture unit.
    pub index: u32,
    /// Whether a texture has been bound to the unit.
    pub texture_bound: bool,
}

/// A texture unit, which a sampler uniform refers to by its number.
#[derive(Debug)]
pub struct ActiveTexture {
    id: u32,
    texture_bound: bool,
}

impl View for ActiveTexture {
    type V = ActiveTextureView;

    closed spec fn view(&self) -> ActiveTextureView {
        ActiveTextureView { index: self.id, texture_bound: self.texture_bound }
    }
}

impl ActiveTexture {
    /// Every texture unit has a number below [`TEXTURE_UNITS`].
    #[verifier::type_invariant]
    spec fn in_range(self) -> bool {
        self.id < TEXTURE_UNITS
    }

    /// The texture unit numbered `index`, with no texture bound to it yet.
    pub fn new(index: u32) -> (unit: Self)
        requires
            index < TEXTURE_UNITS,
        ensures
            unit@ == (ActiveTextureView { index, texture_bound: false }),
    {
        Self { id: index, texture_bound: false }
    }

    /// Binds `texture` to this unit.
    pub fn bind_texture(&mut self, texture: &Texture, calls: &mut Vec<Command>)
        ensures
            final(self)@ == (ActiveTextureView { index: old(self)@.index, texture_bound: true }),
            final(calls)@ == old(calls)@ + spec_bind_calls(texture@, old(self)@.index),
    {
        proof {
            use_type_invariant(&*self);
        }
        texture.bind(self.id, calls);
        self.texture_bound = true;
    }

    /// Whether a texture has been bound to this unit.
    pub fn is_bound(&self) -> (bound: bool)
        ensures
            bound == self@.texture_bound,
    {
        self.texture_bound
    }

    /// The number of this unit.
    pub fn index(&self) -> (index: u32)
        ensures
            index == self@.index,
            index < TEXTURE_UNITS,
    {
        proof {
            use_type_invariant(self);
        }
        self.id
    }
}

impl UniformResource for ActiveTexture {
    /// A unit can feed a sampler once a texture is bound to it.
    open spec fn spec_ready(&self) -> bool {
        self@.texture_bound
    }

    open spec fn spec_uniform(&self, location: i32) -> Command {
        Command::Uniform1i { location, value: self@.index as i32 }
    }

    fn uniform(&self, location: i32, calls: &mut Vec<Command>) {
        proof {
            use_type_invariant(self);
        }
        calls.push(Command::Uniform1i { location, value: self.id as i32 });
    }
}

} // verus!
