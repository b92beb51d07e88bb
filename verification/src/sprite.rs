//! Sprites: a drawable component holding a shared handle to a texture owned
//! by the texture cache, never a copy of the texture itself.

use vstd::prelude::*;

verus! {

/// A shared, immutable handle to a texture that lives in the embedding
/// host's texture cache. Copying the handle shares the texture.
#[derive(Clone, Copy, PartialEq, Eq, Structural, Debug)]
pub struct TextureRef {
    pub handle: u64,
}

/// The drawable component of an entity.
#[derive(Clone, Copy, PartialEq, Eq, Structural, Debug)]
pub struct Sprite {
    pub texture: TextureRef,
}

impl Sprite {
    pub fn new(texture: TextureRef) -> (s: Sprite)
        ensures
            s.texture == texture,
    {
        Sprite { texture }
    }
}

} // verus!
