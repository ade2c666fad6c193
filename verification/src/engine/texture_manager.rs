//! Handles to loaded textures.
use vstd::prelude::*;

verus! {

/// Handle to a loaded texture: its slot in the texture manager's tables.
#[derive(Debug, Clone, Copy, PartialEq, Eq, Hash, Structural)]
pub struct TextureHandle(pub usize);

impl TextureHandle {
    /// The handle of the texture in slot `index`.
    pub fn from_index(index: usize) -> (r: Self)
        ensures
            r.0 == index,
    {
        TextureHandle(index)
    }

    /// The slot this handle refers to.
    pub fn index(&self) -> (r: usize)
        ensures
            r == self.0,
    {
        self.0
    }
}

} // verus!
