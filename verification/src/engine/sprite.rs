//! Sprite blending.
use vstd::prelude::*;

verus! {

/// GPU blend mode for sprite rendering.
#[derive(Debug, Clone, Copy, PartialEq, Eq, Structural)]
pub enum BlendMode {
    Alpha,
    Additive,
}

impl Default for BlendMode {
    fn default() -> (r: Self)
        ensures
            r == BlendMode::Alpha,
    {
        BlendMode::Alpha
    }
}

} // verus!
