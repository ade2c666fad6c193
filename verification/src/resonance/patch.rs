//! The built-in percussion and effect patches.
use vstd::prelude::*;

verus! {

#[derive(Debug, Clone, Copy, PartialEq, Eq, Structural)]
pub enum Patch {
    Kick,
    Snare,
    HiHat,
    Laser,
    Coin,
    Explosion,
}

/// The patch numbered `index`, if there is one.
pub open spec fn patch_of_index(index: int) -> Option<Patch> {
    if index == 0 {
        Some(Patch::Kick)
    } else if index == 1 {
        Some(Patch::Snare)
    } else if index == 2 {
        Some(Patch::HiHat)
    } else if index == 3 {
        Some(Patch::Laser)
    } else if index == 4 {
        Some(Patch::Coin)
    } else if index == 5 {
        Some(Patch::Explosion)
    } else {
        None
    }
}

/// The number of a patch, in declaration order.
pub open spec fn patch_index(p: Patch) -> u8 {
    match p {
        Patch::Kick => 0,
        Patch::Snare => 1,
        Patch::HiHat => 2,
        Patch::Laser => 3,
        Patch::Coin => 4,
        Patch::Explosion => 5,
    }
}

impl Patch {
    pub const COUNT: usize = 6;

    pub fn from_index(index: u8) -> (r: Option<Self>)
        ensures
            r == patch_of_index(index as int),
    {
        match index {
            0 => Some(Self::Kick),
            1 => Some(Self::Snare),
            2 => Some(Self::HiHat),
            3 => Some(Self::Laser),
            4 => Some(Self::Coin),
            5 => Some(Self::Explosion),
            _ => None,
        }
    }

    pub fn index(self) -> (r: u8)
        ensures
            r == patch_index(self),
    {
        match self {
            Self::Kick => 0,
            Self::Snare => 1,
            Self::HiHat => 2,
            Self::Laser => 3,
            Self::Coin => 4,
            Self::Explosion => 5,
        }
    }

    pub fn name(self) -> (r: &'static str)
        ensures
            r@ == (match self {
                Patch::Kick => "Kick"@,
                Patch::Snare => "Snare"@,
                Patch::HiHat => "HiHat"@,
                Patch::Laser => "Laser"@,
                Patch::Coin => "Coin"@,
                Patch::Explosion => "Explosion"@,
            }),
    {
        match self {
            Self::Kick => "Kick",
            Self::Snare => "Snare",
            Self::HiHat => "HiHat",
            Self::Laser => "Laser",
            Self::Coin => "Coin",
            Self::Explosion => "Explosion",
        }
    }
}

/// Numbering is a bijection between the patches and `0..COUNT`: every patch's
/// number maps back to it, and every number below `COUNT` names a patch with
/// that number; numbers from `COUNT` on name none.
pub proof fn lemma_patch_index_roundtrip(p: Patch, i: int)
    ensures
        patch_of_index(patch_index(p) as int) == Some(p),
        (patch_index(p) as int) < Patch::COUNT,
        0 <= i < Patch::COUNT ==> (patch_of_index(i) matches Some(q) && patch_index(q) == i),
        (i < 0 || i >= Patch::COUNT) ==> patch_of_index(i) is None,
{
}

} // verus!
