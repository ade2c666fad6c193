//! The preset scenes a sequencer can be built from.
use vstd::prelude::*;

verus! {

#[derive(Debug, Clone, Copy, PartialEq, Eq, Structural)]
pub enum Scene {
    Drums,
    Melodic,
    Full,
}

/// The scene numbered `index`, if there is one.
pub open spec fn scene_of_index(index: int) -> Option<Scene> {
    if index == 0 {
        Some(Scene::Drums)
    } else if index == 1 {
        Some(Scene::Melodic)
    } else if index == 2 {
        Some(Scene::Full)
    } else {
        None
    }
}

impl Scene {
    pub fn from_index(index: u8) -> (r: Option<Self>)
        ensures
            r == scene_of_index(index as int),
    {
        match index {
            0 => Some(Self::Drums),
            1 => Some(Self::Melodic),
            2 => Some(Self::Full),
            _ => None,
        }
    }

    pub fn name(self) -> (r: &'static str)
        ensures
            r@ == (match self {
                Scene::Drums => "Drums"@,
                Scene::Melodic => "Melodic"@,
                Scene::Full => "Full"@,
            }),
    {
        match self {
            Self::Drums => "Drums",
            Self::Melodic => "Melodic",
            Self::Full => "Full",
        }
    }
}

} // verus!
