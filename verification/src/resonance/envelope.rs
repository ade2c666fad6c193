//! Envelope stages.
use vstd::prelude::*;

verus! {

/// The stages an ADSR envelope moves through.
#[derive(Debug, Clone, Copy, PartialEq, Eq, Structural)]
pub enum Stage {
    Attack,
    Decay,
    Sustain,
    Release,
    Off,
}

} // verus!
