//! Verified core of the Journey engine: procedural sequencing, PCM synthesis
//! helpers, input bindings and the frame-driven combat rules.
use vstd::prelude::*;

pub mod cadence;
pub mod engine;
pub mod game;
pub mod resonance;

verus! {

} // verus!
