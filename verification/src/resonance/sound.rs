//! Building blocks for layered procedural sounds.
use vstd::prelude::*;

verus! {

/// Maximum number of layers in one sound.
pub const MAX_LAYERS: usize = 4;

#[derive(Debug, Clone, Copy, PartialEq, Eq, Structural)]
pub enum Waveform {
    Sine,
    Square,
    Sawtooth,
    Triangle,
    Noise,
}

#[derive(Debug, Clone, Copy, PartialEq, Eq, Structural)]
pub enum Curve {
    Hold,
    Linear,
    Decay,
}

#[derive(Debug, Clone, Copy, PartialEq, Eq, Structural)]
pub enum FilterMode {
    /// No filtering.
    Unfiltered,
    LowPass,
    HighPass,
}

} // verus!
