//! Fixed-point PCM synthesis primitives.
pub mod buffer;
pub mod convert;
pub mod envelope;
pub mod lut;
pub mod oscillator;
pub mod patch;
pub mod sound;
