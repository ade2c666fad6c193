//! Decides when musical or sound events happen; a sink turns them into PCM.
pub mod clock;
pub mod euclid;
pub mod markov;
pub mod random;
pub mod scene;
pub mod sequencer;
pub mod track;

pub use clock::StepClock;
pub use euclid::EuclideanPattern;
pub use markov::MarkovChain;
pub use random::Lfsr;
pub use scene::Scene;
pub use track::{track_trigger, TrackRule, TrackTrigger};
