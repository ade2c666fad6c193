//! Frame-deterministic combat rules: move frame data, the combat phase machine,
//! the tick-stamped input buffer and hit windows. All timing is in integer ticks.
pub mod fsm;
pub mod hit;
pub mod hitbox;
pub mod input_buffer;
pub mod moves;
