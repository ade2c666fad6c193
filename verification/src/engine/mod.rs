//! Engine-level types and rules shared by games.
pub mod animation;
pub mod audio;
pub mod input;
pub mod noise;
pub mod physics;
pub mod sprite;
pub mod texture_manager;
pub mod time;
