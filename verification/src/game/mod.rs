//! Journey's game rules.
pub mod audio;
pub mod combat;
pub mod enemy;
pub mod input;
pub mod jump;
pub mod level;
pub mod level_editor;
pub mod player;
pub mod projectile;
pub mod tick;
pub mod tile_boxes;
