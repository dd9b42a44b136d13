//! A fixed-step 2D sandbox engine: the frame buffer and its compositor, the
//! ordered list of game objects, the decisions of the frame loop and the
//! parsing of sprite colours.

pub mod color;
pub mod compositor;
pub mod constants;
pub mod engine;
pub mod game_loop;
pub mod game_object;
pub mod input;
pub mod types;
