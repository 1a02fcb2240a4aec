//! What the gamepad shows and plays.

pub mod audio;
pub mod display;
