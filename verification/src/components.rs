//! The component catalog: plain data records attached to entities.

pub mod audio;
pub mod game;
pub mod motion;
pub mod physics;
pub mod render;
