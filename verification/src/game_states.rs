//! Builders for the game states the host can run.

pub mod bouncing_cubes;
pub mod moving_platform_test;
