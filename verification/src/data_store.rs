//! Symbolic names for the closed set of build-time assets.

pub mod asset_name;
pub mod textured_model_name;
