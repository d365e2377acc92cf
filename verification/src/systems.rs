//! The per-frame update systems the pipeline can run.

pub mod actions;
pub mod gamemaster;
pub mod render;
pub mod system_name;
