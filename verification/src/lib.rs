//! Per-frame simulation core of a small arcade game: a component store
//! ("World") with deferred structural mutation, an ordered pipeline of
//! per-frame systems, a per-entity animation state machine driving
//! procedural motion in fixed-point arithmetic, and a whole-game phase
//! controller with scoring and elimination.

pub mod animation;
pub mod components;
pub mod controls;
pub mod data_store;
pub mod game_state;
pub mod game_states;
pub mod math;
pub mod rng;
pub mod systems;
pub mod world;
