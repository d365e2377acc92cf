//! The closed registry of systems: a name for each update function the
//! pipeline can run, and the dispatch that runs one.

use crate::game_state::GameState;
use crate::game_state::PlayMode;
use crate::game_state::phase_le;
use crate::game_state::state_inv;
use crate::systems::actions::spec_exit_action_rel;
use crate::systems::actions::spec_shake_action_rel;
use crate::systems::actions::spec_stop_action_rel;
use crate::systems::actions::system_exit_action;
use crate::systems::actions::system_shake_action;
use crate::systems::actions::system_stop_action;
use crate::systems::gamemaster::spec_gamemaster_rel;
use crate::systems::gamemaster::spec_moving_platform_rel;
use crate::systems::gamemaster::system_gamemaster;
use crate::systems::gamemaster::system_moving_platform;
use crate::systems::render::spec_render_meshes_rel;
use crate::systems::render::system_render_meshes;
use vstd::prelude::*;

verus! {

/// Enumerates all systems that exist in the project. Each of them can be
/// run against a game state by calling `to_function` on it.
#[derive(Debug, PartialEq, Eq, Structural, PartialOrd, Ord, Clone, Copy)]
pub enum SystemName {
    DebugPhysics,
    GameMaster,
    CameraUpdate,
    ExitAction,
    MovingPlatform,
    StopAction,
    ShakeAction,
    IntegrateMotion,
    BounceBounds,
    PlayAudio,
    RenderMeshes,
    RegisterCollider,
    PhysicsToPosition,
    PatatoControl,
    ResetLevel,
    ScoreFryingPan,
    TeleportPotatoes,
}

/// The transition of the system a name designates: each name behaves
/// exactly as its system's contract; the names whose work lives
/// entirely in an external collaborator change nothing.
pub open spec fn system_rel(name: SystemName, a: GameState, b: GameState) -> bool {
    match name {
        SystemName::GameMaster => spec_gamemaster_rel(a, b),
        SystemName::ExitAction => spec_exit_action_rel(a, b),
        SystemName::MovingPlatform => spec_moving_platform_rel(a, b),
        SystemName::StopAction => spec_stop_action_rel(a, b),
        SystemName::ShakeAction => spec_shake_action_rel(a, b),
        SystemName::RenderMeshes => spec_render_meshes_rel(a, b),
        _ => b == a,
    }
}

impl SystemName {
    /// Runs the update function of this particular system name on the
    /// state: the state undergoes exactly the named system's
    /// transition. Names whose work lives entirely in an external
    /// collaborator (physics, audio, input-driven scoring) update
    /// nothing here.
    pub fn to_function(&self, state: &mut GameState)
        requires
            state_inv(*old(state)),
        ensures
            system_rel(*self, *old(state), *final(state)),
            state_inv(*final(state)),
            phase_le(old(state).playmode, final(state).playmode),
            old(state).playmode is Selection ==> (final(state).playmode is Selection
                || final(state).playmode is Hands),
            final(state).changes == old(state).changes,
            final(state).systems@ == old(state).systems@,
            final(state).is_running ==> old(state).is_running,
    {
        match self {
            SystemName::GameMaster => system_gamemaster(state),
            SystemName::ExitAction => system_exit_action(state),
            SystemName::MovingPlatform => system_moving_platform(state),
            SystemName::StopAction => system_stop_action(state),
            SystemName::ShakeAction => system_shake_action(state),
            SystemName::RenderMeshes => system_render_meshes(state),
            // The remaining systems act entirely through external
            // collaborators (physics, audio, text rasterization, input
            // scoring); the core holds no logic for them.
            SystemName::DebugPhysics => {},
            SystemName::CameraUpdate => {},
            SystemName::IntegrateMotion => {},
            SystemName::BounceBounds => {},
            SystemName::PlayAudio => {},
            SystemName::RegisterCollider => {},
            SystemName::PhysicsToPosition => {},
            SystemName::PatatoControl => {},
            SystemName::ResetLevel => {},
            SystemName::ScoreFryingPan => {},
            SystemName::TeleportPotatoes => {},
        }
    }
}

} // verus!
