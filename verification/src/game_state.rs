//! The whole-game state: the world, the ordered system pipeline, the
//! current play phase, the latest input snapshot, and the pending
//! full-rebuild request.

use crate::components::motion::Position;
use crate::components::render::MeshInstance;
use crate::components::render::Text;
use crate::controls::Changes;
use crate::controls::Controls;
use crate::controls::NUM_CONTROLLERS;
use crate::controls::WiiMoteControl;
use crate::controls::changes_wf;
use crate::controls::controls_wf;
use crate::math::DELTA_CAP;
use crate::systems::system_name::SystemName;
use crate::systems::system_name::system_rel;
use crate::world::World;
use vstd::prelude::*;

verus! {

/// The top-level phase of a game round. Phases only ever move forward
/// along Selection, Hands, Playing, Finish; the way back is the restart
/// request, which rebuilds the whole state from scratch.
#[derive(Debug, PartialEq, Eq, Structural, Clone, Copy)]
pub enum PlayMode {
    /// Waiting to begin; the intro has not started.
    Selection,
    /// The chained hand intro is playing.
    Hands,
    /// The round is being played.
    Playing,
    /// A winner stands; the win animation is running.
    Finish,
}

/// The game states the host can build; a pending `next_state` names which
/// one replaces the current state at frame end.
#[derive(Debug, PartialEq, Eq, Structural, Clone, Copy)]
pub enum GameStateName {
    BouncingCubes,
    MovingPlatformTest,
}

/// The position of a phase in the forward order.
pub open spec fn phase_rank(p: PlayMode) -> int {
    match p {
        PlayMode::Selection => 0,
        PlayMode::Hands => 1,
        PlayMode::Playing => 2,
        PlayMode::Finish => 3,
    }
}

/// Phases only move forward: `a` comes no later than `b`.
pub open spec fn phase_le(a: PlayMode, b: PlayMode) -> bool {
    phase_rank(a) <= phase_rank(b)
}

/// One phase write moves to the immediate successor or not at all; in
/// particular Selection never jumps straight to Playing, and Finish is
/// never left.
pub open spec fn phase_step_ok(a: PlayMode, b: PlayMode) -> bool {
    ||| b == a
    ||| (a is Selection && b is Hands)
    ||| (a is Hands && b is Playing)
    ||| (a is Playing && b is Finish)
}

/// The process-wide game state, owned by the host between frames.
#[derive(Debug)]
pub struct GameState {
    /// Cleared by the exit system; the host stops the loop when false.
    pub is_running: bool,
    /// The current phase of the round.
    pub playmode: PlayMode,
    /// The component store.
    pub world: World,
    /// The named systems the pipeline runs each frame, in order.
    pub systems: Vec<SystemName>,
    /// The frame's time step and input snapshot.
    pub changes: Changes,
    /// The pending full-rebuild request; at most one is honored per
    /// frame, and a later request overwrites an earlier one.
    pub next_state: Option<GameStateName>,
    /// What the render systems collected this frame for the render
    /// collaborator to draw.
    pub frame_meshes: Vec<(MeshInstance, Position)>,
    /// The text overlays collected this frame.
    pub frame_texts: Vec<Text>,
}

/// The state `b` is reached from `a` by running the first `k` systems
/// of `names`, in order, each exactly once: a chain of the named
/// systems' transitions.
pub open spec fn spec_pipeline_prefix(
    names: Seq<SystemName>,
    k: int,
    a: GameState,
    b: GameState,
) -> bool
    decreases k when 0 <= k <= names.len()
{
    if k <= 0 {
        b == a
    } else {
        exists|mid: GameState|
            #[trigger] system_rel(names[k - 1], mid, b) && spec_pipeline_prefix(
                names,
                k - 1,
                a,
                mid,
            )
    }
}

/// The state's machine-level well-formedness: the world's numeric
/// components and the frame step are inside their ranges.
pub open spec fn state_inv(s: GameState) -> bool {
    &&& s.world.wf()
    &&& changes_wf(s.changes)
}

impl GameState {
    /// Builds a fresh, empty, running state in the Selection phase.
    pub fn new() -> (r: GameState)
        ensures
            state_inv(r),
            r.is_running == true,
            r.playmode is Selection,
            r.world.slots@.len() == 0,
            r.world.alive_count() == 0,
            r.systems@.len() == 0,
            r.changes == (Changes { delta_time: 0, controls: r.changes.controls }),
            forall|i: int|
                0 <= i < NUM_CONTROLLERS ==> r.changes.controls.wii_mote_controls@[i]
                    == WiiMoteControl::spec_idle(),
            r.next_state is None,
            r.frame_meshes@.len() == 0,
            r.frame_texts@.len() == 0,
    {
        GameState {
            is_running: true,
            playmode: PlayMode::Selection,
            world: World::new(),
            systems: Vec::new(),
            changes: Changes::new(),
            next_state: None,
            frame_meshes: Vec::new(),
            frame_texts: Vec::new(),
        }
    }

    /// Appends a named system to the pipeline; only valid between frames,
    /// which the exclusive borrow enforces.
    pub fn add_system(&mut self, name: SystemName)
        ensures
            final(self).systems@ == old(self).systems@.push(name),
            *final(self) == (GameState { systems: final(self).systems, ..*old(self) }),
    {
        self.systems.push(name);
    }

    /// Installs the frame's input snapshot and time step before the
    /// pipeline runs.
    pub fn begin_frame(&mut self, controls: Controls, delta_time: i64)
        requires
            0 <= delta_time <= DELTA_CAP,
            controls_wf(controls),
        ensures
            final(self).changes == (Changes { delta_time, controls }),
            *final(self) == (GameState { changes: final(self).changes, ..*old(self) }),
            state_inv(*old(self)) ==> state_inv(*final(self)),
    {
        self.changes = Changes { delta_time, controls };
    }

    /// Takes the pending rebuild request, clearing it: a request is
    /// honored exactly once.
    pub fn take_next_state(&mut self) -> (r: Option<GameStateName>)
        ensures
            r == old(self).next_state,
            final(self).next_state is None,
            *final(self) == (GameState { next_state: None, ..*old(self) }),
            state_inv(*old(self)) ==> state_inv(*final(self)),
    {
        let r = self.next_state;
        self.next_state = None;
        r
    }

    /// Runs every registered system exactly once, in registration
    /// order: the final state is the chained composition of the named
    /// systems' transitions. The phase moves only forward -- in
    /// particular a state in Finish stays in Finish until the host
    /// honors the rebuild request -- and a game that stopped running
    /// never resumes.
    pub fn run_systems(&mut self)
        requires
            state_inv(*old(self)),
        ensures
            spec_pipeline_prefix(
                old(self).systems@,
                old(self).systems@.len() as int,
                *old(self),
                *final(self),
            ),
            state_inv(*final(self)),
            phase_le(old(self).playmode, final(self).playmode),
            final(self).changes == old(self).changes,
            final(self).systems@ == old(self).systems@,
            final(self).is_running ==> old(self).is_running,
    {
        let ghost a0 = *self;
        let ghost p0 = self.playmode;
        let ghost c0 = self.changes;
        let ghost sys0 = self.systems@;
        let ghost r0 = self.is_running;
        let n = self.systems.len();
        let mut i: usize = 0;
        while i < n
            invariant
                0 <= i <= n,
                state_inv(*self),
                n == self.systems@.len(),
                self.systems@ == sys0,
                self.changes == c0,
                phase_le(p0, self.playmode),
                self.is_running ==> r0,
                spec_pipeline_prefix(sys0, i as int, a0, *self),
            decreases n - i,
        {
            let ghost pre = *self;
            let name = self.systems[i];
            name.to_function(self);
            proof {
                assert(spec_pipeline_prefix(sys0, i as int, a0, pre));
                assert(system_rel(sys0[(i as int + 1) - 1], pre, *self));
                assert(spec_pipeline_prefix(sys0, i as int + 1, a0, *self));
            }
            i += 1;
        }
    }
}

/// Law: a single phase write never skips a phase. In particular the
/// phase never jumps from Selection straight to Playing, and a state in
/// Finish is only ever left by the restart path that rebuilds the whole
/// game state.
pub proof fn lemma_no_phase_skip(a: PlayMode, b: PlayMode)
    requires
        phase_step_ok(a, b),
    ensures
        a is Selection ==> !(b is Playing) && !(b is Finish),
        a is Finish ==> b is Finish,
{
}

/// Along any chain of frames, the phase order is preserved end to end.
pub proof fn lemma_phase_chain_le(phases: Seq<PlayMode>, i: int, j: int)
    requires
        forall|k: int|
            0 <= k < phases.len() - 1 ==> phase_le(#[trigger] phases[k], phases[k + 1]),
        0 <= i <= j < phases.len(),
    ensures
        phase_le(phases[i], phases[j]),
    decreases j - i,
{
    if i < j {
        lemma_phase_chain_le(phases, i + 1, j);
    }
}

/// Law: over any run of frames, the transition from Hands to Playing --
/// the start-gameplay event -- happens at most once: once the phase has
/// moved past Hands it can never be Hands again, so no second event can
/// fire.
pub proof fn lemma_start_event_unique(phases: Seq<PlayMode>, i: int, j: int)
    requires
        forall|k: int|
            0 <= k < phases.len() - 1 ==> phase_le(#[trigger] phases[k], phases[k + 1]),
        0 <= i,
        i + 1 <= j < phases.len(),
        phases[i] is Hands,
        phases[i + 1] is Playing,
    ensures
        !(phases[j] is Hands),
{
    lemma_phase_chain_le(phases, i + 1, j);
}

} // verus!
