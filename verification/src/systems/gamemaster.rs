//! The game-master systems: the animation pass with its deferred
//! structural mutation, the phase controller, and scoring/elimination.

use crate::animation::StepEffect;
use crate::animation::anim_step;
use crate::animation::spec_anim_step;
use crate::animation::StageBundle;
use crate::animation::StepOut;
use crate::components::game::Animation;
use crate::components::game::AnimationType;
use crate::components::game::ControllerAssignment;
use crate::components::game::FryAssignment;
use crate::components::game::OnAnimationFinish;
use crate::components::motion::Position;
use crate::components::motion::Rotation;
use crate::components::motion::Velocity;
use crate::components::motion::velocity_wf;
use crate::components::physics::SphereCollider;
use crate::components::render::MeshInstance;
use crate::data_store::textured_model_name::TexturedModelName;
use crate::game_state::GameState;
use crate::game_state::GameStateName;
use crate::game_state::PlayMode;
use crate::game_state::state_inv;
use crate::math::spec_add_clamp;
use crate::rng::rng_from_seed;
use crate::rng::rng_next_u32;
use crate::rng::scale_draw;
use crate::world::Bundle;
use crate::world::CommandBuffer;
use crate::world::Entity;
use crate::world::Slot;
use crate::world::World;
use crate::world::apply_commands;
use crate::world::apply_despawns_from;
use crate::world::apply_spawns_from;
use crate::world::bundle_wf;
use crate::world::count_alive;
use crate::world::lemma_apply_commands_wf;
use crate::world::lemma_apply_spawns_count;
use crate::world::lemma_slots_spawn_wf;
use crate::world::slots_spawn;
use vstd::prelude::*;

verus! {

/// The platform system's transition: the movable scenery currently needs
/// no per-frame update, so nothing changes.
pub open spec fn spec_moving_platform_rel(a: GameState, b: GameState) -> bool {
    b == a
}

/// The platform system: the movable scenery currently needs no per-frame
/// update of its own.
pub fn system_moving_platform(state: &mut GameState)
    requires
        state_inv(*old(state)),
    ensures
        spec_moving_platform_rel(*old(state), *final(state)),
{
}

/// The camera pass's transition: the camera currently holds its pose, so
/// nothing changes.
pub open spec fn spec_camera_movement_rel(a: GameState, b: GameState) -> bool {
    b == a
}

/// The camera-follow pass of the game master; the camera currently holds
/// its pose, so the pass changes nothing.
pub fn system_camera_movement(state: &mut GameState)
    requires
        state_inv(*old(state)),
    ensures
        spec_camera_movement_rel(*old(state), *final(state)),
{
}

/// The components of the intro seed entity spawned when the game leaves
/// Selection: a zero-duration animation whose completion starts the
/// chained hand intro.
pub open spec fn spec_seed_bundle() -> Bundle {
    Bundle {
        position: Some(Position { x: 0, y: 0, z: 0 }),
        animation: Some(
            Animation {
                duration: 0,
                past_time: 0,
                animation_type: AnimationType::Idle,
                on_animation_finish: OnAnimationFinish::Hand3,
                target_x: 0,
                target_y: 0,
                target_z: 0,
            },
        ),
        ..Bundle::spec_empty()
    }
}

/// The phase-start transition: from Selection the intro seed is spawned
/// and the phase advances to Hands at once; from any other phase nothing
/// changes.
pub open spec fn spec_game_start_rel(a: GameState, b: GameState) -> bool {
    &&& state_inv(b)
    &&& crate::game_state::phase_step_ok(a.playmode, b.playmode)
    &&& (a.playmode is Selection ==> {
        &&& b.playmode is Hands
        &&& b.world.slots@ == slots_spawn(a.world.slots@, spec_seed_bundle())
        &&& b == (GameState { playmode: b.playmode, world: b.world, ..a })
    })
    &&& (!(a.playmode is Selection) ==> b == a)
}

/// The first time the game master observes the Selection phase it spawns
/// the intro seed and advances the phase to Hands at once.
pub fn system_game_start(state: &mut GameState)
    requires
        state_inv(*old(state)),
    ensures
        spec_game_start_rel(*old(state), *final(state)),
{
    match state.playmode {
        PlayMode::Playing | PlayMode::Hands | PlayMode::Finish => {},
        PlayMode::Selection => {
            let mut b = Bundle::empty();
            b.position = Some(Position { x: 0, y: 0, z: 0 });
            b.animation = Some(
                Animation {
                    duration: 0,
                    past_time: 0,
                    animation_type: AnimationType::Idle,
                    on_animation_finish: OnAnimationFinish::Hand3,
                    target_x: 0,
                    target_y: 0,
                    target_z: 0,
                },
            );
            proof {
                assert(b == spec_seed_bundle());
                lemma_slots_spawn_wf(state.world.slots@, b);
            }
            state.world.spawn(b);
            state.playmode = PlayMode::Hands;
        },
    }
}

/// A slot whose occupant is a winning competitor: it owns a score above
/// the threshold together with an animation and a position.
pub open spec fn slot_is_winner(slot: Slot) -> bool {
    &&& slot.comps matches Some(b)
    &&& b.fry_assignment matches Some(f)
    &&& f.score > 20
    &&& b.animation is Some
    &&& b.position is Some
}

/// Whether any slot holds a winning competitor.
pub open spec fn has_winner(s: Seq<Slot>) -> bool {
    exists|j: int| 0 <= j < s.len() && slot_is_winner(#[trigger] s[j])
}

/// The win animation: a five-second ease toward a point above the
/// winner, whose completion requests the full restart.
pub open spec fn spec_win_animation(p: Position) -> Animation {
    Animation {
        duration: 5000,
        past_time: 0,
        animation_type: AnimationType::FryerWin,
        on_animation_finish: OnAnimationFinish::Restart,
        target_x: p.x,
        target_y: spec_add_clamp(p.y as int, 5000) as i64,
        target_z: p.z,
    }
}

/// A slot after the winner pass: a winning occupant has its animation
/// overwritten by the win animation.
pub open spec fn spec_winner_slot(slot: Slot) -> Slot {
    if slot_is_winner(slot) {
        let b = slot.comps.unwrap();
        Slot {
            generation: slot.generation,
            comps: Some(
                Bundle { animation: Some(spec_win_animation(b.position.unwrap())), ..b },
            ),
        }
    } else {
        slot
    }
}

/// A slot whose occupant is a losing competitor: its score is below the
/// threshold (a score exactly at the threshold neither wins nor loses).
pub open spec fn slot_is_loser(slot: Slot) -> bool {
    &&& slot.comps matches Some(b)
    &&& b.fry_assignment matches Some(f)
    &&& f.score < 20
}

/// The handles of all losing competitors at or after slot `i`, in store
/// order.
pub open spec fn spec_loser_entities(s: Seq<Slot>, i: int) -> Seq<Entity>
    decreases s.len() - i when 0 <= i <= s.len()
{
    if i >= s.len() {
        Seq::empty()
    } else {
        let rest = spec_loser_entities(s, i + 1);
        if slot_is_loser(s[i]) {
            seq![Entity { index: i as usize, generation: s[i].generation }] + rest
        } else {
            rest
        }
    }
}

/// A slot after the scenery pass: a platform occupant owning a position
/// is moved far below the field.
pub open spec fn spec_platform_slot(slot: Slot) -> Slot {
    match slot.comps {
        Some(b) => {
            if b.position is Some && b.platform is Some {
                let p = b.position.unwrap();
                Slot {
                    generation: slot.generation,
                    comps: Some(
                        Bundle { position: Some(Position { x: p.x, y: 99999000, z: p.z }), ..b },
                    ),
                }
            } else {
                slot
            }
        },
        None => slot,
    }
}

/// The whole elimination pass over the store: winners get the win
/// animation; if a winner exists every loser is despawned (collected
/// first, removed after the scan); platforms are parked below the field.
pub open spec fn spec_game_finish_slots(s: Seq<Slot>) -> Seq<Slot> {
    let s1 = s.map(|j: int, slot: Slot| spec_winner_slot(slot));
    let s2 = if has_winner(s) {
        apply_despawns_from(s1, spec_loser_entities(s1, 0), 0)
    } else {
        s1
    };
    s2.map(|j: int, slot: Slot| spec_platform_slot(slot))
}

/// The finish pass outside the Playing phase: only the scenery is
/// parked; winners are detected while the round is being played, and
/// exactly once, so the win animation then runs to completion and can
/// raise the restart request.
pub open spec fn spec_park_platforms(s: Seq<Slot>) -> Seq<Slot> {
    s.map(|j: int, slot: Slot| spec_platform_slot(slot))
}

/// The finish transition: in Playing, a winner gets the win animation,
/// every loser is despawned and the phase moves to Finish; outside
/// Playing only the scenery is parked.
pub open spec fn spec_game_finish_rel(a: GameState, b: GameState) -> bool {
    &&& state_inv(b)
    &&& crate::game_state::phase_step_ok(a.playmode, b.playmode)
    &&& (a.playmode is Playing ==> b.world.slots@ == spec_game_finish_slots(a.world.slots@))
    &&& (!(a.playmode is Playing) ==> b.world.slots@ == spec_park_platforms(a.world.slots@))
    &&& b.playmode == (if has_winner(a.world.slots@) && a.playmode is Playing {
        PlayMode::Finish
    } else {
        a.playmode
    })
    &&& b == (GameState { playmode: b.playmode, world: b.world, ..a })
}

/// Detects a winner, replaces its animation with the win animation,
/// despawns every loser in the same frame, and moves the phase from
/// Playing to Finish.
pub fn system_game_finish(state: &mut GameState)
    requires
        state_inv(*old(state)),
    ensures
        spec_game_finish_rel(*old(state), *final(state)),
{
    let active = matches!(state.playmode, PlayMode::Playing);
    let ghost s0 = state.world.slots@;
    let ghost winner_map = |j: int, slot: Slot| spec_winner_slot(slot);
    let n = state.world.len();
    let mut winner: bool = false;
    let mut i: usize = 0;
    while active && i < n
        invariant
            0 <= i <= n,
            n == state.world.slots@.len(),
            state.world.slots@.len() == s0.len(),
            forall|j: int| i <= j < n ==> state.world.slots@[j] == s0[j],
            forall|j: int|
                0 <= j < i ==> state.world.slots@[j] == spec_winner_slot(#[trigger] s0[j]),
            winner == exists|j: int| 0 <= j < i && slot_is_winner(#[trigger] s0[j]),
            !active ==> i == 0,
            state.world.wf(),
            *state == (GameState { world: state.world, ..*old(state) }),
        decreases n - i,
    {
        let fry = state.world.get_fry_assignment(i);
        let anim = state.world.get_animation(i);
        let pos = state.world.get_position(i);
        match (fry, anim, pos) {
            (Some(f), Some(_), Some(p)) => {
                if f.score > 20 {
                    let win = Animation {
                        duration: 5000,
                        past_time: 0,
                        animation_type: AnimationType::FryerWin,
                        on_animation_finish: OnAnimationFinish::Restart,
                        target_x: p.x,
                        target_y: crate::math::add_clamp(p.y, 5000),
                        target_z: p.z,
                    };
                    proof {
                        assert(win == spec_win_animation(p));
                        assert(slot_is_winner(s0[i as int]));
                    }
                    state.world.set_animation(i, win);
                    winner = true;
                }
            },
            _ => {},
        }
        i += 1;
    }
    let ghost s1 = if active {
        s0.map(winner_map)
    } else {
        s0
    };
    proof {
        if active {
            assert(state.world.slots@ =~= s0.map(winner_map));
        } else {
            assert(state.world.slots@ =~= s0);
        }
        assert(active ==> winner == has_winner(s0));
        assert(!active ==> !winner);
    }
    if winner {
        let mut to_remove: Vec<Entity> = Vec::new();
        let m = state.world.len();
        let mut k: usize = 0;
        while k < m
            invariant
                0 <= k <= m,
                m == state.world.slots@.len(),
                state.world.slots@ == s1,
                to_remove@ + spec_loser_entities(s1, k as int) == spec_loser_entities(s1, 0),
                *state == (GameState { world: state.world, ..*old(state) }),
            decreases m - k,
        {
            let fry = state.world.get_fry_assignment(k);
            let ghost pre = to_remove@;
            match fry {
                Some(f) => {
                    if f.score < 20 {
                        let g = state.world.slots[k].generation;
                        to_remove.push(Entity { index: k, generation: g });
                        proof {
                            assert(slot_is_loser(s1[k as int]));
                            assert(to_remove@ =~= pre + seq![
                                Entity { index: k, generation: g },
                            ]);
                            assert(to_remove@ + spec_loser_entities(s1, k as int + 1) =~= pre + (
                            seq![Entity { index: k, generation: g }] + spec_loser_entities(
                                s1,
                                k as int + 1,
                            )));
                        }
                    } else {
                        proof {
                            assert(!slot_is_loser(s1[k as int]));
                        }
                    }
                },
                None => {
                    proof {
                        assert(!slot_is_loser(s1[k as int]));
                    }
                },
            }
            k += 1;
        }
        let cb = CommandBuffer { despawns: to_remove, spawns: Vec::new() };
        cb.apply(&mut state.world);
        proof {
            assert(state.world.slots@ == apply_spawns_from(
                apply_despawns_from(s1, cb.despawns@, 0),
                cb.spawns@,
                0,
            ));
            assert(apply_spawns_from(apply_despawns_from(s1, cb.despawns@, 0), cb.spawns@, 0)
                == apply_despawns_from(s1, cb.despawns@, 0));
            lemma_apply_commands_wf(s1, cb.despawns@, cb.spawns@);
        }
    }
    let ghost s2 = state.world.slots@;
    let ghost platform_map = |j: int, slot: Slot| spec_platform_slot(slot);
    let n2 = state.world.len();
    let mut t: usize = 0;
    while t < n2
        invariant
            0 <= t <= n2,
            n2 == state.world.slots@.len(),
            state.world.slots@.len() == s2.len(),
            forall|j: int| t <= j < n2 ==> state.world.slots@[j] == s2[j],
            forall|j: int|
                0 <= j < t ==> state.world.slots@[j] == spec_platform_slot(#[trigger] s2[j]),
            state.world.wf(),
            *state == (GameState { world: state.world, ..*old(state) }),
        decreases n2 - t,
    {
        let pos = state.world.get_position(t);
        let plat = state.world.get_platform(t);
        match (pos, plat) {
            (Some(p), Some(_)) => {
                state.world.set_position(t, Position { x: p.x, y: 99999000, z: p.z });
            },
            _ => {},
        }
        t += 1;
    }
    proof {
        assert(state.world.slots@ =~= s2.map(platform_map));
    }
    if winner {
        match state.playmode {
            PlayMode::Playing => {
                state.playmode = PlayMode::Finish;
            },
            _ => {},
        }
    }
}

/// The ghost record of the animation scan: the slots as updated in
/// place, the buffered despawns and spawns, and the two frame flags.
pub struct AnimPass {
    pub slots: Seq<Slot>,
    pub removes: Seq<Entity>,
    pub adds: Seq<Bundle>,
    pub start: bool,
    pub restart: bool,
}

/// An intro stage packed as a spawnable component bundle.
pub open spec fn spec_stage_to_bundle(sb: StageBundle) -> Bundle {
    Bundle {
        position: Some(sb.position),
        rotation: Some(sb.rotation),
        animation: Some(sb.animation),
        mesh_instance: Some(sb.mesh_instance),
        ..Bundle::spec_empty()
    }
}

/// Folds one slot of the pre-scan store into the scan record: an
/// occupant owning position and animation takes one machine step; its
/// structural effect is buffered, never applied during the scan.
pub open spec fn spec_anim_pass_step(prev: AnimPass, s0: Seq<Slot>, delta: int, j: int) -> AnimPass {
    let slot = s0[j];
    match slot.comps {
        Some(b) => match (b.position, b.animation) {
            (Some(p), Some(a)) => {
                let out = spec_anim_step(p, a, delta);
                let slots2 = prev.slots.update(
                    j,
                    Slot {
                        generation: slot.generation,
                        comps: Some(
                            Bundle {
                                position: Some(out.position),
                                animation: Some(out.animation),
                                ..b
                            },
                        ),
                    },
                );
                let e = Entity { index: j as usize, generation: slot.generation };
                match out.effect {
                    StepEffect::Keep => AnimPass { slots: slots2, ..prev },
                    StepEffect::Remove => AnimPass {
                        slots: slots2,
                        removes: prev.removes.push(e),
                        ..prev
                    },
                    StepEffect::Replace(sb) => AnimPass {
                        slots: slots2,
                        removes: prev.removes.push(e),
                        adds: prev.adds.push(spec_stage_to_bundle(sb)),
                        ..prev
                    },
                    StepEffect::StartGameplay => AnimPass {
                        slots: slots2,
                        removes: prev.removes.push(e),
                        start: true,
                        ..prev
                    },
                    StepEffect::RequestRestart => AnimPass { slots: slots2, restart: true, ..prev },
                }
            },
            _ => prev,
        },
        None => prev,
    }
}

/// The scan record after folding slots `0 .. i` of the pre-scan store.
pub open spec fn spec_anim_pass(s0: Seq<Slot>, delta: int, i: int) -> AnimPass
    decreases i when 0 <= i <= s0.len()
{
    if i <= 0 {
        AnimPass {
            slots: s0,
            removes: Seq::empty(),
            adds: Seq::empty(),
            start: false,
            restart: false,
        }
    } else {
        spec_anim_pass_step(spec_anim_pass(s0, delta, i - 1), s0, delta, i - 1)
    }
}



/// The scan never changes the number of slots.
pub proof fn lemma_anim_pass_len(s0: Seq<Slot>, delta: int, i: int)
    requires
        0 <= i <= s0.len(),
    ensures
        spec_anim_pass(s0, delta, i).slots.len() == s0.len(),
    decreases i,
{
    if i > 0 {
        lemma_anim_pass_len(s0, delta, i - 1);
    }
}


/// The scan leaves every slot at or after `i` untouched.
pub proof fn lemma_anim_pass_frame(s0: Seq<Slot>, delta: int, i: int, j: int)
    requires
        0 <= i <= j < s0.len(),
    ensures
        spec_anim_pass(s0, delta, i).slots[j] == s0[j],
    decreases i,
{
    if i > 0 {
        lemma_anim_pass_frame(s0, delta, i - 1, j);
        lemma_anim_pass_len(s0, delta, i - 1);
    }
}

/// Relates one executed scan step to the specification fold: given the
/// machine step's result and the accumulator updates the scan made, the
/// folded record equals the new accumulators.
proof fn lemma_anim_fold_step(
    pre: AnimPass,
    s0: Seq<Slot>,
    delta: int,
    i: int,
    out: StepOut,
    ns: Seq<Slot>,
    nr: Seq<Entity>,
    na: Seq<Bundle>,
    nstart: bool,
    nrestart: bool,
)
    requires
        0 <= i < s0.len(),
        s0[i].comps is Some,
        s0[i].comps.unwrap().position is Some,
        s0[i].comps.unwrap().animation is Some,
        out == spec_anim_step(
            s0[i].comps.unwrap().position.unwrap(),
            s0[i].comps.unwrap().animation.unwrap(),
            delta,
        ),
        ns == pre.slots.update(
            i,
            Slot {
                generation: s0[i].generation,
                comps: Some(
                    Bundle {
                        position: Some(out.position),
                        animation: Some(out.animation),
                        ..s0[i].comps.unwrap()
                    },
                ),
            },
        ),
        nr == (if out.effect is Keep || out.effect is RequestRestart {
            pre.removes
        } else {
            pre.removes.push(Entity { index: i as usize, generation: s0[i].generation })
        }),
        na == (match out.effect {
            StepEffect::Replace(sb) => pre.adds.push(spec_stage_to_bundle(sb)),
            _ => pre.adds,
        }),
        nstart == (pre.start || out.effect is StartGameplay),
        nrestart == (pre.restart || out.effect is RequestRestart),
    ensures
        spec_anim_pass_step(pre, s0, delta, i) == (AnimPass {
            slots: ns,
            removes: nr,
            adds: na,
            start: nstart,
            restart: nrestart,
        }),
{
}



/// The scan writes components in place and defers all structural
/// change, so it leaves the number of live entities unchanged.
pub proof fn lemma_anim_pass_alive_count(s0: Seq<Slot>, delta: int, i: int)
    requires
        0 <= i <= s0.len(),
    ensures
        count_alive(spec_anim_pass(s0, delta, i).slots) == count_alive(s0),
    decreases i,
{
    if i > 0 {
        lemma_anim_pass_alive_count(s0, delta, i - 1);
        lemma_anim_pass_len(s0, delta, i - 1);
        let prev = spec_anim_pass(s0, delta, i - 1);
        let slot = s0[i - 1];
        match slot.comps {
            Some(b) => match (b.position, b.animation) {
                (Some(p), Some(a)) => {
                    lemma_anim_pass_frame(s0, delta, i - 1, i - 1);
                    let out = spec_anim_step(p, a, delta);
                    crate::world::lemma_count_alive_update(
                        prev.slots,
                        i - 1,
                        Slot {
                            generation: slot.generation,
                            comps: Some(
                                Bundle {
                                    position: Some(out.position),
                                    animation: Some(out.animation),
                                    ..b
                                },
                            ),
                        },
                    );
                },
                _ => {},
            },
            None => {},
        }
    }
}

/// The handles the scan buffers for despawning name pairwise distinct,
/// still-occupied slots of the scanned store: the buffered despawns
/// meet the command buffer's discipline, each one will in fact remove
/// an entity, and all their indices lie below `i`.
pub proof fn lemma_anim_pass_removes_valid(s0: Seq<Slot>, delta: int, i: int)
    requires
        0 <= i <= s0.len(),
        s0.len() <= usize::MAX,
    ensures
        crate::world::despawns_valid(
            spec_anim_pass(s0, delta, i).slots,
            spec_anim_pass(s0, delta, i).removes,
        ),
        forall|k: int|
            0 <= k < spec_anim_pass(s0, delta, i).removes.len() ==> (#[trigger] spec_anim_pass(
                s0,
                delta,
                i,
            ).removes[k]).index < i,
    decreases i,
{
    if i > 0 {
        lemma_anim_pass_removes_valid(s0, delta, i - 1);
        lemma_anim_pass_len(s0, delta, i - 1);
        lemma_anim_pass_frame(s0, delta, i - 1, i - 1);
        let prev = spec_anim_pass(s0, delta, i - 1);
        let cur = spec_anim_pass(s0, delta, i);
        assert(cur == spec_anim_pass_step(prev, s0, delta, i - 1));
        let slot = s0[i - 1];
        let eligible = slot.comps is Some && slot.comps.unwrap().position is Some
            && slot.comps.unwrap().animation is Some;
        if !eligible {
            assert(cur == prev);
        } else {
            let b = slot.comps.unwrap();
            let out = spec_anim_step(b.position.unwrap(), b.animation.unwrap(), delta);
            let e = Entity { index: (i - 1) as usize, generation: slot.generation };
            // However the step ended, the removes either stay or gain
            // exactly the handle of the slot the step just rewrote.
            assert(cur.removes == prev.removes || cur.removes == prev.removes.push(e));
            assert(cur.slots == prev.slots.update(
                i - 1,
                Slot {
                    generation: slot.generation,
                    comps: Some(
                        Bundle {
                            position: Some(out.position),
                            animation: Some(out.animation),
                            ..b
                        },
                    ),
                },
            ));
            assert(crate::world::slots_contains(cur.slots, e));
            assert forall|k: int| 0 <= k < cur.removes.len() implies crate::world::slots_contains(
                cur.slots,
                #[trigger] cur.removes[k],
            ) && cur.removes[k].index < i by {
                if k < prev.removes.len() {
                    assert(cur.removes[k] == prev.removes[k]);
                    assert(crate::world::slots_contains(prev.slots, prev.removes[k]));
                    assert(prev.removes[k].index < i - 1);
                } else {
                    assert(cur.removes[k] == e);
                }
            }
            assert forall|k: int, l: int|
                0 <= k < l < cur.removes.len() implies (#[trigger] cur.removes[k]).index != (
            #[trigger] cur.removes[l]).index by {
                if l < prev.removes.len() {
                    assert(cur.removes[k] == prev.removes[k]);
                    assert(cur.removes[l] == prev.removes[l]);
                } else {
                    assert(cur.removes[l] == e);
                    assert(cur.removes[k] == prev.removes[k]);
                    assert(prev.removes[k].index < i - 1);
                }
            }
        }
    }
}

/// Law: one animation frame's structural bookkeeping is exact. The scan
/// buffers its despawns and spawns and flushes them only afterwards, so
/// the store ends the flush with precisely
/// `existing - despawned + spawned` live entities.
pub proof fn lemma_animation_frame_count(s0: Seq<Slot>, delta: int)
    requires
        s0.len() <= usize::MAX,
    ensures
        ({
            let pass = spec_anim_pass(s0, delta, s0.len() as int);
            count_alive(apply_commands(pass.slots, pass.removes, pass.adds)) == count_alive(s0)
                - pass.removes.len() + pass.adds.len()
        }),
{
    let pass = spec_anim_pass(s0, delta, s0.len() as int);
    lemma_anim_pass_alive_count(s0, delta, s0.len() as int);
    lemma_anim_pass_removes_valid(s0, delta, s0.len() as int);
    crate::world::lemma_apply_commands_count(pass.slots, pass.removes, pass.adds);
}

/// Law: the scan touches every entity owning a position and an
/// animation exactly once; after it, such a slot holds precisely the
/// position and animation of one machine step on what it held before.
/// With the step laws this carries the clock's per-frame behaviour to
/// every entity of the store at once.
pub proof fn lemma_anim_pass_updates_each_entity(s0: Seq<Slot>, delta: int, i: int, j: int)
    requires
        0 <= j < i <= s0.len(),
        s0[j].comps is Some,
        s0[j].comps.unwrap().position is Some,
        s0[j].comps.unwrap().animation is Some,
    ensures
        ({
            let b = s0[j].comps.unwrap();
            let out = spec_anim_step(b.position.unwrap(), b.animation.unwrap(), delta);
            spec_anim_pass(s0, delta, i).slots[j] == Slot {
                generation: s0[j].generation,
                comps: Some(
                    Bundle { position: Some(out.position), animation: Some(out.animation), ..b },
                ),
            }
        }),
    decreases i,
{
    if i == j + 1 {
        lemma_anim_pass_len(s0, delta, j);
        assert(spec_anim_pass(s0, delta, i) == spec_anim_pass_step(
            spec_anim_pass(s0, delta, j),
            s0,
            delta,
            j,
        ));
    } else {
        lemma_anim_pass_updates_each_entity(s0, delta, i - 1, j);
        lemma_anim_pass_len(s0, delta, i - 1);
        assert(spec_anim_pass(s0, delta, i) == spec_anim_pass_step(
            spec_anim_pass(s0, delta, i - 1),
            s0,
            delta,
            i - 1,
        ));
    }
}

/// A slot occupied by an intro-chain entity: its animation's completion
/// transition is one of the chained hand stages or the final start.
pub open spec fn chain_slot(slot: Slot) -> bool {
    &&& slot.comps matches Some(b)
    &&& b.animation matches Some(a)
    &&& (a.on_animation_finish is Hand3 || a.on_animation_finish is Hand2
        || a.on_animation_finish is Hand1 || a.on_animation_finish is Hand0
        || a.on_animation_finish is Start)
}

/// A bundle that would occupy a slot as an intro-chain entity.
pub open spec fn chain_bundle(b: Bundle) -> bool {
    &&& b.animation matches Some(a)
    &&& (a.on_animation_finish is Hand3 || a.on_animation_finish is Hand2
        || a.on_animation_finish is Hand1 || a.on_animation_finish is Hand0
        || a.on_animation_finish is Start)
}

/// Counts the intro-chain entities of a slot sequence.
pub open spec fn count_chain(s: Seq<Slot>) -> nat
    decreases s.len(),
{
    if s.len() == 0 {
        0
    } else {
        count_chain(s.drop_last()) + (if chain_slot(s.last()) {
            1nat
        } else {
            0nat
        })
    }
}

/// Replacing one slot changes the chain count by the difference the
/// replacement makes.
proof fn lemma_count_chain_update(s: Seq<Slot>, i: int, v: Slot)
    requires
        0 <= i < s.len(),
    ensures
        count_chain(s.update(i, v)) == count_chain(s) + (if chain_slot(v) {
            1int
        } else {
            0int
        }) - (if chain_slot(s[i]) {
            1int
        } else {
            0int
        }),
    decreases s.len(),
{
    let t = s.update(i, v);
    assert(t.len() == s.len());
    if i == s.len() - 1 {
        assert(t.drop_last() =~= s.drop_last());
        assert(t.last() == v);
    } else {
        assert(t.drop_last() =~= s.drop_last().update(i, v));
        assert(t.last() == s.last());
        lemma_count_chain_update(s.drop_last(), i, v);
    }
}

/// Appending a slot adds its chain membership to the count.
proof fn lemma_count_chain_push(s: Seq<Slot>, v: Slot)
    ensures
        count_chain(s.push(v)) == count_chain(s) + (if chain_slot(v) {
            1int
        } else {
            0int
        }),
{
    let t = s.push(v);
    assert(t.drop_last() =~= s);
    assert(t.last() == v);
}

/// Counts, among the pending despawns `rs[k..]`, those whose slot in
/// `s` holds an intro-chain entity.
pub open spec fn count_chain_removes(s: Seq<Slot>, rs: Seq<Entity>, k: int) -> nat
    decreases rs.len() - k when 0 <= k <= rs.len()
{
    if k >= rs.len() {
        0
    } else {
        (if chain_slot(s[rs[k].index as int]) {
            1nat
        } else {
            0nat
        }) + count_chain_removes(s, rs, k + 1)
    }
}

/// Counts the intro-chain bundles among the pending spawns `bs[k..]`.
pub open spec fn count_chain_bundles(bs: Seq<Bundle>, k: int) -> nat
    decreases bs.len() - k when 0 <= k <= bs.len()
{
    if k >= bs.len() {
        0
    } else {
        (if chain_bundle(bs[k]) {
            1nat
        } else {
            0nat
        }) + count_chain_bundles(bs, k + 1)
    }
}


/// Appending a pending despawn appends its slot's chain membership.
proof fn lemma_chain_removes_push(s: Seq<Slot>, rs: Seq<Entity>, e: Entity, k: int)
    requires
        0 <= k <= rs.len(),
    ensures
        count_chain_removes(s, rs.push(e), k) == count_chain_removes(s, rs, k) + (if chain_slot(
            s[e.index as int],
        ) {
            1int
        } else {
            0int
        }),
    decreases rs.len() - k,
{
    if k < rs.len() {
        assert(rs.push(e)[k] == rs[k]);
        lemma_chain_removes_push(s, rs, e, k + 1);
    } else {
        assert(rs.push(e)[k] == e);
        assert(count_chain_removes(s, rs.push(e), k + 1) == 0);
    }
}

/// Appending a pending spawn appends its chain membership.
proof fn lemma_chain_bundles_push(bs: Seq<Bundle>, b: Bundle, k: int)
    requires
        0 <= k <= bs.len(),
    ensures
        count_chain_bundles(bs.push(b), k) == count_chain_bundles(bs, k) + (if chain_bundle(b) {
            1int
        } else {
            0int
        }),
    decreases bs.len() - k,
{
    if k < bs.len() {
        assert(bs.push(b)[k] == bs[k]);
        lemma_chain_bundles_push(bs, b, k + 1);
    } else {
        assert(bs.push(b)[k] == b);
        assert(count_chain_bundles(bs.push(b), k + 1) == 0);
    }
}

/// Two stores that agree on the chain membership of every despawned
/// slot yield the same chain tally of the pending despawns.
proof fn lemma_chain_removes_same(s: Seq<Slot>, t: Seq<Slot>, rs: Seq<Entity>, k: int)
    requires
        0 <= k <= rs.len(),
        forall|j: int|
            k <= j < rs.len() ==> chain_slot(t[(#[trigger] rs[j]).index as int]) == chain_slot(
                s[rs[j].index as int],
            ),
    ensures
        count_chain_removes(t, rs, k) == count_chain_removes(s, rs, k),
    decreases rs.len() - k,
{
    if k < rs.len() {
        lemma_chain_removes_same(s, t, rs, k + 1);
    }
}

/// Flushing valid, pairwise distinct despawns removes exactly the
/// chain entities among them from the chain count.
proof fn lemma_despawns_chain_count(s: Seq<Slot>, ds: Seq<Entity>, k: int)
    requires
        0 <= k <= ds.len(),
        crate::world::despawns_valid_from(s, ds, k),
    ensures
        count_chain(apply_despawns_from(s, ds, k)) == count_chain(s) - count_chain_removes(
            s,
            ds,
            k,
        ),
    decreases ds.len() - k,
{
    if k < ds.len() {
        let e = ds[k];
        assert(crate::world::slots_contains(s, e));
        let t = crate::world::slots_despawn(s, e);
        lemma_count_chain_update(s, e.index as int, Slot { generation: e.generation, comps: None });
        assert forall|j: int| k + 1 <= j < ds.len() implies crate::world::slots_contains(
            t,
            #[trigger] ds[j],
        ) by {
            assert(ds[j].index != e.index);
            assert(crate::world::slots_contains(s, ds[j]));
        }
        assert forall|j: int|
            k + 1 <= j < ds.len() implies chain_slot(t[(#[trigger] ds[j]).index as int])
            == chain_slot(s[ds[j].index as int]) by {
            assert(ds[j].index != e.index);
        }
        lemma_chain_removes_same(s, t, ds, k + 1);
        lemma_despawns_chain_count(t, ds, k + 1);
        // The count of the remaining removes against s splits off the
        // head entry.
        assert(count_chain_removes(s, ds, k) == (if chain_slot(s[e.index as int]) {
            1int
        } else {
            0int
        }) + count_chain_removes(s, ds, k + 1));
    }
}

/// Flushing spawns adds exactly the chain bundles among them to the
/// chain count.
proof fn lemma_spawns_chain_count(s: Seq<Slot>, bs: Seq<Bundle>, k: int)
    requires
        0 <= k <= bs.len(),
    ensures
        count_chain(apply_spawns_from(s, bs, k)) == count_chain(s) + count_chain_bundles(bs, k),
    decreases bs.len() - k,
{
    if k < bs.len() {
        let b = bs[k];
        let t = crate::world::slots_spawn(s, b);
        let i = crate::world::first_free_from(s, 0);
        crate::world::lemma_first_free_in_range(s, 0);
        if i < s.len() {
            lemma_count_chain_update(
                s,
                i,
                Slot { generation: (s[i].generation + 1) as u64, comps: Some(b) },
            );
        } else {
            lemma_count_chain_push(s, Slot { generation: 0, comps: Some(b) });
        }
        lemma_spawns_chain_count(t, bs, k + 1);
    }
}

/// What each structural effect says about the slot it came from: a
/// replacement or the start flag comes only from a chain stage, and a
/// plain removal only from a despawn-on-completion animation.
proof fn lemma_effect_classification(p: Position, a: Animation, delta: int)
    ensures
        ({
            let out = spec_anim_step(p, a, delta);
            &&& (out.effect matches StepEffect::Replace(sb) ==> (a.on_animation_finish is Hand3
                || a.on_animation_finish is Hand2 || a.on_animation_finish is Hand1
                || a.on_animation_finish is Hand0) && chain_bundle(spec_stage_to_bundle(sb)))
            &&& (out.effect is StartGameplay ==> a.on_animation_finish is Start)
            &&& (out.effect is Remove ==> a.on_animation_finish is Despawn)
        }),
{
    reveal(crate::animation::spec_complete);
}

/// The scan preserves each slot's chain membership and the total chain
/// count, and balances its books: every buffered chain spawn, and the
/// start flag, is covered by a buffered despawn of a chain slot.
proof fn lemma_anim_pass_chain(s0: Seq<Slot>, delta: int, i: int)
    requires
        0 <= i <= s0.len(),
        s0.len() <= usize::MAX,
    ensures
        ({
            let pass = spec_anim_pass(s0, delta, i);
            &&& (forall|j: int|
                0 <= j < s0.len() ==> chain_slot(#[trigger] pass.slots[j]) == chain_slot(s0[j]))
            &&& count_chain(pass.slots) == count_chain(s0)
            &&& count_chain_bundles(pass.adds, 0) + (if pass.start {
                1int
            } else {
                0int
            }) <= count_chain_removes(s0, pass.removes, 0)
        }),
    decreases i,
{
    if i > 0 {
        lemma_anim_pass_chain(s0, delta, i - 1);
        lemma_anim_pass_len(s0, delta, i - 1);
        lemma_anim_pass_frame(s0, delta, i - 1, i - 1);
        let prev = spec_anim_pass(s0, delta, i - 1);
        let cur = spec_anim_pass(s0, delta, i);
        assert(cur == spec_anim_pass_step(prev, s0, delta, i - 1));
        let slot = s0[i - 1];
        let eligible = slot.comps is Some && slot.comps.unwrap().position is Some
            && slot.comps.unwrap().animation is Some;
        if !eligible {
            assert(cur == prev);
        } else {
            let b = slot.comps.unwrap();
            let p = b.position.unwrap();
            let a = b.animation.unwrap();
            let out = spec_anim_step(p, a, delta);
            let e = Entity { index: (i - 1) as usize, generation: slot.generation };
            let v = Slot {
                generation: slot.generation,
                comps: Some(
                    Bundle { position: Some(out.position), animation: Some(out.animation), ..b },
                ),
            };
            crate::animation::lemma_step_preserves_on_finish(p, a, delta);
            assert(chain_slot(v) == chain_slot(slot));
            assert(cur.slots == prev.slots.update(i - 1, v));
            lemma_count_chain_update(prev.slots, i - 1, v);
            assert(prev.slots[i - 1] == slot);
            lemma_effect_classification(p, a, delta);
            match out.effect {
                StepEffect::Keep => {},
                StepEffect::Remove => {
                    lemma_chain_removes_push(s0, prev.removes, e, 0);
                    assert(!chain_slot(s0[i - 1]));
                },
                StepEffect::Replace(sb) => {
                    lemma_chain_removes_push(s0, prev.removes, e, 0);
                    lemma_chain_bundles_push(prev.adds, spec_stage_to_bundle(sb), 0);
                    assert(chain_slot(s0[i - 1]));
                    assert(chain_bundle(spec_stage_to_bundle(sb)));
                },
                StepEffect::StartGameplay => {
                    lemma_chain_removes_push(s0, prev.removes, e, 0);
                    assert(chain_slot(s0[i - 1]));
                },
                StepEffect::RequestRestart => {},
            }
        }
    }
}

/// Law: an animation frame never grows the intro chain, and the
/// start-gameplay event consumes one chain entity for good. With at
/// most one chain entity before the frame, at most one exists after
/// it, and none at all on the frame that starts gameplay: no
/// intermediate stage of the intro ever leaks.
pub proof fn lemma_frame_chain_bound(s0: Seq<Slot>, delta: int)
    requires
        s0.len() <= usize::MAX,
    ensures
        ({
            let pass = spec_anim_pass(s0, delta, s0.len() as int);
            let r = apply_commands(pass.slots, pass.removes, pass.adds);
            count_chain(r) + (if pass.start {
                1int
            } else {
                0int
            }) <= count_chain(s0)
        }),
{
    let n = s0.len() as int;
    let pass = spec_anim_pass(s0, delta, n);
    lemma_anim_pass_chain(s0, delta, n);
    lemma_anim_pass_removes_valid(s0, delta, n);
    lemma_anim_pass_len(s0, delta, n);
    lemma_despawns_chain_count(pass.slots, pass.removes, 0);
    assert forall|j: int|
        0 <= j < pass.removes.len() implies chain_slot(
        s0[(#[trigger] pass.removes[j]).index as int]) == chain_slot(
        pass.slots[pass.removes[j].index as int]) by {
        assert(crate::world::slots_contains(pass.slots, pass.removes[j]));
    }
    lemma_chain_removes_same(pass.slots, s0, pass.removes, 0);
    let d = apply_despawns_from(pass.slots, pass.removes, 0);
    lemma_spawns_chain_count(d, pass.adds, 0);
}


/// A slot whose machine step kept its entity in place is never named by
/// the scan's buffered despawns.
proof fn lemma_keep_not_removed(s0: Seq<Slot>, delta: int, i: int, j: int)
    requires
        0 <= i <= s0.len(),
        s0.len() <= usize::MAX,
        0 <= j < s0.len(),
        s0[j].comps is Some,
        s0[j].comps.unwrap().position is Some,
        s0[j].comps.unwrap().animation is Some,
        ({
            let b = s0[j].comps.unwrap();
            let out = spec_anim_step(b.position.unwrap(), b.animation.unwrap(), delta);
            out.effect is Keep || out.effect is RequestRestart
        }),
    ensures
        forall|k: int|
            0 <= k < spec_anim_pass(s0, delta, i).removes.len() ==> (#[trigger] spec_anim_pass(
                s0,
                delta,
                i,
            ).removes[k]).index != j,
    decreases i,
{
    if i > 0 {
        lemma_keep_not_removed(s0, delta, i - 1, j);
        let prev = spec_anim_pass(s0, delta, i - 1);
        let cur = spec_anim_pass(s0, delta, i);
        assert(cur == spec_anim_pass_step(prev, s0, delta, i - 1));
        if i - 1 != j {
            assert forall|k: int| 0 <= k < cur.removes.len() implies (#[trigger] cur.removes[k]).index
                != j by {
                if k < prev.removes.len() {
                    assert(cur.removes[k] == prev.removes[k]);
                }
            }
        }
    }
}

/// Despawns never touch a slot none of them names.
proof fn lemma_despawns_skip_unnamed(s: Seq<Slot>, ds: Seq<Entity>, k: int, j: int)
    requires
        0 <= k <= ds.len(),
        0 <= j < s.len(),
        forall|l: int| 0 <= l < ds.len() ==> (#[trigger] ds[l]).index != j,
    ensures
        apply_despawns_from(s, ds, k).len() == s.len(),
        apply_despawns_from(s, ds, k)[j] == s[j],
    decreases ds.len() - k,
{
    if k < ds.len() {
        lemma_despawns_skip_unnamed(crate::world::slots_despawn(s, ds[k]), ds, k + 1, j);
    }
}

/// Spawns fill only free slots, so an occupied slot is never touched.
proof fn lemma_spawns_skip_occupied(s: Seq<Slot>, bs: Seq<Bundle>, k: int, j: int)
    requires
        0 <= k <= bs.len(),
        0 <= j < s.len(),
        s[j].comps is Some,
    ensures
        j < apply_spawns_from(s, bs, k).len(),
        apply_spawns_from(s, bs, k)[j] == s[j],
    decreases bs.len() - k,
{
    if k < bs.len() {
        let t = crate::world::slots_spawn(s, bs[k]);
        crate::world::lemma_first_free_in_range(s, 0);
        assert(t[j] == s[j]);
        lemma_spawns_skip_occupied(t, bs, k + 1, j);
    }
}

/// Law: a Repeat or Repeat-with-swap completion never despawns its
/// entity. After the whole frame -- scan, buffered despawns, buffered
/// spawns -- the slot still holds it, its clock rewound by exactly one
/// duration, and below the duration again as long as the frame did not
/// overshoot a whole further period. The one excluded input is a clock
/// past its machine cap, where it saturates instead.
pub proof fn lemma_repeat_survives_frame(s0: Seq<Slot>, delta: int, j: int)
    requires
        s0.len() <= usize::MAX,
        crate::world::slots_wf(s0),
        0 <= delta <= crate::math::DELTA_CAP,
        0 <= j < s0.len(),
        s0[j].comps is Some,
        s0[j].comps.unwrap().position is Some,
        s0[j].comps.unwrap().animation is Some,
        ({
            let a = s0[j].comps.unwrap().animation.unwrap();
            &&& (a.on_animation_finish is Repeat || a.on_animation_finish is RepeatBubble)
            &&& a.past_time + delta >= a.duration
            &&& a.past_time + delta <= crate::math::TIME_CAP
        }),
    ensures
        ({
            let pass = spec_anim_pass(s0, delta, s0.len() as int);
            let r = apply_commands(pass.slots, pass.removes, pass.adds);
            let a = s0[j].comps.unwrap().animation.unwrap();
            &&& 0 <= j < r.len()
            &&& r[j].comps is Some
            &&& r[j].comps.unwrap().animation is Some
            &&& r[j].comps.unwrap().animation.unwrap().past_time == a.past_time + delta
                - a.duration
            &&& (a.past_time + delta < 2 * a.duration ==> r[j].comps.unwrap().animation.unwrap()
                .past_time < a.duration)
        }),
{
    let n = s0.len() as int;
    let b = s0[j].comps.unwrap();
    let p = b.position.unwrap();
    let a = b.animation.unwrap();
    let out = spec_anim_step(p, a, delta);
    crate::animation::lemma_repeat_rewinds_exactly(p, a, delta);
    lemma_repeat_effect_is_keep(p, a, delta);
    lemma_anim_pass_updates_each_entity(s0, delta, n, j);
    lemma_anim_pass_len(s0, delta, n);
    lemma_keep_not_removed(s0, delta, n, j);
    let pass = spec_anim_pass(s0, delta, n);
    lemma_despawns_skip_unnamed(pass.slots, pass.removes, 0, j);
    let d = apply_despawns_from(pass.slots, pass.removes, 0);
    lemma_spawns_skip_occupied(d, pass.adds, 0, j);
}

/// A fired Repeat or Repeat-with-swap completion keeps the entity.
proof fn lemma_repeat_effect_is_keep(p: Position, a: Animation, delta: int)
    requires
        a.on_animation_finish is Repeat || a.on_animation_finish is RepeatBubble,
    ensures
        spec_anim_step(p, a, delta).effect is Keep,
{
    reveal(crate::animation::spec_complete);
}

/// The competitor pan spawned `k`-th at gameplay start: each pan orbits
/// with a different time offset and carries its own color and score
/// record.
pub open spec fn spec_fry_bundle(k: int) -> Bundle {
    Bundle {
        position: Some(Position { x: 0, y: (-10000) as i64, z: 0 }),
        rotation: Some(Rotation { x: 0, y: 0, z: 0 }),
        mesh_instance: Some(
            MeshInstance {
                model_name: if k == 0 {
                    TexturedModelName::FryPanBlack
                } else if k == 1 {
                    TexturedModelName::FryPanWhite
                } else if k == 2 {
                    TexturedModelName::FryPanBlue
                } else {
                    TexturedModelName::FryPanRed
                },
            },
        ),
        fry_assignment: Some(FryAssignment { id: k as u32, score: 0 }),
        animation: Some(
            Animation {
                duration: 5000,
                past_time: (7500 * (k + 1)) as i64,
                animation_type: AnimationType::FryerSpin0,
                on_animation_finish: OnAnimationFinish::Fryer,
                target_x: 0,
                target_y: (-10000) as i64,
                target_z: 0,
            },
        ),
        ..Bundle::spec_empty()
    }
}

/// The `k`-th simulated actor spawned at gameplay start: placed on a
/// grid, its starting velocity drawn from the seeded generator.
pub open spec fn spec_potato_bundle(k: int, v: Velocity) -> Bundle {
    Bundle {
        position: Some(Position { x: ((k % 10) * 1000) as i64, y: 0, z: ((k / 10) * 1000) as i64 }),
        velocity: Some(v),
        rotation: Some(Rotation { x: 0, y: 0, z: 0 }),
        mesh_instance: Some(MeshInstance { model_name: TexturedModelName::Potato }),
        collider: Some(
            SphereCollider {
                radius: 1000,
                gravity: true,
                body_index: 0,
                has_been_registered: false,
            },
        ),
        controller_assignment: Some(ControllerAssignment { id: 0 }),
        ..Bundle::spec_empty()
    }
}

/// The 24 bundles of one-time gameplay setup: four competitor pans, then
/// twenty actors with the given starting velocities.
pub open spec fn spec_gameplay_bundles(vels: Seq<Velocity>) -> Seq<Bundle> {
    Seq::new(
        24,
        |k: int|
            if k < 4 {
                spec_fry_bundle(k)
            } else {
                spec_potato_bundle(k - 4, vels[k - 4])
            },
    )
}

/// The store after one-time gameplay setup.
pub open spec fn spec_spawn_gameplay(s: Seq<Slot>, vels: Seq<Velocity>) -> Seq<Slot> {
    apply_spawns_from(s, spec_gameplay_bundles(vels), 0)
}

/// The store `s3` is `s2` after one-time gameplay setup with twenty
/// bounded starting velocities.
pub open spec fn spec_gameplay_outcome(s2: Seq<Slot>, s3: Seq<Slot>, vels: Seq<Velocity>) -> bool {
    &&& vels.len() == 20
    &&& (forall|k: int| 0 <= k < 20 ==> velocity_wf(#[trigger] vels[k]))
    &&& s3 == spec_spawn_gameplay(s2, vels)
}

/// Law: one-time gameplay setup spawns exactly the four competitor
/// pans and the twenty actors -- twenty-four entities, no more and no
/// fewer, whatever velocities were drawn.
pub proof fn lemma_gameplay_spawn_count(s: Seq<Slot>, vels: Seq<Velocity>)
    ensures
        count_alive(spec_spawn_gameplay(s, vels)) == count_alive(s) + 24,
{
    lemma_apply_spawns_count(s, spec_gameplay_bundles(vels), 0);
}

/// Builds the `k`-th competitor pan bundle.
fn fry_bundle(k: usize) -> (r: Bundle)
    requires
        k < 4,
    ensures
        r == spec_fry_bundle(k as int),
        bundle_wf(r),
{
    let mesh = if k == 0 {
        TexturedModelName::FryPanBlack
    } else if k == 1 {
        TexturedModelName::FryPanWhite
    } else if k == 2 {
        TexturedModelName::FryPanBlue
    } else {
        TexturedModelName::FryPanRed
    };
    let mut b = Bundle::empty();
    b.position = Some(Position { x: 0, y: -10000, z: 0 });
    b.rotation = Some(Rotation { x: 0, y: 0, z: 0 });
    b.mesh_instance = Some(MeshInstance { model_name: mesh });
    b.fry_assignment = Some(FryAssignment { id: k as u32, score: 0 });
    b.animation = Some(
        Animation {
            duration: 5000,
            past_time: 7500 * (k as i64 + 1),
            animation_type: AnimationType::FryerSpin0,
            on_animation_finish: OnAnimationFinish::Fryer,
            target_x: 0,
            target_y: -10000,
            target_z: 0,
        },
    );
    b
}

/// Builds the `k`-th actor bundle with the drawn starting velocity.
fn potato_bundle(k: usize, v: Velocity) -> (r: Bundle)
    requires
        k < 20,
        velocity_wf(v),
    ensures
        r == spec_potato_bundle(k as int, v),
        bundle_wf(r),
{
    let mut b = Bundle::empty();
    b.position = Some(
        Position { x: (k as i64 % 10) * 1000, y: 0, z: (k as i64 / 10) * 1000 },
    );
    b.velocity = Some(v);
    b.rotation = Some(Rotation { x: 0, y: 0, z: 0 });
    b.mesh_instance = Some(MeshInstance { model_name: TexturedModelName::Potato });
    b.collider = Some(
        SphereCollider { radius: 1000, gravity: true, body_index: 0, has_been_registered: false },
    );
    b.controller_assignment = Some(ControllerAssignment { id: 0 });
    b
}

/// Draws the twenty starting velocities from the fixed-seed generator;
/// each component lands in 0 ..= 100 milli-units, whatever the generator
/// produced.
fn draw_velocities() -> (r: Vec<Velocity>)
    ensures
        r@.len() == 20,
        forall|k: int| 0 <= k < 20 ==> velocity_wf(#[trigger] r@[k]),
{
    let mut rng = rng_from_seed(10u64);
    let mut r: Vec<Velocity> = Vec::new();
    let mut k: usize = 0;
    while k < 20
        invariant
            0 <= k <= 20,
            r@.len() == k,
            forall|j: int| 0 <= j < k ==> velocity_wf(#[trigger] r@[j]),
        decreases 20 - k,
    {
        let x = scale_draw(rng_next_u32(&mut rng), 100);
        let y = scale_draw(rng_next_u32(&mut rng), 100);
        let z = scale_draw(rng_next_u32(&mut rng), 100);
        r.push(Velocity { x, y, z });
        k += 1;
    }
    r
}

/// Performs one-time gameplay setup: spawns the four competitor pans and
/// the twenty actors, in that order.
fn spawn_gameplay(world: &mut World, vels: &Vec<Velocity>)
    requires
        old(world).wf(),
        vels@.len() == 20,
        forall|k: int| 0 <= k < 20 ==> velocity_wf(#[trigger] vels@[k]),
    ensures
        final(world).slots@ == spec_spawn_gameplay(old(world).slots@, vels@),
        final(world).wf(),
{
    let ghost s0 = world.slots@;
    let mut bs: Vec<Bundle> = Vec::new();
    let mut k: usize = 0;
    while k < 4
        invariant
            0 <= k <= 4,
            bs@.len() == k,
            forall|j: int| 0 <= j < k ==> bs@[j] == spec_fry_bundle(j) && bundle_wf(#[trigger] bs@[j]),
        decreases 4 - k,
    {
        bs.push(fry_bundle(k));
        k += 1;
    }
    let mut t: usize = 0;
    while t < 20
        invariant
            0 <= t <= 20,
            vels@.len() == 20,
            forall|k: int| 0 <= k < 20 ==> velocity_wf(#[trigger] vels@[k]),
            bs@.len() == 4 + t,
            forall|j: int| 0 <= j < 4 ==> bs@[j] == spec_fry_bundle(j) && bundle_wf(#[trigger] bs@[j]),
            forall|j: int|
                4 <= j < 4 + t ==> bs@[j] == spec_potato_bundle(j - 4, vels@[j - 4]) && bundle_wf(
                    #[trigger] bs@[j],
                ),
        decreases 20 - t,
    {
        bs.push(potato_bundle(t, vels[t]));
        t += 1;
    }
    proof {
        assert(bs@ =~= spec_gameplay_bundles(vels@));
    }
    let cb = CommandBuffer { despawns: Vec::new(), spawns: bs };
    cb.apply(world);
    proof {
        assert(apply_despawns_from(s0, cb.despawns@, 0) == s0);
        crate::world::lemma_apply_spawns_wf(s0, cb.spawns@, 0);
    }
}

/// The animation transition: every entity owning a position and an
/// animation advances by one machine step; the buffered despawns and
/// then the buffered spawns are flushed; the start-gameplay flag moves
/// Hands to Playing and performs one-time gameplay setup; the restart
/// flag records the pending full-rebuild request (a later request in
/// the same frame overwrites an earlier one).
pub open spec fn spec_animation_rel(a: GameState, b: GameState) -> bool {
    &&& state_inv(b)
    &&& crate::game_state::phase_step_ok(a.playmode, b.playmode)
    &&& ({
        let pass = spec_anim_pass(
            a.world.slots@,
            a.changes.delta_time as int,
            a.world.slots@.len() as int,
        );
        let s2 = apply_commands(pass.slots, pass.removes, pass.adds);
        let started = pass.start && a.playmode is Hands;
        &&& b.playmode == (if started {
            PlayMode::Playing
        } else {
            a.playmode
        })
        &&& b.next_state == (if pass.restart {
            Some(GameStateName::BouncingCubes)
        } else {
            a.next_state
        })
        &&& (started ==> exists|vels: Seq<Velocity>|
            #[trigger] spec_gameplay_outcome(s2, b.world.slots@, vels))
        &&& (!started ==> b.world.slots@ == s2)
        &&& b == (GameState {
            playmode: b.playmode,
            world: b.world,
            next_state: b.next_state,
            ..a
        })
    })
}


/// Law: away from the one-time gameplay spawn, the animation transition
/// is a function of the state alone: two runs from equal states end
/// with bit-identical worlds, phases and rebuild requests. On the spawn
/// frame the drawn starting velocities are existentially bound, so
/// equality is a property of the build, checked at runtime instead.
pub proof fn lemma_animation_rel_deterministic(a: GameState, b1: GameState, b2: GameState)
    requires
        spec_animation_rel(a, b1),
        spec_animation_rel(a, b2),
        !(spec_anim_pass(
            a.world.slots@,
            a.changes.delta_time as int,
            a.world.slots@.len() as int,
        ).start && a.playmode is Hands),
    ensures
        b1.world.slots@ == b2.world.slots@,
        b1.playmode == b2.playmode,
        b1.next_state == b2.next_state,
        b1.changes == b2.changes,
        b1.is_running == b2.is_running,
        b1.systems@ == b2.systems@,
        b1.frame_meshes@ == b2.frame_meshes@,
        b1.frame_texts@ == b2.frame_texts@,
{
}

/// Advances every entity owning a position and an animation by one
/// machine step, applies the buffered despawns and then the buffered
/// spawns, and honors the two frame flags: the start-gameplay flag moves
/// Hands to Playing and performs one-time gameplay setup; the restart
/// flag records the pending full-rebuild request.
#[verifier::rlimit(100)]
#[verifier::spinoff_prover]
pub fn system_animation(state: &mut GameState)
    requires
        state_inv(*old(state)),
    ensures
        spec_animation_rel(*old(state), *final(state)),
{
    let ghost s0 = state.world.slots@;
    let ghost delta_g = state.changes.delta_time as int;
    let delta = state.changes.delta_time;
    let n = state.world.len();
    let mut removes: Vec<Entity> = Vec::new();
    let mut adds: Vec<Bundle> = Vec::new();
    let mut start_playing: bool = false;
    let mut restart: bool = false;
    let mut i: usize = 0;
    while i < n
        invariant
            0 <= i <= n,
            n == s0.len(),
            state.world.slots@.len() == s0.len(),
            state_inv(*state),
            forall|j: int| i <= j < n ==> state.world.slots@[j] == s0[j],
            spec_anim_pass(s0, delta_g, i as int).slots == state.world.slots@,
            spec_anim_pass(s0, delta_g, i as int).removes == removes@,
            spec_anim_pass(s0, delta_g, i as int).adds == adds@,
            spec_anim_pass(s0, delta_g, i as int).start == start_playing,
            spec_anim_pass(s0, delta_g, i as int).restart == restart,
            forall|j: int| 0 <= j < adds@.len() ==> bundle_wf(#[trigger] adds@[j]),
            delta == state.changes.delta_time,
            delta_g == delta as int,
            *state == (GameState { world: state.world, ..*old(state) }),
        decreases n - i,
    {
        let ghost pre = spec_anim_pass(s0, delta_g, i as int);
        proof {
            assert(pre.slots == state.world.slots@);
            assert(pre.removes == removes@);
            assert(pre.adds == adds@);
        }
        let pos = state.world.get_position(i);
        let anim = state.world.get_animation(i);
        match (pos, anim) {
            (Some(p), Some(a)) => {
                let out = anim_step(p, a, delta);
                state.world.set_motion(i, out.position, out.animation);
                let g = state.world.slots[i].generation;
                let e = Entity { index: i, generation: g };
                match out.effect {
                    StepEffect::Keep => {},
                    StepEffect::Remove => {
                        removes.push(e);
                    },
                    StepEffect::Replace(sb) => {
                        removes.push(e);
                        let mut nb = Bundle::empty();
                        nb.position = Some(sb.position);
                        nb.rotation = Some(sb.rotation);
                        nb.animation = Some(sb.animation);
                        nb.mesh_instance = Some(sb.mesh_instance);
                        proof {
                            assert(nb == spec_stage_to_bundle(sb));
                        }
                        adds.push(nb);
                    },
                    StepEffect::StartGameplay => {
                        removes.push(e);
                        start_playing = true;
                    },
                    StepEffect::RequestRestart => {
                        restart = true;
                    },
                }
                proof {
                    assert(spec_anim_pass(s0, delta_g, i as int + 1) == spec_anim_pass_step(
                        pre,
                        s0,
                        delta_g,
                        i as int,
                    ));
                    lemma_anim_fold_step(
                        pre,
                        s0,
                        delta_g,
                        i as int,
                        out,
                        state.world.slots@,
                        removes@,
                        adds@,
                        start_playing,
                        restart,
                    );
                }
            },
            _ => {
                proof {
                    assert(spec_anim_pass(s0, delta_g, i as int + 1) == spec_anim_pass_step(
                        pre,
                        s0,
                        delta_g,
                        i as int,
                    ));
                }
            },
        }
        i += 1;
    }
    let ghost pass = spec_anim_pass(s0, delta_g, n as int);
    let cb = CommandBuffer { despawns: removes, spawns: adds };
    cb.apply(&mut state.world);
    proof {
        lemma_apply_commands_wf(pass.slots, pass.removes, pass.adds);
    }
    let ghost s2 = state.world.slots@;
    let started = start_playing && matches!(state.playmode, PlayMode::Hands);
    if started {
        state.playmode = PlayMode::Playing;
        let vels = draw_velocities();
        spawn_gameplay(&mut state.world, &vels);
        proof {
            assert(spec_gameplay_outcome(s2, state.world.slots@, vels@));
        }
    }
    if restart {
        state.next_state = Some(GameStateName::BouncingCubes);
    }
}

/// The game master's transition: the composition of its four
/// sub-systems' transitions, each run exactly once, in the fixed order
/// animation, camera, phase start, finish detection.
pub open spec fn spec_gamemaster_rel(a: GameState, b: GameState) -> bool {
    exists|s1: GameState, s2: GameState, s3: GameState|
        #![trigger spec_animation_rel(a, s1), spec_camera_movement_rel(s1, s2), spec_game_start_rel(s2, s3)]
        {
            &&& spec_animation_rel(a, s1)
            &&& spec_camera_movement_rel(s1, s2)
            &&& spec_game_start_rel(s2, s3)
            &&& spec_game_finish_rel(s3, b)
        }
}

/// The game master: the animation machine, the camera pass, the phase
/// start, and the finish detection, in that fixed order.
pub fn system_gamemaster(state: &mut GameState)
    requires
        state_inv(*old(state)),
    ensures
        spec_gamemaster_rel(*old(state), *final(state)),
        state_inv(*final(state)),
        crate::game_state::phase_le(old(state).playmode, final(state).playmode),
        old(state).playmode is Selection ==> final(state).playmode is Hands,
        final(state).changes == old(state).changes,
        final(state).systems@ == old(state).systems@,
        final(state).is_running == old(state).is_running,
{
    let ghost a0 = *state;
    system_animation(state);
    let ghost s1 = *state;
    system_camera_movement(state);
    let ghost s2 = *state;
    system_game_start(state);
    let ghost s3 = *state;
    system_game_finish(state);
    proof {
        assert(spec_animation_rel(a0, s1));
        assert(spec_camera_movement_rel(s1, s2));
        assert(spec_game_start_rel(s2, s3));
        assert(spec_game_finish_rel(s3, *state));
        assert(spec_gamemaster_rel(a0, *state));
    }
}

} // verus!
