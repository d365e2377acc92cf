//! Systems reacting to the controller snapshot.

use crate::components::motion::Velocity;
use crate::controls::Direction;
use crate::game_state::GameState;
use crate::game_state::state_inv;
use crate::math::POS_LIMIT;
use crate::math::add_clamp;
use crate::math::spec_add_clamp;
use crate::rng::rng_from_seed;
use crate::rng::rng_next_u32;
use crate::rng::scale_draw;
use crate::world::Bundle;
use crate::world::Slot;
use vstd::prelude::*;

verus! {

/// The exit system's transition: the running flag survives exactly when
/// it was set and the first controller's home button is up; nothing else
/// changes.
pub open spec fn spec_exit_action_rel(a: GameState, b: GameState) -> bool {
    &&& state_inv(b)
    &&& b.is_running == (a.is_running && !a.changes.controls.wii_mote_controls@[0].home_button_down)
    &&& b == (GameState { is_running: b.is_running, ..a })
}

/// Stops the game from running once the first controller's home button
/// is pressed; a stopped game never resumes.
pub fn system_exit_action(state: &mut GameState)
    requires
        state_inv(*old(state)),
    ensures
        spec_exit_action_rel(*old(state), *final(state)),
{
    if state.is_running {
        let home = state.changes.controls.wii_mote_controls[0].home_button_down;
        state.is_running = !home;
    }
}

/// A bundle with its velocity, if it has one, set to zero.
pub open spec fn spec_stopped_bundle(b: Bundle) -> Bundle {
    if b.velocity is Some {
        Bundle { velocity: Some(Velocity { x: 0, y: 0, z: 0 }), ..b }
    } else {
        b
    }
}

/// The stop system's transition: while the one button is down every
/// velocity becomes zero, slot for slot; otherwise nothing changes.
pub open spec fn spec_stop_action_rel(a: GameState, b: GameState) -> bool {
    &&& state_inv(b)
    &&& (!a.changes.controls.wii_mote_controls@[0].one_button_down ==> b == a)
    &&& (a.changes.controls.wii_mote_controls@[0].one_button_down ==> {
        &&& b.world.slots@.len() == a.world.slots@.len()
        &&& (forall|j: int|
            0 <= j < a.world.slots@.len() ==> b.world.slots@[j] == spec_stopped_slot(
                #[trigger] a.world.slots@[j],
            ))
        &&& b == (GameState { world: b.world, ..a })
    })
}

/// Sets every velocity in the world to zero while the first controller's
/// one button is down.
pub fn system_stop_action(state: &mut GameState)
    requires
        state_inv(*old(state)),
    ensures
        spec_stop_action_rel(*old(state), *final(state)),
{
    let pressed = state.changes.controls.wii_mote_controls[0].one_button_down;
    if !pressed {
        return ;
    }
    let ghost s0 = state.world.slots@;
    let n = state.world.len();
    let mut i: usize = 0;
    while i < n
        invariant
            0 <= i <= n,
            n == state.world.slots@.len(),
            state.world.slots@.len() == s0.len(),
            forall|j: int| i <= j < n ==> state.world.slots@[j] == s0[j],
            forall|j: int|
                0 <= j < i ==> state.world.slots@[j] == spec_stopped_slot(#[trigger] s0[j]),
            state.world.wf(),
            *state == (GameState { world: state.world, ..*old(state) }),
        decreases n - i,
    {
        match state.world.get_velocity(i) {
            Some(_) => {
                state.world.set_velocity(i, Velocity { x: 0, y: 0, z: 0 });
            },
            None => {},
        }
        i += 1;
    }
}

/// A slot with its occupant's velocity, if any, set to zero.
pub open spec fn spec_stopped_slot(slot: Slot) -> Slot {
    match slot.comps {
        Some(b) => Slot {
            generation: slot.generation,
            comps: Some(spec_stopped_bundle(b)),
        },
        None => slot,
    }
}

/// A velocity nudged by `c` milli-units along the reported direction,
/// held inside the velocity range.
pub open spec fn spec_shaken_velocity(v: Velocity, dir: Direction, c: int) -> Velocity {
    match dir {
        Direction::Zp => Velocity { y: spec_add_clamp(v.y as int, c) as i64, ..v },
        Direction::Zn => Velocity { y: spec_add_clamp(v.y as int, -c) as i64, ..v },
        Direction::Xp => Velocity { x: spec_add_clamp(v.x as int, -c) as i64, ..v },
        Direction::Xn => Velocity { x: spec_add_clamp(v.x as int, c) as i64, ..v },
        Direction::Yp => Velocity { z: spec_add_clamp(v.z as int, c) as i64, ..v },
        Direction::Yn => Velocity { z: spec_add_clamp(v.z as int, -c) as i64, ..v },
    }
}

/// A slot with its occupant's velocity, if any, nudged along `dir`.
pub open spec fn spec_shaken_slot(slot: Slot, dir: Direction, c: int) -> Slot {
    match slot.comps {
        Some(b) => match b.velocity {
            Some(v) => Slot {
                generation: slot.generation,
                comps: Some(Bundle { velocity: Some(spec_shaken_velocity(v, dir, c)), ..b }),
            },
            None => slot,
        },
        None => slot,
    }
}

/// The new slots are the old ones with every velocity nudged along
/// `dir` by the same bounded impulse `c`.
pub open spec fn spec_shaken_world(
    s0: Seq<Slot>,
    s1: Seq<Slot>,
    dir: Direction,
    c: int,
) -> bool {
    &&& -100 <= c <= 400
    &&& s1.len() == s0.len()
    &&& (forall|j: int| 0 <= j < s0.len() ==> s1[j] == spec_shaken_slot(#[trigger] s0[j], dir, c))
}

/// The shake system's transition: a just-started motion nudges every
/// velocity along its direction by one common bounded impulse, drawn
/// from the fixed-seed generator and therefore existentially bound;
/// otherwise nothing changes.
pub open spec fn spec_shake_action_rel(a: GameState, b: GameState) -> bool {
    &&& state_inv(b)
    &&& ((match a.changes.controls.wii_mote_controls@[0].motion {
        Some(m) => !m.started,
        None => true,
    }) ==> b == a)
    &&& ((match a.changes.controls.wii_mote_controls@[0].motion {
        Some(m) => m.started,
        None => false,
    }) ==> (exists|c: int|
        #[trigger] spec_shaken_world(
            a.world.slots@,
            b.world.slots@,
            a.changes.controls.wii_mote_controls@[0].motion.unwrap().direction,
            c,
        )) && b == (GameState { world: b.world, ..a }))
}

/// While the first controller reports a just-started motion, nudges every
/// velocity along the motion's direction by one bounded impulse drawn
/// from the fixed-seed generator; the same impulse applies to every
/// entity of the frame.
pub fn system_shake_action(state: &mut GameState)
    requires
        state_inv(*old(state)),
    ensures
        spec_shake_action_rel(*old(state), *final(state)),
{
    let mc = state.changes.controls.wii_mote_controls[0].motion;
    let dir = match mc {
        Some(m) => {
            if !m.started {
                return ;
            }
            m.direction
        },
        None => {
            return ;
        },
    };
    let mut rng = rng_from_seed(10u64);
    let d = rng_next_u32(&mut rng);
    let c = scale_draw(d, 500) - 100;
    let ghost cg = c as int;
    let ghost s0 = state.world.slots@;
    let n = state.world.len();
    let mut i: usize = 0;
    while i < n
        invariant
            0 <= i <= n,
            n == state.world.slots@.len(),
            state.world.slots@.len() == s0.len(),
            -100 <= c <= 400,
            cg == c as int,
            -POS_LIMIT <= cg <= POS_LIMIT,
            forall|j: int| i <= j < n ==> state.world.slots@[j] == s0[j],
            forall|j: int|
                0 <= j < i ==> state.world.slots@[j] == spec_shaken_slot(#[trigger] s0[j], dir, cg),
            state.world.wf(),
            *state == (GameState { world: state.world, ..*old(state) }),
        decreases n - i,
    {
        match state.world.get_velocity(i) {
            Some(v) => {
                let nv = match dir {
                    Direction::Zp => Velocity { y: add_clamp(v.y, c), ..v },
                    Direction::Zn => Velocity { y: add_clamp(v.y, -c), ..v },
                    Direction::Xp => Velocity { x: add_clamp(v.x, -c), ..v },
                    Direction::Xn => Velocity { x: add_clamp(v.x, c), ..v },
                    Direction::Yp => Velocity { z: add_clamp(v.z, c), ..v },
                    Direction::Yn => Velocity { z: add_clamp(v.z, -c), ..v },
                };
                state.world.set_velocity(i, nv);
            },
            None => {},
        }
        i += 1;
    }
    proof {
        assert(spec_shaken_world(s0, state.world.slots@, dir, cg));
    }
}

} // verus!
