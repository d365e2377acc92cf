//! The per-entity animation state machine.
//!
//! Every entity owning a position and an animation is an independent
//! machine instance. Each frame it advances its clock, moves its position
//! along the curve its animation type selects, and, once the clock reaches
//! the duration, fires the completion transition its `on_finish` field
//! names. The whole step is a mathematical function of the previous
//! position, the previous animation and the frame's time step; the
//! executable step is proved equal to it.

use crate::components::game::Animation;
use crate::components::game::AnimationType;
use crate::components::game::OnAnimationFinish;
use crate::components::game::animation_wf;
use crate::components::motion::Position;
use crate::components::motion::Rotation;
use crate::components::motion::position_wf;
use crate::components::render::MeshInstance;
use crate::data_store::textured_model_name::TexturedModelName;
use crate::math::DELTA_CAP;
use crate::math::TIME_CAP;
use crate::math::add_clamp;
use crate::math::lerp;
use crate::math::spec_add_clamp;
use crate::math::spec_lerp;
use crate::math::spec_term_cos;
use crate::math::spec_term_sin;
use crate::math::term_cos;
use crate::math::term_sin;
use vstd::prelude::*;

verus! {

/// The components of a freshly spawned intro stage.
#[derive(Debug, PartialEq, Eq, Structural, Clone, Copy)]
pub struct StageBundle {
    pub position: Position,
    pub rotation: Rotation,
    pub animation: Animation,
    pub mesh_instance: MeshInstance,
}

/// A stage's numeric fields are inside the modelled ranges.
pub open spec fn stage_wf(sb: StageBundle) -> bool {
    &&& position_wf(sb.position)
    &&& animation_wf(sb.animation)
}

/// The structural consequence of one animation step.
#[derive(Debug, PartialEq, Eq, Structural, Clone, Copy)]
pub enum StepEffect {
    /// The entity stays as updated.
    Keep,
    /// The entity is to be despawned.
    Remove,
    /// The entity is to be despawned and the next intro stage spawned.
    Replace(StageBundle),
    /// The intro is over: despawn the entity and raise the
    /// start-gameplay flag.
    StartGameplay,
    /// Ask the host to tear down and rebuild the whole game state.
    RequestRestart,
}

/// The result of one animation step: the new position and animation to
/// write back, and the structural effect to buffer.
#[derive(Debug, PartialEq, Eq, Structural, Clone, Copy)]
pub struct StepOut {
    pub position: Position,
    pub animation: Animation,
    pub effect: StepEffect,
}

/// The animation clock after one frame: it grows by the time step and
/// saturates at the machine cap.
pub open spec fn spec_advance(a: Animation, delta: int) -> Animation {
    let t = a.past_time + delta;
    Animation {
        past_time: if t > TIME_CAP {
            TIME_CAP as int as i64
        } else {
            t as i64
        },
        ..a
    }
}

/// Three sine terms of a composite wander curve, summed.
pub open spec fn spec_composite_sin3(
    pt: int,
    f1: int,
    p1: int,
    a1: int,
    f2: int,
    p2: int,
    a2: int,
    f3: int,
    p3: int,
    a3: int,
) -> int {
    spec_term_sin(pt, f1, p1, a1) + spec_term_sin(pt, f2, p2, a2) + spec_term_sin(pt, f3, p3, a3)
}

/// Three cosine terms of a composite wander curve, summed.
pub open spec fn spec_composite_cos3(
    pt: int,
    f1: int,
    p1: int,
    a1: int,
    f2: int,
    p2: int,
    a2: int,
    f3: int,
    p3: int,
    a3: int,
) -> int {
    spec_term_cos(pt, f1, p1, a1) + spec_term_cos(pt, f2, p2, a2) + spec_term_cos(pt, f3, p3, a3)
}

/// The interpolation parameter of the ease-toward-target curves: elapsed
/// time over duration, in thousandths, clamped to one; a zero duration
/// counts as already complete.
pub open spec fn spec_ease_t(a: Animation) -> int {
    if a.duration > 0 {
        let q = a.past_time as int * 1000 / (a.duration as int);
        if q > 1000 {
            1000
        } else {
            q
        }
    } else {
        1000
    }
}

/// The new position after one frame on the curve `a.animation_type`,
/// where `a` is the already-advanced animation.
#[verifier::opaque]
pub open spec fn spec_curve(p: Position, a: Animation, delta: int) -> Position {
    let pt = a.past_time as int;
    match a.animation_type {
        AnimationType::Idle => p,
        AnimationType::Test => Position {
            x: spec_add_clamp(p.x as int, delta) as i64,
            y: spec_add_clamp(p.y as int, delta) as i64,
            z: spec_add_clamp(p.z as int, delta) as i64,
        },
        AnimationType::Bubble => Position { y: spec_add_clamp(p.y as int, delta) as i64, ..p },
        AnimationType::FryerSpin0 => Position {
            x: spec_term_sin(pt, 200, 0, 13500) as i64,
            z: spec_term_cos(pt, 200, 0, 13500) as i64,
            ..p
        },
        AnimationType::Fryer0 => Position {
            x: spec_composite_sin3(pt, 350, 10, 15000, 1070, 30, 2000, 1470, 5310, 1000) as i64,
            z: spec_composite_cos3(pt, 230, 210, 15000, 1130, 430, 2000, 1830, 1840, 1000) as i64,
            ..p
        },
        AnimationType::Fryer1 => Position {
            x: spec_composite_sin3(pt, 370, 450, 15000, 1170, 30, 2000, 1470, 5310, 1000) as i64,
            z: spec_composite_cos3(pt, 250, 8410, 15000, 1430, 430, 2000, 1830, 1840, 1000) as i64,
            ..p
        },
        AnimationType::Fryer2 => Position {
            x: spec_composite_sin3(pt, 220, 5110, 15000, 1140, 30, 2000, 1470, 5310, 1000) as i64,
            z: spec_composite_cos3(pt, 420, 2530, 15000, 1150, 430, 2000, 1830, 1840, 1000) as i64,
            ..p
        },
        AnimationType::Fryer3 => Position {
            x: spec_composite_sin3(pt, 320, 9010, 10000, 1150, 30, 2000, 1470, 5310, 1000) as i64,
            z: spec_composite_cos3(pt, 430, 2320, 10000, 1190, 430, 2000, 1830, 1840, 1000) as i64,
            ..p
        },
        AnimationType::HandIn | AnimationType::HandOut | AnimationType::FryerWin => {
            let t = spec_ease_t(a);
            Position {
                x: spec_lerp(p.x as int, a.target_x as int, t) as i64,
                y: spec_lerp(p.y as int, a.target_y as int, t) as i64,
                z: spec_lerp(p.z as int, a.target_z as int, t) as i64,
            }
        },
        AnimationType::Hand => Position { y: spec_add_clamp(p.y as int, delta) as i64, ..p },
    }
}

/// The intro stage spawned when the seed with `on_finish` three completes.
pub open spec fn spec_stage_three() -> StageBundle {
    StageBundle {
        position: Position { x: 0, y: 0, z: 0 },
        rotation: Rotation { x: 0, y: 90000, z: 10000 },
        animation: Animation {
            duration: 1500,
            past_time: 0,
            animation_type: AnimationType::HandIn,
            on_animation_finish: OnAnimationFinish::Hand2,
            target_x: 1000,
            target_y: 15000,
            target_z: 15000,
        },
        mesh_instance: MeshInstance { model_name: TexturedModelName::HandThree },
    }
}

/// The intro stage spawned when stage three completes: it appears at the
/// finished stage's target and eases back toward where that stage ended.
pub open spec fn spec_stage_two(p: Position, a: Animation) -> StageBundle {
    StageBundle {
        position: Position { x: a.target_x, y: a.target_y, z: a.target_z },
        rotation: Rotation { x: 0, y: 90000, z: 0 },
        animation: Animation {
            duration: 1000,
            past_time: 0,
            animation_type: AnimationType::Idle,
            on_animation_finish: OnAnimationFinish::Hand1,
            target_x: p.x,
            target_y: p.y,
            target_z: p.z,
        },
        mesh_instance: MeshInstance { model_name: TexturedModelName::HandTwo },
    }
}

/// The intro stage spawned when stage two completes.
pub open spec fn spec_stage_one(p: Position, a: Animation) -> StageBundle {
    StageBundle {
        position: Position { x: a.target_x, y: a.target_y, z: a.target_z },
        rotation: Rotation { x: 0, y: 90000, z: 0 },
        animation: Animation {
            duration: 1000,
            past_time: 0,
            animation_type: AnimationType::Idle,
            on_animation_finish: OnAnimationFinish::Hand0,
            target_x: p.x,
            target_y: p.y,
            target_z: p.z,
        },
        mesh_instance: MeshInstance { model_name: TexturedModelName::HandOne },
    }
}

/// The final intro stage: the fist that sweeps out of view and then
/// raises the start-gameplay flag.
pub open spec fn spec_stage_zero(p: Position, a: Animation) -> StageBundle {
    StageBundle {
        position: Position { x: a.target_x, y: a.target_y, z: a.target_z },
        rotation: Rotation { x: 0, y: 90000, z: 0 },
        animation: Animation {
            duration: 500,
            past_time: 0,
            animation_type: AnimationType::HandOut,
            on_animation_finish: OnAnimationFinish::Start,
            target_x: 0,
            target_y: spec_add_clamp(p.y as int, -10000) as i64,
            target_z: 40000,
        },
        mesh_instance: MeshInstance { model_name: TexturedModelName::HandFist },
    }
}

/// The completion transition, fired when the advanced clock has reached
/// the duration; `p` is the position the curve already moved this frame.
#[verifier::opaque]
pub open spec fn spec_complete(p: Position, a: Animation) -> StepOut {
    match a.on_animation_finish {
        OnAnimationFinish::Repeat => StepOut {
            position: Position { x: a.target_x, y: a.target_y, z: a.target_z },
            animation: Animation { past_time: (a.past_time - a.duration) as i64, ..a },
            effect: StepEffect::Keep,
        },
        OnAnimationFinish::Fryer => StepOut { position: p, animation: a, effect: StepEffect::Keep },
        OnAnimationFinish::RepeatBubble => StepOut {
            position: Position { x: p.z, y: a.target_y, z: p.x },
            animation: Animation { past_time: (a.past_time - a.duration) as i64, ..a },
            effect: StepEffect::Keep,
        },
        OnAnimationFinish::Despawn => StepOut {
            position: p,
            animation: a,
            effect: StepEffect::Remove,
        },
        OnAnimationFinish::Hand3 => StepOut {
            position: p,
            animation: a,
            effect: StepEffect::Replace(spec_stage_three()),
        },
        OnAnimationFinish::Hand2 => StepOut {
            position: p,
            animation: a,
            effect: StepEffect::Replace(spec_stage_two(p, a)),
        },
        OnAnimationFinish::Hand1 => StepOut {
            position: p,
            animation: a,
            effect: StepEffect::Replace(spec_stage_one(p, a)),
        },
        OnAnimationFinish::Hand0 => StepOut {
            position: p,
            animation: a,
            effect: StepEffect::Replace(spec_stage_zero(p, a)),
        },
        OnAnimationFinish::Start => StepOut {
            position: p,
            animation: a,
            effect: StepEffect::StartGameplay,
        },
        OnAnimationFinish::Restart => StepOut {
            position: p,
            animation: a,
            effect: StepEffect::RequestRestart,
        },
    }
}

/// One full animation step: advance the clock, move along the curve, then
/// fire the completion transition if the clock has reached the duration.
pub open spec fn spec_anim_step(p: Position, a: Animation, delta: int) -> StepOut {
    let a1 = spec_advance(a, delta);
    let p1 = spec_curve(p, a1, delta);
    if a1.past_time >= a1.duration {
        spec_complete(p1, a1)
    } else {
        StepOut { position: p1, animation: a1, effect: StepEffect::Keep }
    }
}

/// Evaluates three summed sine terms of a composite wander curve.
fn composite_sin3(
    pt: i64,
    f1: i64,
    p1: i64,
    a1: i64,
    f2: i64,
    p2: i64,
    a2: i64,
    f3: i64,
    p3: i64,
    a3: i64,
) -> (r: i64)
    requires
        0 <= pt <= TIME_CAP,
        0 <= f1 <= 2000,
        0 <= f2 <= 2000,
        0 <= f3 <= 2000,
        0 <= p1 <= 10000,
        0 <= p2 <= 10000,
        0 <= p3 <= 10000,
        0 <= a1 <= 20000,
        0 <= a2 <= 20000,
        0 <= a3 <= 20000,
    ensures
        r == spec_composite_sin3(
            pt as int,
            f1 as int,
            p1 as int,
            a1 as int,
            f2 as int,
            p2 as int,
            a2 as int,
            f3 as int,
            p3 as int,
            a3 as int,
        ),
        -60000 <= r <= 60000,
{
    let t1 = term_sin(pt, f1, p1, a1);
    let t2 = term_sin(pt, f2, p2, a2);
    let t3 = term_sin(pt, f3, p3, a3);
    t1 + t2 + t3
}

/// Evaluates three summed cosine terms of a composite wander curve.
fn composite_cos3(
    pt: i64,
    f1: i64,
    p1: i64,
    a1: i64,
    f2: i64,
    p2: i64,
    a2: i64,
    f3: i64,
    p3: i64,
    a3: i64,
) -> (r: i64)
    requires
        0 <= pt <= TIME_CAP,
        0 <= f1 <= 2000,
        0 <= f2 <= 2000,
        0 <= f3 <= 2000,
        0 <= p1 <= 10000,
        0 <= p2 <= 10000,
        0 <= p3 <= 10000,
        0 <= a1 <= 20000,
        0 <= a2 <= 20000,
        0 <= a3 <= 20000,
    ensures
        r == spec_composite_cos3(
            pt as int,
            f1 as int,
            p1 as int,
            a1 as int,
            f2 as int,
            p2 as int,
            a2 as int,
            f3 as int,
            p3 as int,
            a3 as int,
        ),
        -60000 <= r <= 60000,
{
    let t1 = term_cos(pt, f1, p1, a1);
    let t2 = term_cos(pt, f2, p2, a2);
    let t3 = term_cos(pt, f3, p3, a3);
    t1 + t2 + t3
}

/// Advances one entity's animation machine by one frame.
pub fn anim_step(p: Position, a: Animation, delta: i64) -> (r: StepOut)
    requires
        position_wf(p),
        animation_wf(a),
        0 <= delta <= DELTA_CAP,
    ensures
        r == spec_anim_step(p, a, delta as int),
        position_wf(r.position),
        animation_wf(r.animation),
        r.effect matches StepEffect::Replace(sb) ==> stage_wf(sb),
{
    let pt0 = a.past_time + delta;
    let pt = if pt0 > TIME_CAP {
        TIME_CAP
    } else {
        pt0
    };
    let a1 = Animation { past_time: pt, ..a };
    proof {
        assert(a1 == spec_advance(a, delta as int));
    }
    let p1 = curve_step(p, a1, delta);
    if pt >= a1.duration {
        complete_step(p1, a1)
    } else {
        StepOut { position: p1, animation: a1, effect: StepEffect::Keep }
    }
}

/// Moves a position one frame along the advanced animation's curve.
fn curve_step(p: Position, a: Animation, delta: i64) -> (r: Position)
    requires
        position_wf(p),
        animation_wf(a),
        0 <= delta <= DELTA_CAP,
    ensures
        r == spec_curve(p, a, delta as int),
        position_wf(r),
{
    proof {
        reveal(spec_curve);
    }
    let pt = a.past_time;
    match a.animation_type {
        AnimationType::Idle => p,
        AnimationType::Test => Position {
            x: add_clamp(p.x, delta),
            y: add_clamp(p.y, delta),
            z: add_clamp(p.z, delta),
        },
        AnimationType::Bubble => Position { y: add_clamp(p.y, delta), ..p },
        AnimationType::FryerSpin0 => Position {
            x: term_sin(pt, 200, 0, 13500),
            z: term_cos(pt, 200, 0, 13500),
            ..p
        },
        AnimationType::Fryer0 => Position {
            x: composite_sin3(pt, 350, 10, 15000, 1070, 30, 2000, 1470, 5310, 1000),
            z: composite_cos3(pt, 230, 210, 15000, 1130, 430, 2000, 1830, 1840, 1000),
            ..p
        },
        AnimationType::Fryer1 => Position {
            x: composite_sin3(pt, 370, 450, 15000, 1170, 30, 2000, 1470, 5310, 1000),
            z: composite_cos3(pt, 250, 8410, 15000, 1430, 430, 2000, 1830, 1840, 1000),
            ..p
        },
        AnimationType::Fryer2 => Position {
            x: composite_sin3(pt, 220, 5110, 15000, 1140, 30, 2000, 1470, 5310, 1000),
            z: composite_cos3(pt, 420, 2530, 15000, 1150, 430, 2000, 1830, 1840, 1000),
            ..p
        },
        AnimationType::Fryer3 => Position {
            x: composite_sin3(pt, 320, 9010, 10000, 1150, 30, 2000, 1470, 5310, 1000),
            z: composite_cos3(pt, 430, 2320, 10000, 1190, 430, 2000, 1830, 1840, 1000),
            ..p
        },
        AnimationType::HandIn | AnimationType::HandOut | AnimationType::FryerWin => {
            let t = if a.duration > 0 {
                let q = pt * 1000 / a.duration;
                if q > 1000 {
                    1000
                } else {
                    q
                }
            } else {
                1000
            };
            proof {
                if a.duration > 0 {
                    vstd::arithmetic::div_mod::lemma_div_pos_is_pos(
                        pt as int * 1000,
                        a.duration as int,
                    );
                    assert(pt as int * 1000 >= 0) by (nonlinear_arith)
                        requires
                            pt >= 0,
                    ;
                }
                assert(t as int == spec_ease_t(a));
            }
            Position {
                x: lerp(p.x, a.target_x, t),
                y: lerp(p.y, a.target_y, t),
                z: lerp(p.z, a.target_z, t),
            }
        },
        AnimationType::Hand => Position { y: add_clamp(p.y, delta), ..p },
    }
}

/// Fires the completion transition of an animation whose clock has
/// reached its duration.
fn complete_step(p: Position, a: Animation) -> (r: StepOut)
    requires
        position_wf(p),
        animation_wf(a),
        a.past_time >= a.duration,
    ensures
        r == spec_complete(p, a),
        position_wf(r.position),
        animation_wf(r.animation),
        r.effect matches StepEffect::Replace(sb) ==> stage_wf(sb),
{
    proof {
        reveal(spec_complete);
    }
    match a.on_animation_finish {
        OnAnimationFinish::Repeat => StepOut {
            position: Position { x: a.target_x, y: a.target_y, z: a.target_z },
            animation: Animation { past_time: a.past_time - a.duration, ..a },
            effect: StepEffect::Keep,
        },
        OnAnimationFinish::Fryer => StepOut { position: p, animation: a, effect: StepEffect::Keep },
        OnAnimationFinish::RepeatBubble => StepOut {
            position: Position { x: p.z, y: a.target_y, z: p.x },
            animation: Animation { past_time: a.past_time - a.duration, ..a },
            effect: StepEffect::Keep,
        },
        OnAnimationFinish::Despawn => StepOut {
            position: p,
            animation: a,
            effect: StepEffect::Remove,
        },
        OnAnimationFinish::Hand3 => StepOut {
            position: p,
            animation: a,
            effect: StepEffect::Replace(
                StageBundle {
                    position: Position { x: 0, y: 0, z: 0 },
                    rotation: Rotation { x: 0, y: 90000, z: 10000 },
                    animation: Animation {
                        duration: 1500,
                        past_time: 0,
                        animation_type: AnimationType::HandIn,
                        on_animation_finish: OnAnimationFinish::Hand2,
                        target_x: 1000,
                        target_y: 15000,
                        target_z: 15000,
                    },
                    mesh_instance: MeshInstance { model_name: TexturedModelName::HandThree },
                },
            ),
        },
        OnAnimationFinish::Hand2 => StepOut {
            position: p,
            animation: a,
            effect: StepEffect::Replace(
                StageBundle {
                    position: Position { x: a.target_x, y: a.target_y, z: a.target_z },
                    rotation: Rotation { x: 0, y: 90000, z: 0 },
                    animation: Animation {
                        duration: 1000,
                        past_time: 0,
                        animation_type: AnimationType::Idle,
                        on_animation_finish: OnAnimationFinish::Hand1,
                        target_x: p.x,
                        target_y: p.y,
                        target_z: p.z,
                    },
                    mesh_instance: MeshInstance { model_name: TexturedModelName::HandTwo },
                },
            ),
        },
        OnAnimationFinish::Hand1 => StepOut {
            position: p,
            animation: a,
            effect: StepEffect::Replace(
                StageBundle {
                    position: Position { x: a.target_x, y: a.target_y, z: a.target_z },
                    rotation: Rotation { x: 0, y: 90000, z: 0 },
                    animation: Animation {
                        duration: 1000,
                        past_time: 0,
                        animation_type: AnimationType::Idle,
                        on_animation_finish: OnAnimationFinish::Hand0,
                        target_x: p.x,
                        target_y: p.y,
                        target_z: p.z,
                    },
                    mesh_instance: MeshInstance { model_name: TexturedModelName::HandOne },
                },
            ),
        },
        OnAnimationFinish::Hand0 => StepOut {
            position: p,
            animation: a,
            effect: StepEffect::Replace(
                StageBundle {
                    position: Position { x: a.target_x, y: a.target_y, z: a.target_z },
                    rotation: Rotation { x: 0, y: 90000, z: 0 },
                    animation: Animation {
                        duration: 500,
                        past_time: 0,
                        animation_type: AnimationType::HandOut,
                        on_animation_finish: OnAnimationFinish::Start,
                        target_x: 0,
                        target_y: add_clamp(p.y, -10000),
                        target_z: 40000,
                    },
                    mesh_instance: MeshInstance { model_name: TexturedModelName::HandFist },
                },
            ),
        },
        OnAnimationFinish::Start => StepOut {
            position: p,
            animation: a,
            effect: StepEffect::StartGameplay,
        },
        OnAnimationFinish::Restart => StepOut {
            position: p,
            animation: a,
            effect: StepEffect::RequestRestart,
        },
    }
}

/// Law: until a completion transition fires, the animation clock
/// strictly increases each frame; the step's clock is exactly the old
/// clock plus the (positive) time step. A clock already at the machine
/// cap is the one excluded input: it saturates instead.
pub proof fn lemma_past_time_strictly_increases(p: Position, a: Animation, delta: int)
    requires
        animation_wf(a),
        0 < delta <= DELTA_CAP,
        a.past_time + delta < a.duration,
    ensures
        spec_anim_step(p, a, delta).animation.past_time == a.past_time + delta,
        spec_anim_step(p, a, delta).animation.past_time > a.past_time,
        spec_anim_step(p, a, delta).effect is Keep,
{
}

/// Law: a Repeat or Repeat-with-swap completion rewinds the clock by
/// exactly one duration; and as long as the frame did not overshoot a
/// whole further period, the rewound clock is strictly below the
/// duration again.
pub proof fn lemma_repeat_rewinds_exactly(p: Position, a: Animation, delta: int)
    requires
        animation_wf(a),
        0 <= delta <= DELTA_CAP,
        a.past_time + delta <= TIME_CAP,
        a.past_time + delta >= a.duration,
        a.on_animation_finish is Repeat || a.on_animation_finish is RepeatBubble,
    ensures
        spec_anim_step(p, a, delta).animation.past_time == a.past_time + delta - a.duration,
        a.past_time + delta < 2 * a.duration ==> spec_anim_step(p, a, delta).animation.past_time
            < a.duration,
{
    reveal(spec_complete);
}

/// Law: each intro stage's completion replaces it with exactly the next
/// stage of the chain, and the final stage's completion raises exactly
/// the start-gameplay flag; the scan that consumes these effects always
/// despawns the completed stage, so no intermediate stage survives its
/// own completion.
pub proof fn lemma_intro_chain_progression(p: Position, a: Animation, delta: int)
    requires
        animation_wf(a),
        0 <= delta <= DELTA_CAP,
        spec_advance(a, delta).past_time >= a.duration,
    ensures
        ({
            let out = spec_anim_step(p, a, delta);
            let moved = spec_curve(p, spec_advance(a, delta), delta);
            &&& (a.on_animation_finish is Hand3 ==> out.effect == StepEffect::Replace(
                spec_stage_three(),
            ) && spec_stage_three().animation.on_animation_finish is Hand2)
            &&& (a.on_animation_finish is Hand2 ==> out.effect == StepEffect::Replace(
                spec_stage_two(moved, spec_advance(a, delta)),
            ) && spec_stage_two(
                moved,
                spec_advance(a, delta),
            ).animation.on_animation_finish is Hand1)
            &&& (a.on_animation_finish is Hand1 ==> out.effect == StepEffect::Replace(
                spec_stage_one(moved, spec_advance(a, delta)),
            ) && spec_stage_one(
                moved,
                spec_advance(a, delta),
            ).animation.on_animation_finish is Hand0)
            &&& (a.on_animation_finish is Hand0 ==> out.effect == StepEffect::Replace(
                spec_stage_zero(moved, spec_advance(a, delta)),
            ) && spec_stage_zero(
                moved,
                spec_advance(a, delta),
            ).animation.on_animation_finish is Start)
            &&& (a.on_animation_finish is Start ==> out.effect is StartGameplay)
        }),
{
    reveal(spec_complete);
}

/// Law: a machine step never rewrites the completion transition: an
/// entity changes its place in the intro chain only by being replaced
/// through the buffered despawn and spawn, never in place.
pub proof fn lemma_step_preserves_on_finish(p: Position, a: Animation, delta: int)
    ensures
        spec_anim_step(p, a, delta).animation.on_animation_finish == a.on_animation_finish,
        spec_anim_step(p, a, delta).animation.animation_type == a.animation_type,
        spec_anim_step(p, a, delta).animation.duration == a.duration,
{
    reveal(spec_complete);
}

/// The position an animation machine reaches after stepping through a
/// whole sequence of frame time steps.
pub open spec fn spec_trajectory(p: Position, a: Animation, deltas: Seq<i64>) -> Position
    decreases deltas.len(),
{
    if deltas.len() == 0 {
        p
    } else {
        let s = spec_anim_step(p, a, deltas[0] as int);
        spec_trajectory(s.position, s.animation, deltas.drop_first())
    }
}

/// Law: the frame step is a mathematical function, so two runs from the
/// same position and animation, fed the same sequence of time steps,
/// trace bit-identical positions; the executable step is proved equal to
/// the same function, which carries the law to running code.
pub proof fn lemma_trajectory_deterministic(
    p1: Position,
    a1: Animation,
    d1: Seq<i64>,
    p2: Position,
    a2: Animation,
    d2: Seq<i64>,
)
    requires
        p1 == p2,
        a1 == a2,
        d1 == d2,
    ensures
        spec_trajectory(p1, a1, d1) == spec_trajectory(p2, a2, d2),
{
}

} // verus!
