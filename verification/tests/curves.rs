//! Exact values of the fixed-point math and the animation machine's
//! single steps.

use gamelib::animation::{anim_step, StepEffect};
use gamelib::components::game::{Animation, AnimationType, OnAnimationFinish};
use gamelib::components::motion::Position;
use gamelib::data_store::textured_model_name::TexturedModelName;
use gamelib::math::{add_clamp, cos_milli, lerp, sin_milli, POS_LIMIT};

fn anim(
    duration: i64,
    past: i64,
    ty: AnimationType,
    fin: OnAnimationFinish,
    tx: i64,
    ty_: i64,
    tz: i64,
) -> Animation {
    Animation {
        duration,
        past_time: past,
        animation_type: ty,
        on_animation_finish: fin,
        target_x: tx,
        target_y: ty_,
        target_z: tz,
    }
}

#[test]
fn sine_hits_the_cardinal_points() {
    assert_eq!(sin_milli(0), 0);
    // A quarter turn is 1570..1571 milliradians; the approximation peaks
    // within a thousandth of one.
    assert!(sin_milli(1570) >= 995);
    assert!(sin_milli(1570) <= 1000);
    // Half a turn later the sine is negative.
    assert!(sin_milli(4712) <= -995);
    assert_eq!(sin_milli(3141), 0);
    assert!(cos_milli(0) >= 995);
    assert!(cos_milli(3141 + 1570) >= -5);
}

#[test]
fn sine_tracks_the_float_backend() {
    // The integer approximation stays within a hundredth of the float
    // approximation over a whole turn.
    for k in 0..63 {
        let x: i64 = k * 100;
        let mine = sin_milli(x) as f32 / 1000.0;
        let theirs = micromath::F32Ext::sin(x as f32 / 1000.0);
        assert!((mine - theirs).abs() < 0.01, "x={} mine={} theirs={}", x, mine, theirs);
    }
}

#[test]
fn lerp_is_exact_integer_interpolation() {
    assert_eq!(lerp(0, 1000, 500), 500);
    assert_eq!(lerp(1000, 0, 250), 750);
    assert_eq!(lerp(-1000, 1000, 1000), 1000);
    assert_eq!(lerp(-1000, 1000, 0), -1000);
    // Truncation toward zero on either side of zero.
    assert_eq!(lerp(0, 999, 333), 332);
    assert_eq!(lerp(999, 0, 333), 667);
}

#[test]
fn add_clamp_saturates_at_the_world_edge() {
    assert_eq!(add_clamp(0, 5), 5);
    assert_eq!(add_clamp(POS_LIMIT, 1), POS_LIMIT);
    assert_eq!(add_clamp(-POS_LIMIT, -1), -POS_LIMIT);
}

#[test]
fn past_time_strictly_increases_without_completion() {
    let p = Position { x: 1, y: 2, z: 3 };
    let a = anim(5000, 100, AnimationType::Idle, OnAnimationFinish::Despawn, 0, 0, 0);
    let out = anim_step(p, a, 16);
    assert_eq!(out.animation.past_time, 116);
    assert!(matches!(out.effect, StepEffect::Keep));
    assert_eq!(out.position, p);
}

#[test]
fn repeat_rewinds_by_exactly_one_duration() {
    let p = Position { x: 10, y: 20, z: 30 };
    let a = anim(1000, 990, AnimationType::Idle, OnAnimationFinish::Repeat, 7, 8, 9);
    let out = anim_step(p, a, 16);
    // 990 + 16 = 1006 >= 1000: the transition fires, rewinds by the
    // duration and snaps to the target.
    assert_eq!(out.animation.past_time, 6);
    assert!(out.animation.past_time < out.animation.duration);
    assert_eq!(out.position, Position { x: 7, y: 8, z: 9 });
    assert!(matches!(out.effect, StepEffect::Keep));
}

#[test]
fn bubble_completion_swaps_the_axes() {
    let p = Position { x: 11, y: -6000, z: 22 };
    let a = anim(500, 499, AnimationType::Bubble, OnAnimationFinish::RepeatBubble, 11, -6000, 22);
    let out = anim_step(p, a, 10);
    // The curve drifted y up by the time step, then the completion put
    // y back at the target and swapped x and z.
    assert_eq!(out.position.x, 22);
    assert_eq!(out.position.y, -6000);
    assert_eq!(out.position.z, 11);
    assert_eq!(out.animation.past_time, 9);
}

#[test]
fn spin_curve_follows_the_milli_trig() {
    let p = Position { x: 0, y: -10000, z: 0 };
    // After the step the clock reads 7850 ms; the orbit angle is
    // clock / 5 milliradians.
    let a = anim(
        1_000_000,
        7840,
        AnimationType::FryerSpin0,
        OnAnimationFinish::Despawn,
        0,
        0,
        0,
    );
    let out = anim_step(p, a, 10);
    let angle = 7850 * 200 / 1000;
    let expect_x = {
        let s = sin_milli(angle);
        if s >= 0 { s * 13500 / 1000 } else { -((-s) * 13500 / 1000) }
    };
    let expect_z = {
        let c = cos_milli(angle);
        if c >= 0 { c * 13500 / 1000 } else { -((-c) * 13500 / 1000) }
    };
    assert_eq!(out.position.x, expect_x);
    assert_eq!(out.position.z, expect_z);
    assert_eq!(out.position.y, -10000);
    // The angle is near a quarter turn, so the orbit is near its x
    // extreme: an inert trig backend could not produce this.
    assert!(out.position.x > 13000);
}

#[test]
fn ease_toward_target_rereads_the_moved_position() {
    // The intentional degenerate ease: each frame interpolates from the
    // already-moved position, so two frames land closer than a straight
    // two-step linear interpolation would.
    let p0 = Position { x: 0, y: 0, z: 0 };
    let a0 = anim(1000, 0, AnimationType::HandIn, OnAnimationFinish::Despawn, 10000, 0, 0);
    let s1 = anim_step(p0, a0, 100);
    // t = 100/1000: x moves a tenth of the way.
    assert_eq!(s1.position.x, 1000);
    let s2 = anim_step(s1.position, s1.animation, 100);
    // t = 200/1000 applied to the moved x: 1000 + (10000-1000)*200/1000.
    assert_eq!(s2.position.x, 1000 + (10000 - 1000) * 200 / 1000);
    assert!(s2.position.x > 2000, "the ease overshoots a straight lerp");
}

#[test]
fn intro_chain_steps_spawn_the_next_stage() {
    let p = Position { x: 0, y: 0, z: 0 };
    let seed = anim(0, 0, AnimationType::Idle, OnAnimationFinish::Hand3, 0, 0, 0);
    let out = anim_step(p, seed, 16);
    match out.effect {
        StepEffect::Replace(sb) => {
            assert!(matches!(sb.mesh_instance.model_name, TexturedModelName::HandThree));
            assert!(matches!(sb.animation.on_animation_finish, OnAnimationFinish::Hand2));
            assert_eq!(sb.animation.duration, 1500);
            assert!(matches!(sb.animation.animation_type, AnimationType::HandIn));
        }
        _ => panic!("the seed must chain into stage three"),
    }

    let fist = anim(500, 495, AnimationType::HandOut, OnAnimationFinish::Start, 0, -10000, 40000);
    let out2 = anim_step(p, fist, 10);
    assert!(matches!(out2.effect, StepEffect::StartGameplay));
}
