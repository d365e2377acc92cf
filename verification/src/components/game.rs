use crate::math::DUR_CAP;
use crate::math::POS_LIMIT;
use crate::math::TIME_CAP;
use vstd::prelude::*;

verus! {

/// Marker for movable scenery.
#[derive(Debug, PartialEq, Eq, Structural, Clone, Copy)]
pub struct Platform {
}

/// The camera's clear color and orientation vectors (milli-units).
#[derive(Debug, PartialEq, Eq, Structural, Clone, Copy)]
pub struct Camera {
    pub r: u8,
    pub g: u8,
    pub b: u8,
    pub up_x: i64,
    pub up_y: i64,
    pub up_z: i64,
    pub lookat_x: i64,
    pub lookat_y: i64,
    pub lookat_z: i64,
}

/// The completion transition an animation fires once its time is up.
#[derive(Debug, PartialEq, Eq, Structural, Clone, Copy)]
pub enum OnAnimationFinish {
    /// Remove the entity.
    Despawn,
    /// Loop: rewind by one duration and snap to the target.
    Repeat,
    /// Loop, swapping the x and z axes to vary the recurring motion.
    RepeatBubble,
    /// Keep running with no transition (the frying pans orbit forever).
    Fryer,
    /// Replace this entity with intro stage three.
    Hand3,
    /// Replace this entity with intro stage two.
    Hand2,
    /// Replace this entity with intro stage one.
    Hand1,
    /// Replace this entity with the final intro stage.
    Hand0,
    /// End the intro: raise the start-gameplay flag for this frame.
    Start,
    /// Ask the host to tear the game state down and rebuild it.
    Restart,
}

/// The procedural curve an animation advances every frame.
#[derive(Debug, PartialEq, Eq, Structural, Clone, Copy)]
pub enum AnimationType {
    /// No positional change.
    Idle,
    /// Uniform drift on all three axes.
    Test,
    /// Uniform vertical drift.
    Bubble,
    /// Circular orbit in the horizontal plane.
    FryerSpin0,
    /// Composite multi-frequency wander, first tuning.
    Fryer0,
    /// Composite multi-frequency wander, second tuning.
    Fryer1,
    /// Composite multi-frequency wander, third tuning.
    Fryer2,
    /// Composite multi-frequency wander, fourth tuning.
    Fryer3,
    /// Ease toward the stored target (intro hand entering).
    HandIn,
    /// Uniform vertical drift (hand idling).
    Hand,
    /// Ease toward the stored target (intro hand leaving).
    HandOut,
    /// Ease toward the stored target (winner's rise).
    FryerWin,
}

/// Drives the per-entity animation state machine: a curve, the time spent
/// in it, and the transition to fire on completion. Times are in
/// milliseconds, targets in milli-units.
#[derive(Debug, PartialEq, Eq, Structural, Clone, Copy)]
pub struct Animation {
    pub duration: i64,
    pub past_time: i64,
    pub animation_type: AnimationType,
    pub on_animation_finish: OnAnimationFinish,
    pub target_x: i64,
    pub target_y: i64,
    pub target_z: i64,
}

/// Animation fields within their machine ranges.
pub open spec fn animation_wf(a: Animation) -> bool {
    &&& 0 <= a.duration <= DUR_CAP
    &&& 0 <= a.past_time <= TIME_CAP
    &&& -POS_LIMIT <= a.target_x <= POS_LIMIT
    &&& -POS_LIMIT <= a.target_y <= POS_LIMIT
    &&& -POS_LIMIT <= a.target_z <= POS_LIMIT
}

/// Scoring record of one competitor frying pan.
#[derive(Debug, PartialEq, Eq, Structural, Clone, Copy)]
pub struct FryAssignment {
    pub id: u32,
    pub score: u32,
}

/// Links an entity to the player controller that steers it.
#[derive(Debug, PartialEq, Eq, Structural, Clone, Copy)]
pub struct ControllerAssignment {
    pub id: u32,
}

} // verus!
