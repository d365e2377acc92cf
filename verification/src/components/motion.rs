use crate::math::POS_LIMIT;
use vstd::prelude::*;

verus! {

/// World-space location in milli-units.
#[derive(Debug, PartialEq, Eq, Structural, Clone, Copy)]
pub struct Position {
    pub x: i64,
    pub y: i64,
    pub z: i64,
}

/// Linear velocity in milli-units per second.
#[derive(Debug, PartialEq, Eq, Structural, Clone, Copy)]
pub struct Velocity {
    pub x: i64,
    pub y: i64,
    pub z: i64,
}

/// Euler angles in milli-degrees.
#[derive(Debug, PartialEq, Eq, Structural, Clone, Copy)]
pub struct Rotation {
    pub x: i64,
    pub y: i64,
    pub z: i64,
}

/// A coordinate triple within the world range.
pub open spec fn position_wf(p: Position) -> bool {
    &&& -POS_LIMIT <= p.x <= POS_LIMIT
    &&& -POS_LIMIT <= p.y <= POS_LIMIT
    &&& -POS_LIMIT <= p.z <= POS_LIMIT
}

/// A velocity triple within the world range.
pub open spec fn velocity_wf(v: Velocity) -> bool {
    &&& -POS_LIMIT <= v.x <= POS_LIMIT
    &&& -POS_LIMIT <= v.y <= POS_LIMIT
    &&& -POS_LIMIT <= v.z <= POS_LIMIT
}

} // verus!
