use vstd::prelude::*;

verus! {

/// Sphere collision volume consumed by the physics collaborator.
#[derive(Debug, PartialEq, Eq, Structural, Clone, Copy)]
pub struct SphereCollider {
    /// Radius in milli-units.
    pub radius: i64,
    pub gravity: bool,
    pub body_index: u32,
    pub has_been_registered: bool,
}

} // verus!
