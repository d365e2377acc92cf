//! The per-frame input snapshot the host hands to the simulation.
//!
//! The core only reads this data; how it is derived from hardware is the
//! input collaborator's concern.

use crate::math::DELTA_CAP;
use vstd::prelude::*;

verus! {

/// One of the six axis-aligned motion directions a controller can report.
#[derive(Debug, PartialEq, Eq, Structural, Clone, Copy)]
pub enum Direction {
    Xp,
    Xn,
    Yp,
    Yn,
    Zp,
    Zn,
}

/// A detected motion event: its direction and whether it started or ended
/// this frame.
#[derive(Debug, PartialEq, Eq, Structural, Clone, Copy)]
pub struct MotionControl {
    pub direction: Direction,
    pub started: bool,
    pub ended: bool,
}

/// The state of one controller for this frame.
#[derive(Debug, PartialEq, Eq, Structural, Clone, Copy)]
pub struct WiiMoteControl {
    pub motion: Option<MotionControl>,
    pub home_button_down: bool,
    pub one_button_down: bool,
}

impl WiiMoteControl {
    /// A controller reporting nothing.
    pub open spec fn spec_idle() -> WiiMoteControl {
        WiiMoteControl { motion: None, home_button_down: false, one_button_down: false }
    }

    /// Builds a controller state reporting nothing.
    pub fn idle() -> (r: WiiMoteControl)
        ensures
            r == WiiMoteControl::spec_idle(),
    {
        WiiMoteControl { motion: None, home_button_down: false, one_button_down: false }
    }
}

/// Number of controller ports the snapshot always carries.
pub const NUM_CONTROLLERS: usize = 4;

/// The complete input snapshot of one frame.
#[derive(Debug, PartialEq, Eq, Clone)]
pub struct Controls {
    pub wii_mote_controls: Vec<WiiMoteControl>,
}

/// A snapshot carries one entry per controller port.
pub open spec fn controls_wf(c: Controls) -> bool {
    c.wii_mote_controls@.len() == NUM_CONTROLLERS
}

impl Controls {
    /// Builds a snapshot with every controller idle.
    pub fn new() -> (r: Controls)
        ensures
            controls_wf(r),
            forall|i: int|
                0 <= i < NUM_CONTROLLERS ==> r.wii_mote_controls@[i]
                    == WiiMoteControl::spec_idle(),
    {
        let mut v: Vec<WiiMoteControl> = Vec::new();
        v.push(WiiMoteControl::idle());
        v.push(WiiMoteControl::idle());
        v.push(WiiMoteControl::idle());
        v.push(WiiMoteControl::idle());
        Controls { wii_mote_controls: v }
    }
}

/// What changed since the previous frame: the elapsed time (milliseconds)
/// and the fresh input snapshot.
#[derive(Debug, PartialEq, Eq, Clone)]
pub struct Changes {
    pub delta_time: i64,
    pub controls: Controls,
}

/// A frame step within the machine range, with a full snapshot.
pub open spec fn changes_wf(c: Changes) -> bool {
    &&& 0 <= c.delta_time <= DELTA_CAP
    &&& controls_wf(c.controls)
}

impl Changes {
    /// Builds a zero-time step with idle controls.
    pub fn new() -> (r: Changes)
        ensures
            changes_wf(r),
            r.delta_time == 0,
            forall|i: int|
                0 <= i < NUM_CONTROLLERS ==> r.controls.wii_mote_controls@[i]
                    == WiiMoteControl::spec_idle(),
    {
        Changes { delta_time: 0, controls: Controls::new() }
    }
}

} // verus!
