//! Render collection systems: they gather what to draw into the state's
//! frame buffers; the host hands those to the render collaborator.

use crate::components::motion::Position;
use crate::components::render::MeshInstance;
use crate::components::render::Text;
use crate::game_state::GameState;
use crate::game_state::state_inv;
use crate::world::Slot;
use vstd::prelude::*;

verus! {

/// The draw list of a slot sequence: every live entity owning both a
/// mesh link and a position, in store order.
pub open spec fn spec_mesh_list(s: Seq<Slot>) -> Seq<(MeshInstance, Position)>
    decreases s.len(),
{
    if s.len() == 0 {
        Seq::empty()
    } else {
        let rest = spec_mesh_list(s.drop_last());
        match s.last().comps {
            Some(b) => match (b.mesh_instance, b.position) {
                (Some(m), Some(p)) => rest.push((m, p)),
                _ => rest,
            },
            None => rest,
        }
    }
}

/// The overlay list of a slot sequence: every live entity owning a text
/// component, in store order.
pub open spec fn spec_text_list(s: Seq<Slot>) -> Seq<Text>
    decreases s.len(),
{
    if s.len() == 0 {
        Seq::empty()
    } else {
        let rest = spec_text_list(s.drop_last());
        match s.last().comps {
            Some(b) => match b.text {
                Some(t) => rest.push(t),
                None => rest,
            },
            None => rest,
        }
    }
}

/// The mesh-collection transition: the mesh frame buffer becomes the
/// world's draw list; nothing else changes.
pub open spec fn spec_render_meshes_rel(a: GameState, b: GameState) -> bool {
    &&& state_inv(b)
    &&& b.frame_meshes@ == spec_mesh_list(a.world.slots@)
    &&& b == (GameState { frame_meshes: b.frame_meshes, ..a })
}

/// Collects every (mesh, position) pair of the world into the state's
/// mesh frame buffer for the host to draw.
pub fn system_render_meshes(state: &mut GameState)
    requires
        state_inv(*old(state)),
    ensures
        spec_render_meshes_rel(*old(state), *final(state)),
{
    let ghost s0 = state.world.slots@;
    let mut acc: Vec<(MeshInstance, Position)> = Vec::new();
    let n = state.world.len();
    let mut i: usize = 0;
    while i < n
        invariant
            0 <= i <= n,
            n == state.world.slots@.len(),
            state.world.slots@ == s0,
            acc@ == spec_mesh_list(s0.take(i as int)),
        decreases n - i,
    {
        let m = state.world.get_mesh_instance(i);
        let p = state.world.get_position(i);
        proof {
            assert(s0.take(i as int + 1).drop_last() =~= s0.take(i as int));
            assert(s0.take(i as int + 1).last() == s0[i as int]);
        }
        match (m, p) {
            (Some(mi), Some(pi)) => {
                acc.push((mi, pi));
            },
            _ => {},
        }
        i += 1;
    }
    proof {
        assert(s0.take(n as int) =~= s0);
    }
    state.frame_meshes = acc;
}

/// The text-collection transition: the text frame buffer becomes the
/// world's overlay list; nothing else changes.
pub open spec fn spec_render_text_rel(a: GameState, b: GameState) -> bool {
    &&& state_inv(b)
    &&& b.frame_texts@ == spec_text_list(a.world.slots@)
    &&& b == (GameState { frame_texts: b.frame_texts, ..a })
}

/// Collects every text overlay of the world into the state's text frame
/// buffer for the host to draw.
pub fn system_render_text(state: &mut GameState)
    requires
        state_inv(*old(state)),
    ensures
        spec_render_text_rel(*old(state), *final(state)),
{
    let ghost s0 = state.world.slots@;
    let mut acc: Vec<Text> = Vec::new();
    let n = state.world.len();
    let mut i: usize = 0;
    while i < n
        invariant
            0 <= i <= n,
            n == state.world.slots@.len(),
            state.world.slots@ == s0,
            acc@ == spec_text_list(s0.take(i as int)),
        decreases n - i,
    {
        let t = state.world.get_text(i);
        proof {
            assert(s0.take(i as int + 1).drop_last() =~= s0.take(i as int));
            assert(s0.take(i as int + 1).last() == s0[i as int]);
        }
        match t {
            Some(ti) => {
                acc.push(ti);
            },
            None => {},
        }
        i += 1;
    }
    proof {
        assert(s0.take(n as int) =~= s0);
    }
    state.frame_texts = acc;
}

} // verus!
