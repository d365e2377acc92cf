//! A minimal test level: a single plate mesh and the platform system.

use crate::components::motion::Position;
use crate::components::render::MeshInstance;
use crate::data_store::textured_model_name::TexturedModelName;
use crate::game_state::GameState;
use crate::game_state::state_inv;
use crate::systems::system_name::SystemName;
use crate::world::Bundle;
use crate::world::World;
use crate::world::lemma_slots_spawn_wf;
use crate::world::slots_spawn;
use vstd::prelude::*;

verus! {

/// The single scenery entity of the test level.
pub open spec fn spec_plate_bundle() -> Bundle {
    Bundle {
        position: Some(Position { x: 0, y: 0, z: 0 }),
        mesh_instance: Some(MeshInstance { model_name: TexturedModelName::Plate }),
        ..Bundle::spec_empty()
    }
}

/// Builds the moving-platform test state.
pub fn build() -> (r: GameState)
    ensures
        state_inv(r),
        r.playmode is Selection,
        r.is_running,
        r.next_state is None,
        r.systems@ == seq![SystemName::RenderMeshes, SystemName::MovingPlatform],
        r.world.slots@ == slots_spawn(Seq::empty(), spec_plate_bundle()),
        r.world.alive_count() == 1,
{
    let mut state = GameState::new();
    state.add_system(SystemName::RenderMeshes);
    state.add_system(SystemName::MovingPlatform);
    batch_spawn_entities(&mut state.world, 10);
    proof {
        assert(state.systems@ =~= seq![SystemName::RenderMeshes, SystemName::MovingPlatform]);
    }
    state
}

/// Spawns the level's entities; the count parameter is kept for parity
/// with the other builders and is not yet used.
fn batch_spawn_entities(world: &mut World, _n: i32)
    requires
        old(world).wf(),
    ensures
        final(world).slots@ == slots_spawn(old(world).slots@, spec_plate_bundle()),
        final(world).wf(),
        final(world).alive_count() == old(world).alive_count() + 1,
{
    let mut b = Bundle::empty();
    b.position = Some(Position { x: 0, y: 0, z: 0 });
    b.mesh_instance = Some(MeshInstance { model_name: TexturedModelName::Plate });
    proof {
        assert(b == spec_plate_bundle());
        lemma_slots_spawn_wf(old(world).slots@, b);
    }
    world.spawn(b);
}

} // verus!
