//! The main level: camera, plate, oil sea, twenty oil bubbles with
//! seeded-random placement, background music, and the full system
//! pipeline.

use crate::components::audio::Audio;
use crate::components::audio::AudioPlayMode;
use crate::components::game::Animation;
use crate::components::game::AnimationType;
use crate::components::game::Camera;
use crate::components::game::OnAnimationFinish;
use crate::components::motion::Position;
use crate::components::motion::Rotation;
use crate::components::render::MeshInstance;
use crate::data_store::asset_name::AssetName;
use crate::data_store::textured_model_name::TexturedModelName;
use crate::game_state::GameState;
use crate::game_state::state_inv;
use crate::rng::rng_from_seed;
use crate::rng::rng_next_u32;
use crate::rng::scale_draw;
use crate::systems::system_name::SystemName;
use crate::world::Bundle;
use crate::world::CommandBuffer;
use crate::world::Slot;
use crate::world::World;
use crate::world::apply_despawns_from;
use crate::world::apply_spawns_from;
use crate::world::bundle_wf;
use crate::world::lemma_apply_spawns_count;
use crate::world::lemma_apply_spawns_wf;
use crate::world::lemma_slots_spawn_wf;
use crate::world::slots_spawn;
use vstd::prelude::*;

verus! {

/// The camera entity: clear color black, looking down onto the field.
pub open spec fn spec_camera_bundle() -> Bundle {
    Bundle {
        position: Some(Position { x: 0, y: 27500, z: 25000 }),
        camera: Some(
            Camera {
                r: 0,
                g: 0,
                b: 0,
                up_x: 0,
                up_y: 1000,
                up_z: 0,
                lookat_x: 0,
                lookat_y: (-6000) as i64,
                lookat_z: 0,
            },
        ),
        ..Bundle::spec_empty()
    }
}

/// The plate the potatoes land on.
pub open spec fn spec_plate_bundle() -> Bundle {
    Bundle {
        position: Some(Position { x: 0, y: (-1500) as i64, z: 0 }),
        rotation: Some(Rotation { x: 0, y: 0, z: 0 }),
        mesh_instance: Some(MeshInstance { model_name: TexturedModelName::Plate }),
        ..Bundle::spec_empty()
    }
}

/// The oil sea below the plate.
pub open spec fn spec_oil_bundle() -> Bundle {
    Bundle {
        position: Some(Position { x: 0, y: (-15000) as i64, z: 0 }),
        rotation: Some(Rotation { x: 0, y: 0, z: 0 }),
        mesh_instance: Some(MeshInstance { model_name: TexturedModelName::OilSea }),
        ..Bundle::spec_empty()
    }
}

/// The background music entity.
pub open spec fn spec_music_bundle() -> Bundle {
    Bundle {
        audio: Some(Audio { name: AssetName::DemoMusic, play_mode: AudioPlayMode::Infinite }),
        ..Bundle::spec_empty()
    }
}

/// One drawn bubble parameter tuple: horizontal placement, duration, and
/// starting time, all inside the ranges the draws are scaled into.
pub open spec fn bubble_params_ok(t: (i64, i64, i64, i64)) -> bool {
    &&& -20000 <= t.0 <= 20000
    &&& -20000 <= t.1 <= 20000
    &&& 500 <= t.2 <= 2500
    &&& 0 <= t.3 <= 2000
}

/// An oil bubble rising from the sea: a vertical drift that repeats with
/// an axis swap, so its recurring motion looks varied without redrawing
/// randomness every cycle.
pub open spec fn spec_bubble_bundle(t: (i64, i64, i64, i64)) -> Bundle {
    Bundle {
        position: Some(Position { x: t.0, y: (-6000) as i64, z: t.1 }),
        rotation: Some(Rotation { x: 0, y: 0, z: 0 }),
        mesh_instance: Some(MeshInstance { model_name: TexturedModelName::OilBubble }),
        animation: Some(
            Animation {
                duration: t.2,
                past_time: t.3,
                animation_type: AnimationType::Bubble,
                on_animation_finish: OnAnimationFinish::RepeatBubble,
                target_x: t.0,
                target_y: (-6000) as i64,
                target_z: t.1,
            },
        ),
        ..Bundle::spec_empty()
    }
}

/// The 23 entities the level spawns before the music: camera, plate,
/// oil sea, and the twenty bubbles.
pub open spec fn spec_level_bundles(bub: Seq<(i64, i64, i64, i64)>) -> Seq<Bundle> {
    Seq::new(
        23,
        |k: int|
            if k == 0 {
                spec_camera_bundle()
            } else if k == 1 {
                spec_plate_bundle()
            } else if k == 2 {
                spec_oil_bundle()
            } else {
                spec_bubble_bundle(bub[k - 3])
            },
    )
}

/// The world of a freshly built level is the empty store filled with the
/// 23 level entities and then the music entity, for some sequence of 20
/// in-range bubble draws.
pub open spec fn spec_level_world(slots: Seq<Slot>, bub: Seq<(i64, i64, i64, i64)>) -> bool {
    &&& bub.len() == 20
    &&& (forall|k: int| 0 <= k < 20 ==> bubble_params_ok(#[trigger] bub[k]))
    &&& slots == slots_spawn(
        apply_spawns_from(Seq::empty(), spec_level_bundles(bub), 0),
        spec_music_bundle(),
    )
}

/// Builds the main level in the Selection phase, with its full pipeline
/// registered in order and its initial entities spawned.
pub fn build() -> (r: GameState)
    ensures
        state_inv(r),
        r.playmode is Selection,
        r.is_running,
        r.next_state is None,
        r.systems@ == seq![
            SystemName::GameMaster,
            SystemName::PlayAudio,
            SystemName::ExitAction,
            SystemName::RegisterCollider,
            SystemName::StopAction,
            SystemName::ScoreFryingPan,
            SystemName::PatatoControl,
            SystemName::PhysicsToPosition,
            SystemName::RenderMeshes,
            SystemName::CameraUpdate,
            SystemName::TeleportPotatoes,
            SystemName::ResetLevel,
        ],
        exists|bub: Seq<(i64, i64, i64, i64)>| #[trigger] spec_level_world(r.world.slots@, bub),
        r.world.alive_count() == 24,
        r.changes.delta_time == 0,
{
    let mut state = GameState::new();
    proof {
        assert(state.world.slots@ =~= Seq::<Slot>::empty());
    }
    state.add_system(SystemName::GameMaster);
    state.add_system(SystemName::PlayAudio);
    state.add_system(SystemName::ExitAction);
    state.add_system(SystemName::RegisterCollider);
    state.add_system(SystemName::StopAction);
    state.add_system(SystemName::ScoreFryingPan);
    state.add_system(SystemName::PatatoControl);
    state.add_system(SystemName::PhysicsToPosition);
    state.add_system(SystemName::RenderMeshes);
    state.add_system(SystemName::CameraUpdate);
    state.add_system(SystemName::TeleportPotatoes);
    state.add_system(SystemName::ResetLevel);
    batch_spawn_entities(&mut state.world);
    let ghost mid = state.world.slots@;
    spawn_main_music(&mut state.world);
    proof {
        let bub = choose|bub: Seq<(i64, i64, i64, i64)>|
            spec_level_world_partial(mid, Seq::empty(), bub);
        assert(spec_level_world(state.world.slots@, bub));
        assert(state.systems@ =~= seq![
            SystemName::GameMaster,
            SystemName::PlayAudio,
            SystemName::ExitAction,
            SystemName::RegisterCollider,
            SystemName::StopAction,
            SystemName::ScoreFryingPan,
            SystemName::PatatoControl,
            SystemName::PhysicsToPosition,
            SystemName::RenderMeshes,
            SystemName::CameraUpdate,
            SystemName::TeleportPotatoes,
            SystemName::ResetLevel,
        ]);
    }
    state
}

/// The main music is an entity with an audio component.
fn spawn_main_music(world: &mut World)
    requires
        old(world).wf(),
    ensures
        final(world).slots@ == slots_spawn(old(world).slots@, spec_music_bundle()),
        final(world).wf(),
        final(world).alive_count() == old(world).alive_count() + 1,
{
    let mut b = Bundle::empty();
    b.audio = Some(Audio::new(AssetName::DemoMusic, AudioPlayMode::Infinite));
    proof {
        assert(b == spec_music_bundle());
        lemma_slots_spawn_wf(old(world).slots@, b);
    }
    world.spawn(b);
}

/// Builds one bubble bundle from its drawn parameters.
fn bubble_bundle(x: i64, z: i64, dur: i64, past: i64) -> (r: Bundle)
    requires
        bubble_params_ok((x, z, dur, past)),
    ensures
        r == spec_bubble_bundle((x, z, dur, past)),
        bundle_wf(r),
{
    let mut b = Bundle::empty();
    b.position = Some(Position { x, y: -6000, z });
    b.rotation = Some(Rotation { x: 0, y: 0, z: 0 });
    b.mesh_instance = Some(MeshInstance { model_name: TexturedModelName::OilBubble });
    b.animation = Some(
        Animation {
            duration: dur,
            past_time: past,
            animation_type: AnimationType::Bubble,
            on_animation_finish: OnAnimationFinish::RepeatBubble,
            target_x: x,
            target_y: -6000,
            target_z: z,
        },
    );
    b
}

/// Spawns the camera, the plate, the oil sea, and the twenty bubbles
/// with placement and timing drawn from the fixed-seed generator.
fn batch_spawn_entities(world: &mut World)
    requires
        old(world).wf(),
    ensures
        final(world).wf(),
        final(world).alive_count() == old(world).alive_count() + 23,
        exists|bub: Seq<(i64, i64, i64, i64)>|
            #[trigger] spec_level_world_partial(final(world).slots@, old(world).slots@, bub),
{
    let ghost s0 = world.slots@;
    let mut bs: Vec<Bundle> = Vec::new();

    let mut cam = Bundle::empty();
    cam.position = Some(Position { x: 0, y: 27500, z: 25000 });
    cam.camera = Some(
        Camera {
            r: 0x00,
            g: 0x00,
            b: 0x00,
            up_x: 0,
            up_y: 1000,
            up_z: 0,
            lookat_x: 0,
            lookat_y: -6000,
            lookat_z: 0,
        },
    );
    proof {
        assert(cam == spec_camera_bundle());
    }
    bs.push(cam);

    let mut plate = Bundle::empty();
    plate.position = Some(Position { x: 0, y: -1500, z: 0 });
    plate.rotation = Some(Rotation { x: 0, y: 0, z: 0 });
    plate.mesh_instance = Some(MeshInstance { model_name: TexturedModelName::Plate });
    proof {
        assert(plate == spec_plate_bundle());
    }
    bs.push(plate);

    let mut oil = Bundle::empty();
    oil.position = Some(Position { x: 0, y: -15000, z: 0 });
    oil.rotation = Some(Rotation { x: 0, y: 0, z: 0 });
    oil.mesh_instance = Some(MeshInstance { model_name: TexturedModelName::OilSea });
    proof {
        assert(oil == spec_oil_bundle());
    }
    bs.push(oil);

    let mut rng = rng_from_seed(10u64);
    let mut params: Vec<(i64, i64, i64, i64)> = Vec::new();
    let mut k: usize = 0;
    while k < 20
        invariant
            0 <= k <= 20,
            params@.len() == k,
            bs@.len() == 3 + k,
            bs@[0] == spec_camera_bundle(),
            bs@[1] == spec_plate_bundle(),
            bs@[2] == spec_oil_bundle(),
            forall|j: int| 0 <= j < k ==> bubble_params_ok(#[trigger] params@[j]),
            forall|j: int|
                0 <= j < k ==> bs@[j + 3] == spec_bubble_bundle(#[trigger] params@[j]) && bundle_wf(
                    bs@[j + 3],
                ),
        decreases 20 - k,
    {
        let x = scale_draw(rng_next_u32(&mut rng), 40000) - 20000;
        let z = scale_draw(rng_next_u32(&mut rng), 40000) - 20000;
        let dur = 500 + scale_draw(rng_next_u32(&mut rng), 2000);
        let past = scale_draw(rng_next_u32(&mut rng), 2000);
        params.push((x, z, dur, past));
        bs.push(bubble_bundle(x, z, dur, past));
        k += 1;
    }
    proof {
        assert(bs@ =~= spec_level_bundles(params@));
        assert(bundle_wf(spec_camera_bundle()));
        assert(bundle_wf(spec_plate_bundle()));
        assert(bundle_wf(spec_oil_bundle()));
        assert(forall|j: int| 0 <= j < bs@.len() ==> bundle_wf(#[trigger] bs@[j]));
    }
    let cb = CommandBuffer { despawns: Vec::new(), spawns: bs };
    cb.apply(world);
    proof {
        assert(apply_despawns_from(s0, cb.despawns@, 0) == s0);
        lemma_apply_spawns_wf(s0, cb.spawns@, 0);
        lemma_apply_spawns_count(s0, cb.spawns@, 0);
        assert(spec_level_world_partial(world.slots@, s0, params@));
    }
}

/// Helper shape of the batch-spawn outcome, used to give the existential
/// in the contract its witness.
pub open spec fn spec_level_world_partial(
    slots: Seq<Slot>,
    s0: Seq<Slot>,
    bub: Seq<(i64, i64, i64, i64)>,
) -> bool {
    &&& bub.len() == 20
    &&& (forall|k: int| 0 <= k < 20 ==> bubble_params_ok(#[trigger] bub[k]))
    &&& slots == apply_spawns_from(s0, spec_level_bundles(bub), 0)
}

} // verus!
