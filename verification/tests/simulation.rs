//! Whole-pipeline scenarios: the intro chain, scoring, phases, and
//! determinism.

use gamelib::components::game::{
    Animation, AnimationType, FryAssignment, OnAnimationFinish, Platform,
};
use gamelib::components::motion::Position;
use gamelib::controls::{Controls, Direction, MotionControl};
use gamelib::game_state::{GameState, GameStateName, PlayMode};
use gamelib::game_states::bouncing_cubes;
use gamelib::game_states::moving_platform_test;
use gamelib::systems::gamemaster::{system_game_finish, system_game_start};
use gamelib::systems::render::system_render_meshes;
use gamelib::world::{Bundle, World};

fn run_frame(state: &mut GameState, delta: i64) {
    state.begin_frame(Controls::new(), delta);
    state.run_systems();
}

fn alive_count(w: &World) -> usize {
    w.slots.iter().filter(|s| s.comps.is_some()).count()
}

fn fry_count(w: &World) -> usize {
    w.slots
        .iter()
        .filter(|s| s.comps.as_ref().map_or(false, |b| b.fry_assignment.is_some()))
        .count()
}

fn actor_count(w: &World) -> usize {
    w.slots
        .iter()
        .filter(|s| s.comps.as_ref().map_or(false, |b| b.collider.is_some()))
        .count()
}

fn chain_count(w: &World) -> usize {
    w.slots
        .iter()
        .filter(|s| {
            s.comps.as_ref().map_or(false, |b| {
                b.animation.as_ref().map_or(false, |a| {
                    matches!(
                        a.on_animation_finish,
                        OnAnimationFinish::Hand3
                            | OnAnimationFinish::Hand2
                            | OnAnimationFinish::Hand1
                            | OnAnimationFinish::Hand0
                            | OnAnimationFinish::Start
                    )
                })
            })
        })
        .count()
}

#[test]
fn test_exit() {
    // Doing nothing should not exit the game.
    let mut state = GameState::new();
    gamelib::systems::actions::system_exit_action(&mut state);
    assert_eq!(state.is_running, true);

    // Pressing the home button should exit the game.
    state.changes.controls.wii_mote_controls[0].home_button_down = true;
    assert_eq!(state.is_running, true);
    gamelib::systems::actions::system_exit_action(&mut state);
    assert_eq!(state.is_running, false);
}

#[test]
fn fresh_level_starts_in_selection_with_its_entities() {
    let state = bouncing_cubes::build();
    assert!(matches!(state.playmode, PlayMode::Selection));
    assert!(state.is_running);
    // Camera, plate, oil sea, twenty bubbles, and the music entity.
    assert_eq!(alive_count(&state.world), 24);
    assert_eq!(fry_count(&state.world), 0);
    assert_eq!(state.systems.len(), 12);

    let small = moving_platform_test::build();
    assert_eq!(alive_count(&small.world), 1);
    assert_eq!(small.systems.len(), 2);
}

#[test]
fn first_frame_enters_hands_with_the_intro_seed() {
    let mut state = bouncing_cubes::build();
    run_frame(&mut state, 100);
    assert!(matches!(state.playmode, PlayMode::Hands));
    // Exactly one chain entity exists: the seed whose completion will
    // spawn stage three.
    assert_eq!(chain_count(&state.world), 1);
    assert_eq!(alive_count(&state.world), 25);
}

#[test]
fn intro_chain_ends_in_playing_with_the_gameplay_set() {
    let mut state = bouncing_cubes::build();
    // The chain's stage durations sum to four seconds; six seconds of
    // frames cover it with slack.
    for _ in 0..60 {
        run_frame(&mut state, 100);
    }
    assert!(matches!(state.playmode, PlayMode::Playing));
    // No intermediate stage leaked.
    assert_eq!(chain_count(&state.world), 0);
    // Exactly the four competitor pans and the twenty actors joined the
    // 24 initial level entities.
    assert_eq!(fry_count(&state.world), 4);
    assert_eq!(actor_count(&state.world), 20);
    assert_eq!(alive_count(&state.world), 24 + 24);

    // The start-gameplay event fired exactly once: more frames never
    // spawn a second gameplay set.
    for _ in 0..60 {
        run_frame(&mut state, 100);
    }
    assert_eq!(fry_count(&state.world), 4);
    assert_eq!(actor_count(&state.world), 20);
}

fn fry_entity(world: &mut World, id: u32, score: u32) {
    let mut b = Bundle::empty();
    b.position = Some(Position { x: 1000 * id as i64, y: 0, z: 0 });
    b.fry_assignment = Some(FryAssignment { id, score });
    b.animation = Some(Animation {
        duration: 5000,
        past_time: 0,
        animation_type: AnimationType::FryerSpin0,
        on_animation_finish: OnAnimationFinish::Fryer,
        target_x: 0,
        target_y: 0,
        target_z: 0,
    });
    world.spawn(b);
}

#[test]
fn scoring_keeps_the_winner_and_removes_the_losers() {
    let mut state = GameState::new();
    state.playmode = PlayMode::Playing;
    fry_entity(&mut state.world, 0, 25);
    fry_entity(&mut state.world, 1, 5);
    fry_entity(&mut state.world, 2, 10);
    fry_entity(&mut state.world, 3, 15);

    system_game_finish(&mut state);

    assert!(matches!(state.playmode, PlayMode::Finish));
    assert_eq!(fry_count(&state.world), 1);
    assert_eq!(alive_count(&state.world), 1);
    let winner = state
        .world
        .slots
        .iter()
        .find_map(|s| s.comps.as_ref())
        .expect("the winner survives");
    assert_eq!(winner.fry_assignment.unwrap().score, 25);
    let a = winner.animation.unwrap();
    assert!(matches!(a.animation_type, AnimationType::FryerWin));
    assert!(matches!(a.on_animation_finish, OnAnimationFinish::Restart));
    assert_eq!(a.duration, 5000);
    assert_eq!(a.past_time, 0);
    // The win animation rises toward a point above the winner.
    assert_eq!(a.target_y, 5000);
}

#[test]
fn scoring_without_a_winner_changes_nothing() {
    let mut state = GameState::new();
    state.playmode = PlayMode::Playing;
    fry_entity(&mut state.world, 0, 20);
    fry_entity(&mut state.world, 1, 3);
    system_game_finish(&mut state);
    assert!(matches!(state.playmode, PlayMode::Playing));
    assert_eq!(fry_count(&state.world), 2);
}

#[test]
fn platforms_are_parked_by_the_finish_pass() {
    let mut state = GameState::new();
    let mut b = Bundle::empty();
    b.position = Some(Position { x: 1, y: 2, z: 3 });
    b.platform = Some(Platform {});
    state.world.spawn(b);
    system_game_finish(&mut state);
    let p = state.world.get_position(0).unwrap();
    assert_eq!((p.x, p.y, p.z), (1, 99999000, 3));
}

#[test]
fn win_animation_completion_requests_the_restart() {
    let mut state = GameState::new();
    state.playmode = PlayMode::Playing;
    fry_entity(&mut state.world, 0, 25);
    system_game_finish(&mut state);
    assert!(matches!(state.playmode, PlayMode::Finish));
    assert!(state.next_state.is_none());

    state.add_system(gamelib::systems::system_name::SystemName::GameMaster);
    // The five-second win animation completes within six seconds.
    for _ in 0..60 {
        run_frame(&mut state, 100);
        // Finish is never left within the same game state.
        assert!(matches!(state.playmode, PlayMode::Finish));
    }
    assert_eq!(state.next_state, Some(GameStateName::BouncingCubes));

    // The request is honored exactly once, then cleared; the host
    // rebuilds a fresh Selection world instead of reusing this one.
    assert_eq!(state.take_next_state(), Some(GameStateName::BouncingCubes));
    assert_eq!(state.take_next_state(), None);
    let fresh = bouncing_cubes::build();
    assert!(matches!(fresh.playmode, PlayMode::Selection));
}

fn positions_of(state: &GameState) -> Vec<(i64, i64, i64)> {
    state
        .world
        .slots
        .iter()
        .filter_map(|s| s.comps.as_ref())
        .filter_map(|b| b.position)
        .map(|p| (p.x, p.y, p.z))
        .collect()
}

#[test]
fn identical_runs_trace_identical_positions() {
    let mut a = bouncing_cubes::build();
    let mut b = bouncing_cubes::build();
    assert_eq!(positions_of(&a), positions_of(&b));
    for frame in 0..120 {
        run_frame(&mut a, 100);
        run_frame(&mut b, 100);
        assert_eq!(positions_of(&a), positions_of(&b), "frame {}", frame);
    }
}

#[test]
fn phases_only_move_forward_and_never_skip_hands() {
    let mut state = bouncing_cubes::build();
    let rank = |p: &PlayMode| match p {
        PlayMode::Selection => 0,
        PlayMode::Hands => 1,
        PlayMode::Playing => 2,
        PlayMode::Finish => 3,
    };
    let mut prev = state.playmode;
    for _ in 0..80 {
        run_frame(&mut state, 100);
        let cur = state.playmode;
        assert!(rank(&prev) <= rank(&cur));
        // No frame jumps from Selection past Hands.
        if matches!(prev, PlayMode::Selection) {
            assert!(rank(&cur) <= 1);
        }
        prev = cur;
    }
    assert!(matches!(state.playmode, PlayMode::Playing));
}

#[test]
fn game_start_fires_only_from_selection() {
    let mut state = GameState::new();
    system_game_start(&mut state);
    assert!(matches!(state.playmode, PlayMode::Hands));
    let count = alive_count(&state.world);
    system_game_start(&mut state);
    assert!(matches!(state.playmode, PlayMode::Hands));
    assert_eq!(alive_count(&state.world), count);
}

#[test]
fn render_pass_collects_every_mesh_with_a_position() {
    let mut state = moving_platform_test::build();
    system_render_meshes(&mut state);
    assert_eq!(state.frame_meshes.len(), 1);
    let (_, p) = &state.frame_meshes[0];
    assert_eq!((p.x, p.y, p.z), (0, 0, 0));
}

#[test]
fn stop_action_zeroes_every_velocity() {
    let mut state = bouncing_cubes::build();
    for _ in 0..60 {
        run_frame(&mut state, 100);
    }
    // The actors carry drawn velocities; at least one is nonzero.
    let moving = state
        .world
        .slots
        .iter()
        .filter_map(|s| s.comps.as_ref())
        .filter_map(|b| b.velocity)
        .any(|v| v.x != 0 || v.y != 0 || v.z != 0);
    assert!(moving);
    state.changes.controls.wii_mote_controls[0].one_button_down = true;
    gamelib::systems::actions::system_stop_action(&mut state);
    for s in state.world.slots.iter() {
        if let Some(b) = &s.comps {
            if let Some(v) = b.velocity {
                assert_eq!((v.x, v.y, v.z), (0, 0, 0));
            }
        }
    }
}

#[test]
fn shake_action_nudges_every_velocity_alike() {
    let mut state = bouncing_cubes::build();
    for _ in 0..60 {
        run_frame(&mut state, 100);
    }
    let before: Vec<i64> = state
        .world
        .slots
        .iter()
        .filter_map(|s| s.comps.as_ref())
        .filter_map(|b| b.velocity)
        .map(|v| v.y)
        .collect();
    assert!(!before.is_empty());

    // A motion that has not started changes nothing.
    state.changes.controls.wii_mote_controls[0].motion = Some(MotionControl {
        direction: Direction::Zp,
        started: false,
        ended: false,
    });
    gamelib::systems::actions::system_shake_action(&mut state);
    let unchanged: Vec<i64> = state
        .world
        .slots
        .iter()
        .filter_map(|s| s.comps.as_ref())
        .filter_map(|b| b.velocity)
        .map(|v| v.y)
        .collect();
    assert_eq!(before, unchanged);

    // A just-started upward motion adds one common impulse to every y.
    state.changes.controls.wii_mote_controls[0].motion = Some(MotionControl {
        direction: Direction::Zp,
        started: true,
        ended: false,
    });
    gamelib::systems::actions::system_shake_action(&mut state);
    let after: Vec<i64> = state
        .world
        .slots
        .iter()
        .filter_map(|s| s.comps.as_ref())
        .filter_map(|b| b.velocity)
        .map(|v| v.y)
        .collect();
    assert_eq!(before.len(), after.len());
    let d0 = after[0] - before[0];
    assert!((-100..=400).contains(&d0));
    for k in 0..before.len() {
        assert_eq!(after[k] - before[k], d0);
    }
}

#[test]
fn level_entities_carry_their_designed_values() {
    let state = bouncing_cubes::build();
    // Slot 0 holds the camera, looking down from above the field.
    let cam = state.world.slots[0].comps.as_ref().unwrap();
    let p = cam.position.unwrap();
    assert_eq!((p.x, p.y, p.z), (0, 27500, 25000));
    let c = cam.camera.unwrap();
    assert_eq!((c.up_x, c.up_y, c.up_z), (0, 1000, 0));
    assert_eq!((c.lookat_x, c.lookat_y, c.lookat_z), (0, -6000, 0));

    // Every bubble's drawn parameters landed in their scaled ranges.
    let mut bubbles = 0;
    for s in state.world.slots.iter() {
        if let Some(b) = &s.comps {
            if let Some(a) = b.animation {
                if matches!(a.on_animation_finish, OnAnimationFinish::RepeatBubble) {
                    bubbles += 1;
                    let p = b.position.unwrap();
                    assert!((-20000..=20000).contains(&p.x));
                    assert_eq!(p.y, -6000);
                    assert!((-20000..=20000).contains(&p.z));
                    assert!((500..=2500).contains(&a.duration));
                    assert!((0..=2000).contains(&a.past_time));
                    // The bubble recurs around its own spawn point.
                    assert_eq!((a.target_x, a.target_y, a.target_z), (p.x, p.y, p.z));
                }
            }
        }
    }
    assert_eq!(bubbles, 20);
}

#[test]
fn gameplay_actors_start_on_the_grid_with_bounded_velocities() {
    let mut state = bouncing_cubes::build();
    for _ in 0..60 {
        run_frame(&mut state, 100);
    }
    let mut seen = 0;
    for s in state.world.slots.iter() {
        if let Some(b) = &s.comps {
            if b.collider.is_some() {
                let v = b.velocity.unwrap();
                assert!((0..=100).contains(&v.x));
                assert!((0..=100).contains(&v.y));
                assert!((0..=100).contains(&v.z));
                seen += 1;
            }
        }
    }
    assert_eq!(seen, 20);
}
