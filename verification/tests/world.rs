//! Store-level behaviour: spawn/despawn, generational handles, and the
//! command buffer's counting discipline.

use gamelib::components::motion::Position;
use gamelib::world::{Bundle, CommandBuffer, World};

fn pos_bundle(x: i64) -> Bundle {
    let mut b = Bundle::empty();
    b.position = Some(Position { x, y: 0, z: 0 });
    b
}

fn alive_count(w: &World) -> usize {
    w.slots.iter().filter(|s| s.comps.is_some()).count()
}

#[test]
fn spawn_then_despawn_roundtrip() {
    let mut w = World::new();
    let e = w.spawn(pos_bundle(7));
    assert_eq!(alive_count(&w), 1);
    assert_eq!(w.get_position(e.index).unwrap().x, 7);
    assert!(w.despawn(e));
    assert_eq!(alive_count(&w), 0);
}

#[test]
fn despawn_of_stale_handle_is_a_reported_no_op() {
    let mut w = World::new();
    let e = w.spawn(pos_bundle(1));
    assert!(w.despawn(e));
    // A second removal through the same handle changes nothing.
    assert!(!w.despawn(e));
    assert_eq!(alive_count(&w), 0);
}

#[test]
fn reused_slot_gets_a_new_generation() {
    let mut w = World::new();
    let e1 = w.spawn(pos_bundle(1));
    assert!(w.despawn(e1));
    let e2 = w.spawn(pos_bundle(2));
    // The slot is recycled under a bumped generation, so the stale
    // handle does not alias the new entity.
    assert_eq!(e2.index, e1.index);
    assert!(e2.generation > e1.generation);
    assert!(!w.despawn(e1));
    assert_eq!(alive_count(&w), 1);
    assert_eq!(w.get_position(e2.index).unwrap().x, 2);
}

#[test]
fn buffered_mutation_counts_exactly() {
    // Structural-mutation discipline: buffering N despawns and M spawns
    // during one pass leaves exactly existing - N + M entities.
    let mut w = World::new();
    let mut handles = Vec::new();
    for k in 0..8 {
        handles.push(w.spawn(pos_bundle(k)));
    }
    assert_eq!(alive_count(&w), 8);

    let mut buf = CommandBuffer::new();
    // Buffer three despawns in scrambled order and two spawns.
    buf.despawns.push(handles[5]);
    buf.despawns.push(handles[0]);
    buf.despawns.push(handles[3]);
    buf.spawns.push(pos_bundle(100));
    buf.spawns.push(pos_bundle(101));
    buf.apply(&mut w);

    assert_eq!(alive_count(&w), 8 - 3 + 2);
    // The two buffered spawns recycled the first two freed slots under
    // new generations; the third freed slot stays empty.
    assert_eq!(w.get_position(0).unwrap().x, 100);
    assert_eq!(w.get_position(3).unwrap().x, 101);
    assert!(w.get_position(5).is_none());
    // The stale handles of the despawned entities alias nothing.
    assert!(!w.despawn(handles[0]));
    assert!(!w.despawn(handles[3]));
    // The survivors are untouched.
    assert_eq!(w.get_position(handles[1].index).unwrap().x, 1);
    assert_eq!(w.get_position(handles[7].index).unwrap().x, 7);
}

#[test]
fn spawns_fill_the_first_free_slot() {
    let mut w = World::new();
    let a = w.spawn(pos_bundle(0));
    let b = w.spawn(pos_bundle(1));
    let c = w.spawn(pos_bundle(2));
    assert_eq!((a.index, b.index, c.index), (0, 1, 2));
    assert!(w.despawn(b));
    let d = w.spawn(pos_bundle(3));
    assert_eq!(d.index, 1);
    assert_eq!(w.len(), 3);
}
