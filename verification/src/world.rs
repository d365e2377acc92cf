//! The component store: entities, their components, and deferred
//! structural mutation.
//!
//! An entity is a generational index. A despawned slot keeps its
//! generation until it is reused, and reuse bumps the generation, so a
//! stale handle to a despawned-and-reused slot is detected instead of
//! silently aliasing the new entity. Spawning fills the first free slot
//! (or grows the store), so the store's behaviour is a function of its
//! state and trajectories are reproducible.
//!
//! Structural mutation must never interleave with an iteration over the
//! store: systems collect pending spawns and despawns into a
//! [`CommandBuffer`] while they iterate and apply it afterwards.

use crate::components::audio::Audio;
use crate::components::game::Animation;
use crate::components::game::Camera;
use crate::components::game::ControllerAssignment;
use crate::components::game::FryAssignment;
use crate::components::game::Platform;
use crate::components::game::animation_wf;
use crate::components::motion::Position;
use crate::components::motion::Rotation;
use crate::components::motion::Velocity;
use crate::components::motion::position_wf;
use crate::components::motion::velocity_wf;
use crate::components::physics::SphereCollider;
use crate::components::render::MeshInstance;
use crate::components::render::Text;
use vstd::prelude::*;

verus! {

/// Handle to a live entity: a slot index and the generation the slot had
/// when the entity was spawned.
#[derive(Debug, PartialEq, Eq, Structural, Clone, Copy)]
pub struct Entity {
    pub index: usize,
    pub generation: u64,
}

/// The full set of components an entity may own; absent components are
/// `None`.
#[derive(Debug)]
pub struct Bundle {
    pub position: Option<Position>,
    pub velocity: Option<Velocity>,
    pub rotation: Option<Rotation>,
    pub camera: Option<Camera>,
    pub mesh_instance: Option<MeshInstance>,
    pub text: Option<Text>,
    pub animation: Option<Animation>,
    pub fry_assignment: Option<FryAssignment>,
    pub controller_assignment: Option<ControllerAssignment>,
    pub collider: Option<SphereCollider>,
    pub audio: Option<Audio>,
    pub platform: Option<Platform>,
}

impl Clone for Bundle {
    /// Clones the component set, field for field.
    fn clone(&self) -> (r: Self)
        ensures
            r == self,
    {
        Bundle {
            position: self.position,
            velocity: self.velocity,
            rotation: self.rotation,
            camera: self.camera,
            mesh_instance: self.mesh_instance,
            text: match &self.text {
                Some(t) => Some(t.clone()),
                None => None,
            },
            animation: self.animation,
            fry_assignment: self.fry_assignment,
            controller_assignment: self.controller_assignment,
            collider: self.collider,
            audio: self.audio,
            platform: self.platform,
        }
    }
}

impl Bundle {
    /// A bundle with no components.
    pub open spec fn spec_empty() -> Bundle {
        Bundle {
            position: None,
            velocity: None,
            rotation: None,
            camera: None,
            mesh_instance: None,
            text: None,
            animation: None,
            fry_assignment: None,
            controller_assignment: None,
            collider: None,
            audio: None,
            platform: None,
        }
    }

    /// Builds a bundle with no components; callers fill in the fields
    /// they need.
    pub fn empty() -> (r: Bundle)
        ensures
            r == Bundle::spec_empty(),
    {
        Bundle {
            position: None,
            velocity: None,
            rotation: None,
            camera: None,
            mesh_instance: None,
            text: None,
            animation: None,
            fry_assignment: None,
            controller_assignment: None,
            collider: None,
            audio: None,
            platform: None,
        }
    }
}

/// The components whose values range over machine integers stay inside
/// their modelled ranges.
pub open spec fn bundle_wf(b: Bundle) -> bool {
    &&& (b.position matches Some(p) ==> position_wf(p))
    &&& (b.velocity matches Some(v) ==> velocity_wf(v))
    &&& (b.animation matches Some(a) ==> animation_wf(a))
}

/// One storage slot: its reuse generation and, when occupied, the
/// entity's components.
#[derive(Debug)]
pub struct Slot {
    pub generation: u64,
    pub comps: Option<Bundle>,
}

/// Counts the occupied slots of a sequence.
pub open spec fn count_alive(s: Seq<Slot>) -> nat
    decreases s.len(),
{
    if s.len() == 0 {
        0
    } else {
        count_alive(s.drop_last()) + (if s.last().comps is Some {
            1nat
        } else {
            0nat
        })
    }
}

/// Replacing one slot changes the occupied count by the difference the
/// replacement makes.
pub proof fn lemma_count_alive_update(s: Seq<Slot>, i: int, v: Slot)
    requires
        0 <= i < s.len(),
    ensures
        count_alive(s.update(i, v)) == count_alive(s) + (if v.comps is Some {
            1int
        } else {
            0int
        }) - (if s[i].comps is Some {
            1int
        } else {
            0int
        }),
    decreases s.len(),
{
    let t = s.update(i, v);
    assert(t.len() == s.len());
    if i == s.len() - 1 {
        assert(t.drop_last() =~= s.drop_last());
        assert(t.last() == v);
    } else {
        assert(t.drop_last() =~= s.drop_last().update(i, v));
        assert(t.last() == s.last());
        lemma_count_alive_update(s.drop_last(), i, v);
    }
}

/// Appending a slot adds its occupancy to the count.
pub proof fn lemma_count_alive_push(s: Seq<Slot>, v: Slot)
    ensures
        count_alive(s.push(v)) == count_alive(s) + (if v.comps is Some {
            1int
        } else {
            0int
        }),
{
    let t = s.push(v);
    assert(t.drop_last() =~= s);
    assert(t.last() == v);
}

/// Whether slot `i` can hold a new entity: it is unoccupied and its
/// generation counter can still be bumped.
pub open spec fn free_at(s: Seq<Slot>, i: int) -> bool {
    &&& s[i].comps is None
    &&& s[i].generation < u64::MAX
}

/// The first reusable slot at or after `i`, or `s.len()` if none.
pub open spec fn first_free_from(s: Seq<Slot>, i: int) -> int
    decreases s.len() - i when 0 <= i <= s.len()
{
    if i >= s.len() {
        s.len() as int
    } else if free_at(s, i) {
        i
    } else {
        first_free_from(s, i + 1)
    }
}

/// Whether `e` refers to a live entity of the slot sequence.
pub open spec fn slots_contains(s: Seq<Slot>, e: Entity) -> bool {
    &&& 0 <= e.index < s.len()
    &&& s[e.index as int].comps is Some
    &&& s[e.index as int].generation == e.generation
}

/// The slots after despawning `e`: emptied if the handle is live, else
/// unchanged.
pub open spec fn slots_despawn(s: Seq<Slot>, e: Entity) -> Seq<Slot> {
    if slots_contains(s, e) {
        s.update(e.index as int, Slot { generation: e.generation, comps: None })
    } else {
        s
    }
}

/// The slots after spawning `b`: the first free slot refilled under a
/// bumped generation, or a fresh slot appended.
pub open spec fn slots_spawn(s: Seq<Slot>, b: Bundle) -> Seq<Slot> {
    let i = first_free_from(s, 0);
    if i < s.len() {
        s.update(i, Slot { generation: (s[i].generation + 1) as u64, comps: Some(b) })
    } else {
        s.push(Slot { generation: 0, comps: Some(b) })
    }
}

/// The store of all entities and their components.
#[derive(Debug)]
pub struct World {
    pub slots: Vec<Slot>,
}

impl World {
    /// The slot sequence the specifications speak of.
    pub open spec fn view_slots(self) -> Seq<Slot> {
        self.slots@
    }

    /// Number of slots, occupied or not.
    pub open spec fn spec_len(self) -> int {
        self.slots@.len() as int
    }

    /// Whether slot `i` currently holds a live entity.
    pub open spec fn alive_at(self, i: int) -> bool {
        &&& 0 <= i < self.slots@.len()
        &&& self.slots@[i].comps is Some
    }

    /// The components of the live entity in slot `i`.
    pub open spec fn bundle_at(self, i: int) -> Bundle {
        self.slots@[i].comps.unwrap()
    }

    /// Whether the handle still refers to a live entity: the slot is
    /// occupied and the generations agree.
    pub open spec fn contains(self, e: Entity) -> bool {
        slots_contains(self.slots@, e)
    }

    /// Number of live entities.
    pub open spec fn alive_count(self) -> nat {
        count_alive(self.slots@)
    }

    /// Every live entity's numeric components are inside their ranges.
    pub open spec fn wf(self) -> bool {
        slots_wf(self.slots@)
    }

    /// The slot a spawn will fill.
    pub open spec fn spec_spawn_index(self) -> int {
        first_free_from(self.slots@, 0)
    }

    /// The handle a spawn will return.
    pub open spec fn spec_spawn_entity(self) -> Entity {
        let i = self.spec_spawn_index();
        if i < self.slots@.len() {
            Entity {
                index: i as usize,
                generation: (self.slots@[i].generation + 1) as u64,
            }
        } else {
            Entity { index: i as usize, generation: 0 }
        }
    }

    /// The slots after a spawn: the first free slot is refilled under a
    /// bumped generation, or a fresh slot is appended.
    pub open spec fn spec_spawn(self, b: Bundle) -> Seq<Slot> {
        slots_spawn(self.slots@, b)
    }

    /// The slots after a despawn: the slot is emptied, keeping its
    /// generation; an unknown or stale handle changes nothing.
    pub open spec fn spec_despawn(self, e: Entity) -> Seq<Slot> {
        slots_despawn(self.slots@, e)
    }

    /// Builds an empty store.
    pub fn new() -> (r: World)
        ensures
            r.slots@ == Seq::<Slot>::empty(),
            r.alive_count() == 0,
            r.wf(),
    {
        let r = World { slots: Vec::new() };
        proof {
            assert(count_alive(r.slots@) == 0);
        }
        r
    }

    /// Number of slots; live entities sit at indices below this.
    pub fn len(&self) -> (r: usize)
        ensures
            r as int == self.spec_len(),
    {
        self.slots.len()
    }

    /// Finds the first reusable slot, or the store's length if none.
    fn find_free(&self) -> (r: usize)
        ensures
            r as int == self.spec_spawn_index(),
            r <= self.slots@.len(),
            r < self.slots@.len() ==> free_at(self.slots@, r as int),
    {
        let ghost s = self.slots@;
        let n = self.slots.len();
        let mut i: usize = 0;
        while i < n
            invariant
                0 <= i <= n,
                n == s.len(),
                self.slots@ == s,
                first_free_from(s, 0) == first_free_from(s, i as int),
            decreases n - i,
        {
            let slot = &self.slots[i];
            if slot.comps.is_none() && slot.generation < u64::MAX {
                proof {
                    assert(free_at(s, i as int));
                    assert(first_free_from(s, i as int) == i as int);
                }
                return i;
            }
            proof {
                assert(!free_at(s, i as int));
                assert(first_free_from(s, i as int) == first_free_from(s, i as int + 1));
            }
            i += 1;
        }
        proof {
            assert(first_free_from(s, n as int) == n as int);
        }
        i
    }

    /// Inserts a new entity owning the given components. The handle never
    /// aliases a previously issued live handle.
    pub fn spawn(&mut self, b: Bundle) -> (e: Entity)
        ensures
            final(self).slots@ == old(self).spec_spawn(b),
            e == old(self).spec_spawn_entity(),
            final(self).contains(e),
            final(self).bundle_at(e.index as int) == b,
            !old(self).alive_at(e.index as int),
            final(self).alive_count() == old(self).alive_count() + 1,
            forall|j: int|
                0 <= j < old(self).slots@.len() && j != e.index as int ==> final(self).slots@[j]
                    == old(self).slots@[j],
            forall|e2: Entity|
                old(self).contains(e2) ==> final(self).contains(e2) && final(self).bundle_at(
                    e2.index as int,
                ) == old(self).bundle_at(e2.index as int) && e2 != e,
    {
        let ghost w0 = *self;
        let i = self.find_free();
        let n = self.slots.len();
        if i < n {
            let g = self.slots[i].generation;
            self.slots.set(i, Slot { generation: g + 1, comps: Some(b) });
            proof {
                lemma_count_alive_update(
                    w0.slots@,
                    i as int,
                    Slot { generation: (g + 1) as u64, comps: Some(b) },
                );
            }
            Entity { index: i, generation: g + 1 }
        } else {
            self.slots.push(Slot { generation: 0, comps: Some(b) });
            proof {
                lemma_count_alive_push(w0.slots@, Slot { generation: 0, comps: Some(b) });
            }
            Entity { index: i, generation: 0 }
        }
    }

    /// Removes an entity and all its components. Removal of a stale or
    /// unknown handle is a deterministic no-op, reported by the result.
    pub fn despawn(&mut self, e: Entity) -> (removed: bool)
        ensures
            final(self).slots@ == old(self).spec_despawn(e),
            removed == old(self).contains(e),
            removed ==> final(self).alive_count() == old(self).alive_count() - 1,
            !removed ==> *final(self) == *old(self),
            forall|j: int|
                0 <= j < old(self).slots@.len() && j != e.index as int ==> final(self).slots@[j]
                    == old(self).slots@[j],
    {
        let n = self.slots.len();
        if e.index < n {
            let occupied = self.slots[e.index].comps.is_some();
            let g = self.slots[e.index].generation;
            if occupied && g == e.generation {
                self.slots.set(e.index, Slot { generation: g, comps: None });
                proof {
                    lemma_count_alive_update(
                        old(self).slots@,
                        e.index as int,
                        Slot { generation: e.generation, comps: None },
                    );
                }
                return true;
            }
        }
        false
    }
}

impl World {
    /// The position component in slot `i`, if the slot is live and owns
    /// one.
    pub open spec fn position_at(self, i: int) -> Option<Position> {
        if self.alive_at(i) {
            self.bundle_at(i).position
        } else {
            None
        }
    }

    /// The velocity component in slot `i`, if any.
    pub open spec fn velocity_at(self, i: int) -> Option<Velocity> {
        if self.alive_at(i) {
            self.bundle_at(i).velocity
        } else {
            None
        }
    }

    /// The animation component in slot `i`, if any.
    pub open spec fn animation_at(self, i: int) -> Option<Animation> {
        if self.alive_at(i) {
            self.bundle_at(i).animation
        } else {
            None
        }
    }

    /// The scoring component in slot `i`, if any.
    pub open spec fn fry_at(self, i: int) -> Option<FryAssignment> {
        if self.alive_at(i) {
            self.bundle_at(i).fry_assignment
        } else {
            None
        }
    }

    /// Reads the position component of slot `i`.
    pub fn get_position(&self, i: usize) -> (r: Option<Position>)
        requires
            i < self.slots@.len(),
        ensures
            r == self.position_at(i as int),
    {
        match &self.slots[i].comps {
            Some(b) => b.position,
            None => None,
        }
    }

    /// Reads the velocity component of slot `i`.
    pub fn get_velocity(&self, i: usize) -> (r: Option<Velocity>)
        requires
            i < self.slots@.len(),
        ensures
            r == self.velocity_at(i as int),
    {
        match &self.slots[i].comps {
            Some(b) => b.velocity,
            None => None,
        }
    }

    /// Reads the animation component of slot `i`.
    pub fn get_animation(&self, i: usize) -> (r: Option<Animation>)
        requires
            i < self.slots@.len(),
        ensures
            r == self.animation_at(i as int),
    {
        match &self.slots[i].comps {
            Some(b) => b.animation,
            None => None,
        }
    }

    /// Reads the scoring component of slot `i`.
    pub fn get_fry_assignment(&self, i: usize) -> (r: Option<FryAssignment>)
        requires
            i < self.slots@.len(),
        ensures
            r == self.fry_at(i as int),
    {
        match &self.slots[i].comps {
            Some(b) => b.fry_assignment,
            None => None,
        }
    }

    /// Reads the mesh link of slot `i`.
    pub fn get_mesh_instance(&self, i: usize) -> (r: Option<MeshInstance>)
        requires
            i < self.slots@.len(),
        ensures
            r == (if self.alive_at(i as int) {
                self.bundle_at(i as int).mesh_instance
            } else {
                None
            }),
    {
        match &self.slots[i].comps {
            Some(b) => b.mesh_instance,
            None => None,
        }
    }

    /// Reads the camera component of slot `i`.
    pub fn get_camera(&self, i: usize) -> (r: Option<Camera>)
        requires
            i < self.slots@.len(),
        ensures
            r == (if self.alive_at(i as int) {
                self.bundle_at(i as int).camera
            } else {
                None
            }),
    {
        match &self.slots[i].comps {
            Some(b) => b.camera,
            None => None,
        }
    }

    /// Reads the scenery marker of slot `i`.
    pub fn get_platform(&self, i: usize) -> (r: Option<Platform>)
        requires
            i < self.slots@.len(),
        ensures
            r == (if self.alive_at(i as int) {
                self.bundle_at(i as int).platform
            } else {
                None
            }),
    {
        match &self.slots[i].comps {
            Some(b) => b.platform,
            None => None,
        }
    }

    /// Copies the text overlay of slot `i`.
    pub fn get_text(&self, i: usize) -> (r: Option<Text>)
        requires
            i < self.slots@.len(),
        ensures
            r == (if self.alive_at(i as int) {
                self.bundle_at(i as int).text
            } else {
                None::<Text>
            }),
    {
        match &self.slots[i].comps {
            Some(b) => match &b.text {
                Some(t) => Some(t.clone()),
                None => None,
            },
            None => None,
        }
    }

    /// Replaces one component of the live slot `i` with `nb`; shared
    /// plumbing of the setters below.
    fn replace_bundle(&mut self, i: usize, nb: Bundle)
        requires
            old(self).alive_at(i as int),
        ensures
            final(self).slots@ == old(self).slots@.update(
                i as int,
                Slot { generation: old(self).slots@[i as int].generation, comps: Some(nb) },
            ),
            final(self).alive_count() == old(self).alive_count(),
    {
        let g = self.slots[i].generation;
        self.slots.set(i, Slot { generation: g, comps: Some(nb) });
        proof {
            lemma_count_alive_update(
                old(self).slots@,
                i as int,
                Slot { generation: g, comps: Some(nb) },
            );
        }
    }

    /// Overwrites the position of the live entity in slot `i`.
    pub fn set_position(&mut self, i: usize, p: Position)
        requires
            old(self).alive_at(i as int),
        ensures
            final(self).slots@ == old(self).slots@.update(
                i as int,
                Slot {
                    generation: old(self).slots@[i as int].generation,
                    comps: Some(Bundle { position: Some(p), ..old(self).bundle_at(i as int) }),
                },
            ),
            final(self).alive_count() == old(self).alive_count(),
    {
        let nb = match &self.slots[i].comps {
            Some(b) => {
                let mut nb = b.clone();
                nb.position = Some(p);
                nb
            },
            None => Bundle::empty(),
        };
        self.replace_bundle(i, nb);
    }

    /// Overwrites the velocity of the live entity in slot `i`.
    pub fn set_velocity(&mut self, i: usize, v: Velocity)
        requires
            old(self).alive_at(i as int),
        ensures
            final(self).slots@ == old(self).slots@.update(
                i as int,
                Slot {
                    generation: old(self).slots@[i as int].generation,
                    comps: Some(Bundle { velocity: Some(v), ..old(self).bundle_at(i as int) }),
                },
            ),
            final(self).alive_count() == old(self).alive_count(),
    {
        let nb = match &self.slots[i].comps {
            Some(b) => {
                let mut nb = b.clone();
                nb.velocity = Some(v);
                nb
            },
            None => Bundle::empty(),
        };
        self.replace_bundle(i, nb);
    }

    /// Overwrites the animation of the live entity in slot `i`.
    pub fn set_animation(&mut self, i: usize, a: Animation)
        requires
            old(self).alive_at(i as int),
        ensures
            final(self).slots@ == old(self).slots@.update(
                i as int,
                Slot {
                    generation: old(self).slots@[i as int].generation,
                    comps: Some(Bundle { animation: Some(a), ..old(self).bundle_at(i as int) }),
                },
            ),
            final(self).alive_count() == old(self).alive_count(),
    {
        let nb = match &self.slots[i].comps {
            Some(b) => {
                let mut nb = b.clone();
                nb.animation = Some(a);
                nb
            },
            None => Bundle::empty(),
        };
        self.replace_bundle(i, nb);
    }

    /// Overwrites position and animation of the live entity in slot `i`
    /// in one step, as the animation pass does each frame.
    pub fn set_motion(&mut self, i: usize, p: Position, a: Animation)
        requires
            old(self).alive_at(i as int),
        ensures
            final(self).slots@ == old(self).slots@.update(
                i as int,
                Slot {
                    generation: old(self).slots@[i as int].generation,
                    comps: Some(
                        Bundle {
                            position: Some(p),
                            animation: Some(a),
                            ..old(self).bundle_at(i as int)
                        },
                    ),
                },
            ),
            final(self).alive_count() == old(self).alive_count(),
    {
        let nb = match &self.slots[i].comps {
            Some(b) => {
                let mut nb = b.clone();
                nb.position = Some(p);
                nb.animation = Some(a);
                nb
            },
            None => Bundle::empty(),
        };
        self.replace_bundle(i, nb);
    }
}

/// The slots after despawning `ds[k..]` in order.
pub open spec fn apply_despawns_from(s: Seq<Slot>, ds: Seq<Entity>, k: int) -> Seq<Slot>
    decreases ds.len() - k when 0 <= k <= ds.len()
{
    if k >= ds.len() {
        s
    } else {
        apply_despawns_from(slots_despawn(s, ds[k]), ds, k + 1)
    }
}

/// The slots after spawning `bs[k..]` in order.
pub open spec fn apply_spawns_from(s: Seq<Slot>, bs: Seq<Bundle>, k: int) -> Seq<Slot>
    decreases bs.len() - k when 0 <= k <= bs.len()
{
    if k >= bs.len() {
        s
    } else {
        apply_spawns_from(slots_spawn(s, bs[k]), bs, k + 1)
    }
}

/// The slots after flushing a command buffer: all despawns, then all
/// spawns, never interleaved.
pub open spec fn apply_commands(s: Seq<Slot>, ds: Seq<Entity>, bs: Seq<Bundle>) -> Seq<Slot> {
    apply_spawns_from(apply_despawns_from(s, ds, 0), bs, 0)
}

/// The pending despawns `ds[k..]` are live in `s` and name pairwise
/// distinct slots, so each one will in fact remove an entity.
pub open spec fn despawns_valid_from(s: Seq<Slot>, ds: Seq<Entity>, k: int) -> bool {
    &&& (forall|j: int| k <= j < ds.len() ==> slots_contains(s, #[trigger] ds[j]))
    &&& (forall|j: int, l: int|
        k <= j < l < ds.len() ==> (#[trigger] ds[j]).index != (#[trigger] ds[l]).index)
}

/// All pending despawns are live and pairwise distinct.
pub open spec fn despawns_valid(s: Seq<Slot>, ds: Seq<Entity>) -> bool {
    despawns_valid_from(s, ds, 0)
}

/// Spawning always adds exactly one live entity.
pub proof fn lemma_slots_spawn_count(s: Seq<Slot>, b: Bundle)
    ensures
        count_alive(slots_spawn(s, b)) == count_alive(s) + 1,
{
    let i = first_free_from(s, 0);
    lemma_first_free_in_range(s, 0);
    if i < s.len() {
        lemma_count_alive_update(
            s,
            i,
            Slot { generation: (s[i].generation + 1) as u64, comps: Some(b) },
        );
    } else {
        lemma_count_alive_push(s, Slot { generation: 0, comps: Some(b) });
    }
}

/// The first free slot is inside the sequence or just past its end, and
/// free when inside.
pub proof fn lemma_first_free_in_range(s: Seq<Slot>, k: int)
    requires
        0 <= k <= s.len(),
    ensures
        k <= first_free_from(s, k) <= s.len(),
        first_free_from(s, k) < s.len() ==> free_at(s, first_free_from(s, k)),
    decreases s.len() - k,
{
    if k < s.len() && !free_at(s, k) {
        lemma_first_free_in_range(s, k + 1);
    }
}

/// Each pending spawn adds one live entity.
pub proof fn lemma_apply_spawns_count(s: Seq<Slot>, bs: Seq<Bundle>, k: int)
    requires
        0 <= k <= bs.len(),
    ensures
        count_alive(apply_spawns_from(s, bs, k)) == count_alive(s) + (bs.len() - k),
    decreases bs.len() - k,
{
    if k < bs.len() {
        lemma_slots_spawn_count(s, bs[k]);
        lemma_apply_spawns_count(slots_spawn(s, bs[k]), bs, k + 1);
    }
}

/// Each pending despawn of a live, distinct handle removes one entity.
proof fn lemma_apply_despawns_count(s: Seq<Slot>, ds: Seq<Entity>, k: int)
    requires
        0 <= k <= ds.len(),
        despawns_valid_from(s, ds, k),
    ensures
        count_alive(apply_despawns_from(s, ds, k)) == count_alive(s) - (ds.len() - k),
    decreases ds.len() - k,
{
    if k < ds.len() {
        let e = ds[k];
        let t = slots_despawn(s, e);
        assert(slots_contains(s, e));
        lemma_count_alive_update(
            s,
            e.index as int,
            Slot { generation: e.generation, comps: None },
        );
        assert forall|j: int| k + 1 <= j < ds.len() implies slots_contains(
            t,
            #[trigger] ds[j],
        ) by {
            assert(ds[j].index != e.index);
            assert(slots_contains(s, ds[j]));
        }
        lemma_apply_despawns_count(t, ds, k + 1);
    }
}

/// Buffered structural mutation leaves exactly
/// `existing - despawned + spawned` live entities, whatever order the
/// despawned handles were collected in.
pub proof fn lemma_apply_commands_count(s: Seq<Slot>, ds: Seq<Entity>, bs: Seq<Bundle>)
    requires
        despawns_valid(s, ds),
    ensures
        count_alive(apply_commands(s, ds, bs)) == count_alive(s) - ds.len() + bs.len(),
{
    lemma_apply_despawns_count(s, ds, 0);
    lemma_apply_spawns_count(apply_despawns_from(s, ds, 0), bs, 0);
}

/// Pending structural changes, collected while a query pass iterates and
/// flushed only after it has finished.
#[derive(Debug)]
pub struct CommandBuffer {
    pub despawns: Vec<Entity>,
    pub spawns: Vec<Bundle>,
}

impl CommandBuffer {
    /// An empty buffer.
    pub fn new() -> (r: CommandBuffer)
        ensures
            r.despawns@ == Seq::<Entity>::empty(),
            r.spawns@ == Seq::<Bundle>::empty(),
    {
        CommandBuffer { despawns: Vec::new(), spawns: Vec::new() }
    }

    /// Flushes the buffer into the store: all despawns first, then all
    /// spawns, never interleaved with any iteration.
    pub fn apply(&self, world: &mut World)
        ensures
            final(world).slots@ == apply_commands(old(world).slots@, self.despawns@, self.spawns@),
    {
        let ghost s0 = world.slots@;
        let ghost ds = self.despawns@;
        let ghost bs = self.spawns@;
        let nd = self.despawns.len();
        let mut k: usize = 0;
        while k < nd
            invariant
                0 <= k <= nd,
                nd == ds.len(),
                self.despawns@ == ds,
                self.spawns@ == bs,
                apply_despawns_from(world.slots@, ds, k as int) == apply_despawns_from(s0, ds, 0),
            decreases nd - k,
        {
            let e = self.despawns[k];
            world.despawn(e);
            k += 1;
        }
        let ghost s1 = world.slots@;
        let ns = self.spawns.len();
        let mut k2: usize = 0;
        while k2 < ns
            invariant
                0 <= k2 <= ns,
                ns == bs.len(),
                self.spawns@ == bs,
                apply_spawns_from(world.slots@, bs, k2 as int) == apply_spawns_from(s1, bs, 0),
            decreases ns - k2,
        {
            let b = self.spawns[k2].clone();
            world.spawn(b);
            k2 += 1;
        }
    }
}

/// Every occupied slot of the sequence holds a well-formed bundle.
pub open spec fn slots_wf(s: Seq<Slot>) -> bool {
    forall|i: int|
        0 <= i < s.len() && (#[trigger] s[i]).comps is Some ==> bundle_wf(s[i].comps.unwrap())
}

/// Despawning keeps every remaining bundle well-formed.
pub proof fn lemma_slots_despawn_wf(s: Seq<Slot>, e: Entity)
    requires
        slots_wf(s),
    ensures
        slots_wf(slots_despawn(s, e)),
{
}

/// Spawning a well-formed bundle keeps the store well-formed.
pub proof fn lemma_slots_spawn_wf(s: Seq<Slot>, b: Bundle)
    requires
        slots_wf(s),
        bundle_wf(b),
    ensures
        slots_wf(slots_spawn(s, b)),
{
    lemma_first_free_in_range(s, 0);
}

/// Flushing despawns keeps the store well-formed.
pub proof fn lemma_apply_despawns_wf(s: Seq<Slot>, ds: Seq<Entity>, k: int)
    requires
        0 <= k <= ds.len(),
        slots_wf(s),
    ensures
        slots_wf(apply_despawns_from(s, ds, k)),
    decreases ds.len() - k,
{
    if k < ds.len() {
        lemma_slots_despawn_wf(s, ds[k]);
        lemma_apply_despawns_wf(slots_despawn(s, ds[k]), ds, k + 1);
    }
}

/// Flushing well-formed spawns keeps the store well-formed.
pub proof fn lemma_apply_spawns_wf(s: Seq<Slot>, bs: Seq<Bundle>, k: int)
    requires
        0 <= k <= bs.len(),
        slots_wf(s),
        forall|j: int| 0 <= j < bs.len() ==> bundle_wf(#[trigger] bs[j]),
    ensures
        slots_wf(apply_spawns_from(s, bs, k)),
    decreases bs.len() - k,
{
    if k < bs.len() {
        lemma_slots_spawn_wf(s, bs[k]);
        lemma_apply_spawns_wf(slots_spawn(s, bs[k]), bs, k + 1);
    }
}

/// Flushing a whole buffer of well-formed spawns keeps the store
/// well-formed.
pub proof fn lemma_apply_commands_wf(s: Seq<Slot>, ds: Seq<Entity>, bs: Seq<Bundle>)
    requires
        slots_wf(s),
        forall|j: int| 0 <= j < bs.len() ==> bundle_wf(#[trigger] bs[j]),
    ensures
        slots_wf(apply_commands(s, ds, bs)),
{
    lemma_apply_despawns_wf(s, ds, 0);
    lemma_apply_spawns_wf(apply_despawns_from(s, ds, 0), bs, 0);
}

} // verus!
