//! The world: the ordered entity collection, lookup by identity, spawning
//! and despawning, reset, and the fixed per-frame update pipeline.

use vstd::prelude::*;

use crate::components::{Input, Tag, Transform, rects_overlap};
use crate::entity::{Entity, reset_entity};
use crate::systems::{collide_pass, collide_system, entity_hits, jump_system,
    lemma_collision_pair_flags, movement_pass, movement_system, physics_pass};
use crate::timestep::advanced;

verus! {

/// One full frame of the fixed system pipeline: collision first (so that
/// movement sees this frame's fresh flags), then jump/gravity physics, then
/// constant-velocity movement.  The order is load-bearing.
pub open spec fn world_step(s: Seq<Entity>, input: Input) -> Seq<Entity> {
    movement_pass(physics_pass(collide_pass(s), input), input)
}

/// Every entity restored to its default spawn configuration.
pub open spec fn reset_pass(s: Seq<Entity>) -> Seq<Entity> {
    Seq::new(s.len(), |i: int| reset_entity(s[i]))
}

/// The state trajectory produced by stepping `s` through `inputs` in order:
/// element `k` is the state after the first `k + 1` frames.
pub open spec fn replay(s: Seq<Entity>, inputs: Seq<Input>) -> Seq<Seq<Entity>>
    decreases inputs.len(),
{
    if inputs.len() == 0 {
        Seq::empty()
    } else {
        let s1 = world_step(s, inputs[0]);
        seq![s1] + replay(s1, inputs.skip(1))
    }
}

/// Replaying an identical sequence of input snapshots against worlds with
/// identical initial entities yields identical trajectories: every system is
/// a pure function of the entity collection and the frame's input, with no
/// hidden randomness, and `World::update` is proved equal to `world_step`.
pub proof fn lemma_pipeline_determinism(s1: Seq<Entity>, s2: Seq<Entity>, inputs: Seq<Input>)
    requires
        s1 == s2,
    ensures
        replay(s1, inputs) == replay(s2, inputs),
{
}

/// Movement halts on contact: two overlapping movement- and
/// collision-bearing entities without physics bodies end a full frame with
/// their rectangles exactly where they started — the collision pass sets
/// both flags, and the movement pass skips a flagged entity.
pub proof fn lemma_movement_halts_on_contact(s: Seq<Entity>, input: Input, i: int, j: int)
    requires
        input.wf(),
        0 <= i < s.len(),
        0 <= j < s.len(),
        i != j,
        s[i].movement is Some,
        s[j].movement is Some,
        s[i].collide is Some,
        s[j].collide is Some,
        s[i].physics is None,
        s[j].physics is None,
        rects_overlap(s[i].transform, s[j].transform),
    ensures
        world_step(s, input)[i].transform == s[i].transform,
        world_step(s, input)[j].transform == s[j].transform,
{
    lemma_collision_pair_flags(s, i, j);
}

/// Movement resumes after separation: a movement- and collision-bearing
/// entity without a physics body that overlaps no other collision-bearing
/// entity ends a full frame displaced by exactly its configured velocity
/// scaled by the frame's elapsed time.
pub proof fn lemma_movement_resumes_after_separation(s: Seq<Entity>, input: Input, i: int)
    requires
        input.wf(),
        0 <= i < s.len(),
        s[i].movement is Some,
        s[i].collide is Some,
        s[i].physics is None,
        forall|j: int|
            0 <= j < s.len() && j != i ==> !(s[j].collide is Some && rects_overlap(
                s[i].transform,
                s[j].transform,
            )),
    ensures
        world_step(s, input)[i].transform.x == advanced(
            s[i].transform.x,
            s[i].movement.unwrap().velocity.x,
            input.dt,
        ),
        world_step(s, input)[i].transform.y == advanced(
            s[i].transform.y,
            s[i].movement.unwrap().velocity.y,
            input.dt,
        ),
{
    assert(!entity_hits(s, i));
}

/// Reset idempotence: resetting twice in a row yields the same state as
/// resetting once — a reset entity's spawn configuration is its own spawn
/// configuration.
pub proof fn lemma_reset_idempotent(s: Seq<Entity>)
    ensures
        reset_pass(reset_pass(s)) == reset_pass(s),
{
    assert(reset_pass(reset_pass(s)) =~= reset_pass(s));
}

/// An ordered collection of entities plus the camera origin the driver last
/// set.  The world owns its entities exclusively; it holds no rendering or
/// input state.
#[derive(Debug)]
pub struct World {
    pub entities: Vec<Entity>,
    pub origin: Transform,
}

impl World {
    /// An empty world with the origin at `(0, 0)`.
    pub fn new() -> (w: World)
        ensures
            w.entities@ == Seq::<Entity>::empty(),
            w.origin == (Transform { x: 0, y: 0 }),
    {
        let w = World { entities: Vec::new(), origin: Transform { x: 0, y: 0 } };
        proof {
            assert(w.entities@ =~= Seq::<Entity>::empty());
        }
        w
    }

    /// Restores every entity's default spawn configuration: positions back
    /// at their spawn points, collision flags cleared, physics bodies
    /// motionless.  Used to restart a round without reallocating the world.
    pub fn reset(&mut self)
        ensures
            final(self).entities@ == reset_pass(old(self).entities@),
            final(self).origin == old(self).origin,
    {
        let ghost s0 = self.entities@;
        let n: usize = self.entities.len();
        let mut updated: Vec<Entity> = Vec::new();
        for i in 0..n
            invariant
                n == s0.len(),
                self.entities@ == s0,
                self.origin == old(self).origin,
                updated@.len() == i,
                forall|k: int| 0 <= k < i ==> updated@[k] == reset_entity(s0[k]),
        {
            let mut e: Entity = self.entities[i];
            e.reset();
            updated.push(e);
        }
        self.entities = updated;
        proof {
            assert(self.entities@ =~= reset_pass(s0));
        }
    }

    /// Records the camera origin the driver is rendering from.  Applying the
    /// origin to an actual camera is the renderer's business, outside the
    /// core.
    pub fn set_origin(&mut self, origin_x: i64, origin_y: i64)
        ensures
            final(self).entities@ == old(self).entities@,
            final(self).origin == (Transform { x: origin_x, y: origin_y }),
    {
        self.origin.x = origin_x;
        self.origin.y = origin_y;
    }

    /// A shared reference to the first entity with the given id, or `None`
    /// when no entity carries it.
    pub fn find(&self, id: i32) -> (r: Option<&Entity>)
        ensures
            match r {
                Some(e) => exists|i: int|
                    0 <= i < self.entities@.len() && self.entities@[i].id == id && *e
                        == self.entities@[i] && (forall|j: int|
                        0 <= j < i ==> self.entities@[j].id != id),
                None => forall|i: int|
                    0 <= i < self.entities@.len() ==> self.entities@[i].id != id,
            },
    {
        let n: usize = self.entities.len();
        for i in 0..n
            invariant
                n == self.entities@.len(),
                forall|j: int| 0 <= j < i ==> self.entities@[j].id != id,
        {
            if self.entities[i].id == id {
                return Some(&self.entities[i]);
            }
        }
        None
    }

    /// A mutable reference to the first entity with the given id, or `None`
    /// when no entity carries it; only that entity can change through the
    /// reference.
    pub fn find_mut(&mut self, id: i32) -> (r: Option<&mut Entity>)
        ensures
            match r {
                Some(e) => *e == old(self).entities@[first_index_with_id(
                    old(self).entities@,
                    id,
                )] && final(self).entities@ == old(self).entities@.update(
                    first_index_with_id(old(self).entities@, id),
                    *final(e),
                ) && final(self).origin == old(self).origin && has_entity_with_id(
                    old(self).entities@,
                    id,
                ),
                None => final(self).entities@ == old(self).entities@ && final(self).origin == old(
                    self,
                ).origin && !has_entity_with_id(old(self).entities@, id),
            },
    {
        let ghost s0 = self.entities@;
        let n: usize = self.entities.len();
        for i in 0..n
            invariant
                s0 == old(self).entities@,
                n == s0.len(),
                self.entities@ == s0,
                self.origin == old(self).origin,
                forall|j: int| 0 <= j < i ==> s0[j].id != id,
        {
            if self.entities[i].id == id {
                proof {
                    assert(has_entity_with_id(s0, id));
                    lemma_first_index_with_id(s0, id, i as int);
                }
                return Some(&mut self.entities[i]);
            }
        }
        None
    }

    /// Appends an entity to the collection.
    pub fn spawn(&mut self, entity: Entity)
        ensures
            final(self).entities@ == old(self).entities@.push(entity),
            final(self).origin == old(self).origin,
    {
        self.entities.push(entity);
    }

    /// Removes the first entity with the given id; a world without one is
    /// left unchanged.
    pub fn despawn(&mut self, id: i32)
        ensures
            (if has_entity_with_id(old(self).entities@, id) {
                final(self).entities@ == old(self).entities@.remove(
                    first_index_with_id(old(self).entities@, id),
                )
            } else {
                final(self).entities@ == old(self).entities@
            }),
            final(self).origin == old(self).origin,
    {
        let ghost s0 = self.entities@;
        let n: usize = self.entities.len();
        for i in 0..n
            invariant
                s0 == old(self).entities@,
                n == s0.len(),
                self.entities@ == s0,
                self.origin == old(self).origin,
                forall|j: int| 0 <= j < i ==> s0[j].id != id,
        {
            if self.entities[i].id == id {
                proof {
                    assert(has_entity_with_id(s0, id));
                    lemma_first_index_with_id(s0, id, i as int);
                }
                self.entities.remove(i);
                return ;
            }
        }
    }

    /// The indices, in order, of the entities carrying the given tag.
    pub fn with_tag(&self, tag: Tag) -> (r: Vec<usize>)
        ensures
            forall|k: int|
                0 <= k < r@.len() ==> 0 <= #[trigger] r@[k] < self.entities@.len()
                    && self.entities@[r@[k] as int].tag == Some(tag),
            forall|i: int|
                #![trigger self.entities@[i]]
                0 <= i < self.entities@.len() && self.entities@[i].tag == Some(tag)
                    ==> r@.contains(i as usize),
            forall|k1: int, k2: int| 0 <= k1 < k2 < r@.len() ==> r@[k1] < r@[k2],
    {
        let n: usize = self.entities.len();
        let mut r: Vec<usize> = Vec::new();
        for i in 0..n
            invariant
                n == self.entities@.len(),
                forall|k: int|
                    0 <= k < r@.len() ==> 0 <= #[trigger] r@[k] < i && self.entities@[r@[k] as int].tag
                        == Some(tag),
                forall|j: int|
                    #![trigger self.entities@[j]]
                    0 <= j < i && self.entities@[j].tag == Some(tag) ==> r@.contains(j as usize),
                forall|k1: int, k2: int| 0 <= k1 < k2 < r@.len() ==> r@[k1] < r@[k2],
        {
            let tagged: bool = match self.entities[i].tag {
                Some(t) => t == tag,
                None => false,
            };
            let ghost r_before = r@;
            if tagged {
                r.push(i);
            }
            proof {
                assert forall|j: int|
                    0 <= j < i + 1 && self.entities@[j].tag == Some(tag) implies r@.contains(
                    j as usize,
                ) by {
                    if j < i {
                        let k = choose|k: int| 0 <= k < r_before.len() && r_before[k] == j as usize;
                        assert(r@[k] == j as usize);
                    } else {
                        assert(r@[r@.len() - 1] == i as usize);
                    }
                }
            }
        }
        r
    }

    /// Advances the world by one frame: the collision pass, then the
    /// jump/gravity pass, then the movement pass, exactly [`world_step`].
    pub fn update(&mut self, input: &Input)
        requires
            input.wf(),
        ensures
            final(self).entities@ == world_step(old(self).entities@, *input),
            final(self).origin == old(self).origin,
    {
        collide_system(&mut self.entities);
        jump_system(&mut self.entities, input);
        movement_system(&mut self.entities, input);
    }
}

/// Whether some entity in `s` carries the id.
pub open spec fn has_entity_with_id(s: Seq<Entity>, id: i32) -> bool {
    exists|i: int| 0 <= i < s.len() && s[i].id == id
}

/// The index of the first entity carrying the id (meaningful only when
/// [`has_entity_with_id`] holds).
pub open spec fn first_index_with_id(s: Seq<Entity>, id: i32) -> int {
    choose|i: int| 0 <= i < s.len() && s[i].id == id && (forall|j: int| 0 <= j < i ==> s[j].id != id)
}

/// If `i` is an index with the id and no smaller index has it, then `i` is
/// the first index with the id.
proof fn lemma_first_index_with_id(s: Seq<Entity>, id: i32, i: int)
    requires
        0 <= i < s.len(),
        s[i].id == id,
        forall|j: int| 0 <= j < i ==> s[j].id != id,
    ensures
        first_index_with_id(s, id) == i,
{
    let w = first_index_with_id(s, id);
    assert(0 <= w < s.len() && s[w].id == id && (forall|j: int| 0 <= j < w ==> s[j].id != id));
}

} // verus!
