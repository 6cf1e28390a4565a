//! The frame systems: collision resolution, jump/gravity physics,
//! constant-velocity movement, and sprite animation.  Each system is a pure
//! function of the entity collection and the frame's input snapshot; its
//! executable form is proved equal to the specification step functions
//! defined here.

use vstd::prelude::*;

use crate::components::{Collide, Input, Movement, Physics, Rect, Sprite, Velocity, rects_overlap};
use crate::entity::Entity;
use crate::timestep::{advance, advanced, retreat, retreated, scaled};

verus! {

/// One jump/gravity step of a single entity, per the component's screen-like
/// sign convention (larger `y` is lower, positive vertical velocity moves
/// up).
///
/// An entity without a physics component is untouched.  Otherwise:
/// * grounded and jump pressed: the vertical velocity becomes the configured
///   force (an impulse, not an addition) and the entity is marked airborne;
/// * grounded without a jump: the vertical velocity is pinned to zero
///   (resting contact, no residual bounce);
/// * airborne: the vertical velocity loses `gravity * dt` (semi-implicit
///   Euler).
///
/// The position then integrates from the updated velocity regardless of
/// grounded state, and an airborne entity whose integrated position crosses
/// the ground threshold in this frame is clamped to the ground level
/// exactly, with zero vertical velocity and grounded set — in the same frame
/// as the crossing, so it never rests past the threshold.
pub open spec fn physics_step(e: Entity, input: Input) -> Entity {
    match e.physics {
        None => e,
        Some(p) => {
            let vy = if p.is_grounded && input.is_jump {
                p.force
            } else if p.is_grounded {
                0i64
            } else {
                retreated(p.velocity.y, p.gravity, input.dt)
            };
            let grounded = p.is_grounded && !input.is_jump;
            let x2 = advanced(e.transform.x, p.velocity.x, input.dt);
            let y2 = retreated(e.transform.y, vy, input.dt);
            if !grounded && e.transform.y < p.ground_level && y2 >= p.ground_level {
                Entity {
                    transform: Rect { x: x2, y: p.ground_level, ..e.transform },
                    physics: Some(
                        Physics {
                            is_grounded: true,
                            velocity: Velocity { x: p.velocity.x, y: 0 },
                            ..p
                        },
                    ),
                    ..e
                }
            } else {
                Entity {
                    transform: Rect { x: x2, y: y2, ..e.transform },
                    physics: Some(
                        Physics {
                            is_grounded: grounded,
                            velocity: Velocity { x: p.velocity.x, y: vy },
                            ..p
                        },
                    ),
                    ..e
                }
            }
        },
    }
}

/// The jump/gravity system applied to every entity.
pub open spec fn physics_pass(s: Seq<Entity>, input: Input) -> Seq<Entity> {
    Seq::new(s.len(), |i: int| physics_step(s[i], input))
}

/// Applies one jump/gravity step to every entity that carries a physics
/// component; entities without one are untouched.
pub fn jump_system(entities: &mut Vec<Entity>, input: &Input)
    requires
        input.wf(),
    ensures
        final(entities)@ == physics_pass(old(entities)@, *input),
{
    let ghost s0 = entities@;
    let n: usize = entities.len();
    let mut updated: Vec<Entity> = Vec::new();
    for i in 0..n
        invariant
            input.wf(),
            n == s0.len(),
            entities@ == s0,
            updated@.len() == i,
            forall|k: int| 0 <= k < i ==> updated@[k] == physics_step(s0[k], *input),
    {
        let mut e: Entity = entities[i];
        let phys: Option<Physics> = e.physics;
        match phys {
            None => {},
            Some(p) => {
                let vy: i64 = if p.is_grounded && input.is_jump {
                    p.force
                } else if p.is_grounded {
                    0
                } else {
                    retreat(p.velocity.y, p.gravity, input.dt)
                };
                let grounded: bool = p.is_grounded && !input.is_jump;
                let x2: i64 = advance(e.transform.x, p.velocity.x, input.dt);
                let y2: i64 = retreat(e.transform.y, vy, input.dt);
                if !grounded && e.transform.y < p.ground_level && y2 >= p.ground_level {
                    e.transform.x = x2;
                    e.transform.y = p.ground_level;
                    e.physics = Some(
                        Physics {
                            is_grounded: true,
                            velocity: Velocity { x: p.velocity.x, y: 0 },
                            ..p
                        },
                    );
                } else {
                    e.transform.x = x2;
                    e.transform.y = y2;
                    e.physics = Some(
                        Physics {
                            is_grounded: grounded,
                            velocity: Velocity { x: p.velocity.x, y: vy },
                            ..p
                        },
                    );
                }
            },
        }
        updated.push(e);
    }
    *entities = updated;
    proof {
        assert(entities@ =~= physics_pass(s0, *input));
    }
}

/// Whether entity `i` overlaps some *other* collision-bearing entity.
/// Entities without a collision component are invisible as partners.
pub open spec fn entity_hits(s: Seq<Entity>, i: int) -> bool {
    exists|j: int|
        0 <= j < s.len() && j != i && s[j].collide is Some && rects_overlap(
            s[i].transform,
            s[j].transform,
        )
}

/// One collision step of entity `i`: a collision-bearing entity's flag is
/// recomputed from this frame's rectangles alone (stale state never
/// survives a pass); an entity without the component is untouched.
pub open spec fn collide_entity(s: Seq<Entity>, i: int) -> Entity {
    let e = s[i];
    if e.collide is Some {
        Entity { collide: Some(Collide { is_collided: entity_hits(s, i) }), ..e }
    } else {
        e
    }
}

/// The collision pass applied to every entity.
pub open spec fn collide_pass(s: Seq<Entity>) -> Seq<Entity> {
    Seq::new(s.len(), |i: int| collide_entity(s, i))
}

/// Recomputes, for every entity carrying a collision component, whether it
/// currently overlaps any other collision-bearing entity.  Pairwise results
/// are computed over an immutable snapshot and written back in a second
/// step, so the outcome is independent of entity order.
pub fn collide_system(entities: &mut Vec<Entity>)
    ensures
        final(entities)@ == collide_pass(old(entities)@),
{
    let ghost s0 = entities@;
    let n: usize = entities.len();
    let mut updated: Vec<Entity> = Vec::new();
    for i in 0..n
        invariant
            n == s0.len(),
            entities@ == s0,
            updated@.len() == i,
            forall|k: int| 0 <= k < i ==> updated@[k] == collide_entity(s0, k),
    {
        let mut e: Entity = entities[i];
        if e.collide.is_some() {
            let mut hit: bool = false;
            for j in 0..n
                invariant
                    n == s0.len(),
                    entities@ == s0,
                    0 <= i < n,
                    hit == exists|j0: int|
                        0 <= j0 < j && j0 != i && s0[j0].collide is Some && rects_overlap(
                            s0[i as int].transform,
                            s0[j0].transform,
                        ),
            {
                if j != i && entities[j].collide.is_some() && entities[i].transform.overlaps(
                    &entities[j].transform,
                ) {
                    hit = true;
                }
            }
            e.collide = Some(Collide { is_collided: hit });
        }
        updated.push(e);
    }
    *entities = updated;
    proof {
        assert(entities@ =~= collide_pass(s0));
    }
}

/// One movement step of a single entity: a movement-bearing entity drifts by
/// its constant velocity scaled by the elapsed time, unless it also carries
/// a collision component whose flag is currently set — movement halts on
/// registered contact and resumes implicitly once the flag clears.
pub open spec fn movement_step(e: Entity, input: Input) -> Entity {
    match e.movement {
        None => e,
        Some(m) => {
            let blocked = match e.collide {
                Some(c) => c.is_collided,
                None => false,
            };
            if blocked {
                e
            } else {
                Entity {
                    transform: Rect {
                        x: advanced(e.transform.x, m.velocity.x, input.dt),
                        y: advanced(e.transform.y, m.velocity.y, input.dt),
                        ..e.transform
                    },
                    ..e
                }
            }
        },
    }
}

/// The movement system applied to every entity.
pub open spec fn movement_pass(s: Seq<Entity>, input: Input) -> Seq<Entity> {
    Seq::new(s.len(), |i: int| movement_step(s[i], input))
}

/// Translates every movement-bearing entity by its constant velocity scaled
/// by the frame's elapsed time, skipping entities whose collision flag is
/// currently set.  Run the collision system first so this sees fresh flags.
pub fn movement_system(entities: &mut Vec<Entity>, input: &Input)
    requires
        input.wf(),
    ensures
        final(entities)@ == movement_pass(old(entities)@, *input),
{
    let ghost s0 = entities@;
    let n: usize = entities.len();
    let mut updated: Vec<Entity> = Vec::new();
    for i in 0..n
        invariant
            input.wf(),
            n == s0.len(),
            entities@ == s0,
            updated@.len() == i,
            forall|k: int| 0 <= k < i ==> updated@[k] == movement_step(s0[k], *input),
    {
        let mut e: Entity = entities[i];
        let mov: Option<Movement> = e.movement;
        match mov {
            None => {},
            Some(m) => {
                let blocked: bool = match e.collide {
                    Some(c) => c.is_collided,
                    None => false,
                };
                if !blocked {
                    e.transform.x = advance(e.transform.x, m.velocity.x, input.dt);
                    e.transform.y = advance(e.transform.y, m.velocity.y, input.dt);
                }
            },
        }
        updated.push(e);
    }
    *entities = updated;
    proof {
        assert(entities@ =~= movement_pass(s0, *input));
    }
}

/// One animation step of a single entity: a sprite's cursor advances when
/// the entity either has no physics body or is grounded — an airborne body
/// holds its pose.
pub open spec fn sprite_step(e: Entity) -> Entity {
    match e.sprite {
        None => e,
        Some(sp) => {
            let animates = match e.physics {
                Some(p) => p.is_grounded,
                None => true,
            };
            let cursor2 = if sp.cursor < u64::MAX {
                (sp.cursor + 1) as u64
            } else {
                u64::MAX
            };
            if animates {
                Entity { sprite: Some(Sprite { cursor: cursor2, ..sp }), ..e }
            } else {
                e
            }
        },
    }
}

/// The sprite system applied to every entity.
pub open spec fn sprite_pass(s: Seq<Entity>) -> Seq<Entity> {
    Seq::new(s.len(), |i: int| sprite_step(s[i]))
}

/// Advances the animation cursor of every sprite-bearing entity that may
/// animate this frame: one with no physics body, or one that is grounded.
pub fn update_sprites(entities: &mut Vec<Entity>)
    ensures
        final(entities)@ == sprite_pass(old(entities)@),
{
    let ghost s0 = entities@;
    let n: usize = entities.len();
    let mut updated: Vec<Entity> = Vec::new();
    for i in 0..n
        invariant
            n == s0.len(),
            entities@ == s0,
            updated@.len() == i,
            forall|k: int| 0 <= k < i ==> updated@[k] == sprite_step(s0[k]),
    {
        let mut e: Entity = entities[i];
        let spr: Option<Sprite> = e.sprite;
        match spr {
            None => {},
            Some(sp) => {
                let animates: bool = match e.physics {
                    Some(p) => p.is_grounded,
                    None => true,
                };
                if animates {
                    let cursor2: u64 = if sp.cursor < u64::MAX {
                        sp.cursor + 1
                    } else {
                        u64::MAX
                    };
                    e.sprite = Some(Sprite { cursor: cursor2, ..sp });
                }
            },
        }
        updated.push(e);
    }
    *entities = updated;
    proof {
        assert(entities@ =~= sprite_pass(s0));
    }
}

/// Grounded jump impulse: an entity resting at its ground level, with the
/// jump action pressed, leaves the physics step with vertical velocity
/// exactly the configured force — an impulse, not an addition — and its
/// grounded flag flipped off.
pub proof fn lemma_grounded_jump_impulse(e: Entity, input: Input)
    requires
        input.wf(),
        input.is_jump,
        e.physics is Some,
        e.physics.unwrap().is_grounded,
        e.transform.y == e.physics.unwrap().ground_level,
    ensures
        physics_step(e, input).physics == Some(
            Physics {
                velocity: Velocity {
                    x: e.physics.unwrap().velocity.x,
                    y: e.physics.unwrap().force,
                },
                is_grounded: false,
                ..e.physics.unwrap()
            },
        ),
{
}

/// No mid-air jump: an airborne entity with the jump action pressed still
/// only accumulates gravity — no impulse is applied, the entity stays
/// airborne, and its vertical velocity strictly decreases.  The premises
/// restrict the law to frames where gravity acts within the millisecond
/// resolution (`gravity * dt >= 1000`), the velocity does not saturate at
/// the `i64` floor, and the entity does not land this frame (a landing
/// clamps the velocity to zero instead).
pub proof fn lemma_no_midair_jump(e: Entity, input: Input)
    requires
        input.wf(),
        input.is_jump,
        e.physics is Some,
        !e.physics.unwrap().is_grounded,
        e.physics.unwrap().gravity * input.dt >= 1000,
        e.physics.unwrap().velocity.y - scaled(
            e.physics.unwrap().gravity as int,
            input.dt as int,
        ) >= i64::MIN,
        !(e.transform.y < e.physics.unwrap().ground_level && retreated(
            e.transform.y,
            retreated(e.physics.unwrap().velocity.y, e.physics.unwrap().gravity, input.dt),
            input.dt,
        ) >= e.physics.unwrap().ground_level),
    ensures
        physics_step(e, input).physics.unwrap().velocity.y == retreated(
            e.physics.unwrap().velocity.y,
            e.physics.unwrap().gravity,
            input.dt,
        ),
        physics_step(e, input).physics.unwrap().velocity.y < e.physics.unwrap().velocity.y,
        !physics_step(e, input).physics.unwrap().is_grounded,
{
    let p = e.physics.unwrap();
    let x = p.gravity as int * input.dt as int;
    let d = scaled(p.gravity as int, input.dt as int);
    assert(x >= 1000);
    assert(x / 1000 >= 1);
    assert(d >= 1);
    assert(retreated(p.velocity.y, p.gravity, input.dt) == p.velocity.y - d);
}

/// Landing resets state: an airborne entity whose integrated position
/// crosses the ground threshold within one frame ends that same frame
/// exactly at the ground level, with zero vertical velocity and its
/// grounded flag set — no overshoot past the threshold.
pub proof fn lemma_landing_resets_state(e: Entity, input: Input)
    requires
        input.wf(),
        e.physics is Some,
        !e.physics.unwrap().is_grounded,
        e.transform.y < e.physics.unwrap().ground_level,
        retreated(
            e.transform.y,
            retreated(e.physics.unwrap().velocity.y, e.physics.unwrap().gravity, input.dt),
            input.dt,
        ) >= e.physics.unwrap().ground_level,
    ensures
        physics_step(e, input).transform.y == e.physics.unwrap().ground_level,
        physics_step(e, input).physics.unwrap().velocity.y == 0,
        physics_step(e, input).physics.unwrap().is_grounded,
{
}

/// Overlap of axis-aligned rectangles does not depend on the order of the
/// two rectangles.
pub proof fn lemma_rects_overlap_symmetric(a: Rect, b: Rect)
    ensures
        rects_overlap(a, b) == rects_overlap(b, a),
{
}

/// In any world, an overlapping pair of collision-bearing entities leaves
/// one collision pass with both flags set, whichever way round the pair is
/// taken.
pub proof fn lemma_collision_pair_flags(s: Seq<Entity>, i: int, j: int)
    requires
        0 <= i < s.len(),
        0 <= j < s.len(),
        i != j,
        s[i].collide is Some,
        s[j].collide is Some,
        rects_overlap(s[i].transform, s[j].transform),
    ensures
        collide_pass(s)[i].collide == Some(Collide { is_collided: true }),
        collide_pass(s)[j].collide == Some(Collide { is_collided: true }),
{
    assert(entity_hits(s, i)) by {
        assert(0 <= j < s.len() && j != i && s[j].collide is Some && rects_overlap(
            s[i].transform,
            s[j].transform,
        ));
    }
    assert(entity_hits(s, j)) by {
        lemma_rects_overlap_symmetric(s[i].transform, s[j].transform);
        assert(0 <= i < s.len() && i != j && s[i].collide is Some && rects_overlap(
            s[j].transform,
            s[i].transform,
        ));
    }
}

/// Collision symmetry on a two-entity world: after one collision pass over
/// two collision-bearing entities, both flags are set when their rectangles
/// overlap and both are clear when they do not — in either entity order.
pub proof fn lemma_collision_symmetry(a: Entity, b: Entity)
    requires
        a.collide is Some,
        b.collide is Some,
    ensures
        rects_overlap(a.transform, b.transform) ==> {
            &&& collide_pass(seq![a, b])[0].collide == Some(Collide { is_collided: true })
            &&& collide_pass(seq![a, b])[1].collide == Some(Collide { is_collided: true })
            &&& collide_pass(seq![b, a])[0].collide == Some(Collide { is_collided: true })
            &&& collide_pass(seq![b, a])[1].collide == Some(Collide { is_collided: true })
        },
        !rects_overlap(a.transform, b.transform) ==> {
            &&& collide_pass(seq![a, b])[0].collide == Some(Collide { is_collided: false })
            &&& collide_pass(seq![a, b])[1].collide == Some(Collide { is_collided: false })
            &&& collide_pass(seq![b, a])[0].collide == Some(Collide { is_collided: false })
            &&& collide_pass(seq![b, a])[1].collide == Some(Collide { is_collided: false })
        },
{
    lemma_rects_overlap_symmetric(a.transform, b.transform);
    if rects_overlap(a.transform, b.transform) {
        lemma_collision_pair_flags(seq![a, b], 0, 1);
        lemma_collision_pair_flags(seq![b, a], 0, 1);
    } else {
        lemma_pair_world_no_hit(a, b);
        lemma_pair_world_no_hit(b, a);
    }
}

/// In a two-entity world whose rectangles do not overlap, neither entity
/// hits anything.
proof fn lemma_pair_world_no_hit(a: Entity, b: Entity)
    requires
        !rects_overlap(a.transform, b.transform),
        !rects_overlap(b.transform, a.transform),
    ensures
        !entity_hits(seq![a, b], 0),
        !entity_hits(seq![a, b], 1),
{
    let s = seq![a, b];
    assert forall|j0: int| 0 <= j0 < s.len() && j0 != 0 implies !rects_overlap(
        s[0].transform,
        s[j0].transform,
    ) by {
        assert(j0 == 1);
    }
    assert forall|j0: int| 0 <= j0 < s.len() && j0 != 1 implies !rects_overlap(
        s[1].transform,
        s[j0].transform,
    ) by {
        assert(j0 == 0);
    }
}

} // verus!
