//! The entity record: a required spatial rectangle, the spawn position it
//! returns to on reset, and one optional slot per capability component.

use vstd::prelude::*;

use crate::components::{
    Collide, Color, Movement, Physics, Rect, Render, Shape, Sprite, Tag, Transform, Velocity,
};

verus! {

/// The default width and height of a freshly built entity's rectangle.
pub const DEFAULT_SIZE: i64 = 64;

/// A game entity.  A component's absence means the entity does not
/// participate in the corresponding system; every system skips such an
/// entity rather than failing.
#[derive(Clone, Copy, Debug, PartialEq)]
pub struct Entity {
    /// Explicit identity for stable lookup after removal or respawn.
    pub id: i32,
    /// Position and axis-aligned bounding box, mutated in place by systems.
    pub transform: Rect,
    /// The default spawn position that `reset` restores.
    pub spawn: Transform,
    pub tag: Option<Tag>,
    pub render: Option<Render>,
    pub sprite: Option<Sprite>,
    pub physics: Option<Physics>,
    pub collide: Option<Collide>,
    pub movement: Option<Movement>,
}

/// An entity restored to its default spawn configuration: the rectangle back
/// at the spawn position, the collision flag cleared, the physics body
/// motionless and grounded exactly when the spawn position is at or below
/// its ground level.
pub open spec fn reset_entity(e: Entity) -> Entity {
    Entity {
        transform: Rect { x: e.spawn.x, y: e.spawn.y, ..e.transform },
        collide: (match e.collide {
            Some(_) => Some(Collide { is_collided: false }),
            None => None,
        }),
        physics: (match e.physics {
            Some(p) => Some(
                Physics {
                    is_grounded: e.spawn.y >= p.ground_level,
                    velocity: Velocity { x: 0, y: 0 },
                    ..p
                },
            ),
            None => None,
        }),
        ..e
    }
}

impl Entity {
    /// A bare entity at `(x, y)` with a `DEFAULT_SIZE` square rectangle,
    /// spawn position `(x, y)`, and no components attached.
    pub fn new(id: i32, x: i64, y: i64) -> (e: Entity)
        ensures
            e == (Entity {
                id,
                transform: Rect { x, y, w: DEFAULT_SIZE, h: DEFAULT_SIZE },
                spawn: Transform { x, y },
                tag: None,
                render: None,
                sprite: None,
                physics: None,
                collide: None,
                movement: None,
            }),
    {
        Entity {
            id,
            transform: Rect { x, y, w: DEFAULT_SIZE, h: DEFAULT_SIZE },
            spawn: Transform { x, y },
            tag: None,
            render: None,
            sprite: None,
            physics: None,
            collide: None,
            movement: None,
        }
    }

    /// Moves the entity and re-bases its spawn position, so that a later
    /// `reset` returns it here: this is how a driver respawns an entity
    /// without recreating it.
    pub fn set_position(&mut self, x: i64, y: i64)
        ensures
            *final(self) == (Entity {
                transform: Rect { x, y, ..old(self).transform },
                spawn: Transform { x, y },
                ..*old(self)
            }),
    {
        self.transform.x = x;
        self.transform.y = y;
        self.spawn.x = x;
        self.spawn.y = y;
    }

    /// Resizes the entity's bounding rectangle.
    pub fn set_dimensions(&mut self, w: i64, h: i64)
        ensures
            *final(self) == (Entity {
                transform: Rect { w, h, ..old(self).transform },
                ..*old(self)
            }),
    {
        self.transform.w = w;
        self.transform.h = h;
    }

    /// Attaches a jump/gravity body with the given impulse force and ground
    /// level and the builder's default gravity.  The body starts motionless
    /// and is grounded exactly when the entity currently rests at or below
    /// the ground level.
    pub fn with_jump(self, force: i64, ground_level: i64) -> (e: Entity)
        ensures
            e == (Entity {
                physics: Some(
                    Physics {
                        force,
                        gravity: 450,
                        ground_level,
                        is_grounded: self.transform.y >= ground_level,
                        velocity: Velocity { x: 0, y: 0 },
                    },
                ),
                ..self
            }),
    {
        let grounded: bool = self.transform.y >= ground_level;
        Entity {
            physics: Some(
                Physics {
                    force,
                    gravity: 450,
                    ground_level,
                    is_grounded: grounded,
                    velocity: Velocity { x: 0, y: 0 },
                },
            ),
            ..self
        }
    }

    /// Attaches a collision component with a cleared flag.
    pub fn with_collide(self) -> (e: Entity)
        ensures
            e == (Entity { collide: Some(Collide { is_collided: false }), ..self }),
    {
        Entity { collide: Some(Collide { is_collided: false }), ..self }
    }

    /// Attaches a constant-velocity movement component.
    pub fn with_move(self, x: i64, y: i64) -> (e: Entity)
        ensures
            e == (Entity { movement: Some(Movement { velocity: Velocity { x, y } }), ..self }),
    {
        Entity { movement: Some(Movement { velocity: Velocity { x, y } }), ..self }
    }

    /// Attaches render metadata: a drawable shape and a colour.
    pub fn with_render(self, w: i64, h: i64, color: Color) -> (e: Entity)
        ensures
            e == (Entity { render: Some(Render { shape: Shape { w, h }, color }), ..self }),
    {
        Entity { render: Some(Render { shape: Shape { w, h }, color }), ..self }
    }

    /// Attaches a sprite: an opaque texture handle and an animation cursor.
    pub fn with_sprite(self, texture: u64, cursor: u64) -> (e: Entity)
        ensures
            e == (Entity { sprite: Some(Sprite { texture, cursor }), ..self }),
    {
        Entity { sprite: Some(Sprite { texture, cursor }), ..self }
    }

    /// Attaches a tag.
    pub fn with_tag(self, tag: Tag) -> (e: Entity)
        ensures
            e == (Entity { tag: Some(tag), ..self }),
    {
        Entity { tag: Some(tag), ..self }
    }

    /// Attaches a jump/gravity body built elsewhere.
    pub fn with_physics(self, physics: Physics) -> (e: Entity)
        ensures
            e == (Entity { physics: Some(physics), ..self }),
    {
        Entity { physics: Some(physics), ..self }
    }

    /// Restores the entity's default spawn configuration; see
    /// [`reset_entity`].
    pub fn reset(&mut self)
        ensures
            *final(self) == reset_entity(*old(self)),
    {
        self.transform.x = self.spawn.x;
        self.transform.y = self.spawn.y;
        if self.collide.is_some() {
            self.collide = Some(Collide { is_collided: false });
        }
        let phys: Option<Physics> = self.physics;
        match phys {
            Some(p) => {
                let grounded: bool = self.spawn.y >= p.ground_level;
                self.physics = Some(
                    Physics {
                        is_grounded: grounded,
                        velocity: Velocity { x: 0, y: 0 },
                        ..p
                    },
                );
            },
            None => {},
        }
    }
}

} // verus!
