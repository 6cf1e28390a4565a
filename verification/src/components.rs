//! The component structs an entity may carry, and the per-frame input
//! snapshot that the systems consume.

use vstd::prelude::*;

verus! {

/// One frame's input snapshot: the frame's elapsed time in milliseconds and
/// the discrete jump action.  It must describe a single frame's delta, not
/// cumulative time.
#[derive(Clone, Copy, Debug, PartialEq, Eq, Structural)]
pub struct Input {
    /// Elapsed milliseconds since the previous frame.
    pub dt: i64,
    /// Whether the jump action was pressed this frame.
    pub is_jump: bool,
}

impl Input {
    /// A frame delta is never negative; malformed clock readings are
    /// rejected or clamped at the ingestion boundary before they reach the
    /// core.
    pub open spec fn wf(self) -> bool {
        0 <= self.dt
    }

    /// Builds a snapshot, clamping a negative delta to zero so the result is
    /// always well formed.
    pub fn new(dt: i64, is_jump: bool) -> (r: Input)
        ensures
            r.dt == (if dt >= 0 { dt } else { 0i64 }),
            r.is_jump == is_jump,
            r.wf(),
    {
        Input { dt: if dt >= 0 { dt } else { 0 }, is_jump }
    }
}

/// A 2-D position, in plain units.
#[derive(Clone, Copy, Debug, PartialEq, Eq, Structural)]
pub struct Transform {
    pub x: i64,
    pub y: i64,
}

/// A 2-D vector, in units per second.
#[derive(Clone, Copy, Debug, PartialEq, Eq, Structural)]
pub struct Velocity {
    pub x: i64,
    pub y: i64,
}

/// An axis-aligned rectangle: position of one corner plus width and height.
/// Every entity carries one as its spatial footprint.
#[derive(Clone, Copy, Debug, PartialEq, Eq, Structural)]
pub struct Rect {
    pub x: i64,
    pub y: i64,
    pub w: i64,
    pub h: i64,
}

/// Whether two axis-aligned rectangles touch or overlap.  Edges count: two
/// rectangles that share a boundary line overlap.
pub open spec fn rects_overlap(a: Rect, b: Rect) -> bool {
    &&& a.x <= b.x + b.w
    &&& b.x <= a.x + a.w
    &&& a.y <= b.y + b.h
    &&& b.y <= a.y + a.h
}

impl Rect {
    /// Reports whether this rectangle touches or overlaps `other`.
    pub fn overlaps(&self, other: &Rect) -> (r: bool)
        ensures
            r == rects_overlap(*self, *other),
    {
        (self.x as i128) <= (other.x as i128) + (other.w as i128)
            && (other.x as i128) <= (self.x as i128) + (self.w as i128)
            && (self.y as i128) <= (other.y as i128) + (other.h as i128)
            && (other.y as i128) <= (self.y as i128) + (self.h as i128)
    }
}

/// Jump/gravity capability: the configured impulse force, gravity and ground
/// level, plus the entity's grounded flag and its own velocity.
///
/// The vertical sign convention is screen-like: larger `y` is lower on the
/// screen, the entity is on the ground at `y == ground_level`, and a positive
/// vertical velocity moves the entity up (towards smaller `y`).
#[derive(Clone, Copy, Debug, PartialEq, Eq, Structural)]
pub struct Physics {
    /// Vertical impulse applied when a grounded entity jumps, units/second.
    pub force: i64,
    /// Downward acceleration applied while airborne, units/second².
    pub gravity: i64,
    /// The `y` coordinate of resting contact.
    pub ground_level: i64,
    /// Whether the entity is currently resting on the ground.
    pub is_grounded: bool,
    /// The entity's own velocity, integrated every frame.
    pub velocity: Velocity,
}

impl Physics {
    /// A grounded, motionless body with the library's default jump force and
    /// gravity, resting at ground level zero.
    pub fn new() -> (p: Physics)
        ensures
            p == (Physics {
                force: 450,
                gravity: 800,
                ground_level: 0,
                is_grounded: true,
                velocity: Velocity { x: 0, y: 0 },
            }),
    {
        Physics {
            force: 450,
            gravity: 800,
            ground_level: 0,
            is_grounded: true,
            velocity: Velocity { x: 0, y: 0 },
        }
    }
}

/// Collision capability: a per-frame flag, recomputed by the collision pass
/// every frame and never persisted across frames.
#[derive(Clone, Copy, Debug, PartialEq, Eq, Structural)]
pub struct Collide {
    pub is_collided: bool,
}

/// Constant-velocity drift capability.
#[derive(Clone, Copy, Debug, PartialEq, Eq, Structural)]
pub struct Movement {
    pub velocity: Velocity,
}

/// An RGBA colour, presentation metadata read by an outside renderer.
#[derive(Clone, Copy, Debug, PartialEq, Eq, Structural)]
pub struct Color {
    pub r: u8,
    pub g: u8,
    pub b: u8,
    pub a: u8,
}

/// A drawable size, presentation metadata read by an outside renderer.
#[derive(Clone, Copy, Debug, PartialEq, Eq, Structural)]
pub struct Shape {
    pub w: i64,
    pub h: i64,
}

/// Shape-and-colour render capability; the core never draws, it only stores
/// what a renderer needs.
#[derive(Clone, Copy, Debug, PartialEq, Eq, Structural)]
pub struct Render {
    pub shape: Shape,
    pub color: Color,
}

/// Sprite capability: an opaque texture handle owned by an outside renderer,
/// plus an animation cursor that the sprite system advances.
#[derive(Clone, Copy, Debug, PartialEq, Eq, Structural)]
pub struct Sprite {
    /// Opaque handle naming a texture the renderer loaded.
    pub texture: u64,
    /// Animation cursor, advanced once per frame while the entity may
    /// animate.
    pub cursor: u64,
}

/// A discriminator used to filter entities, e.g. to find the player.
#[derive(Clone, Copy, Debug, PartialEq, Eq, Structural, Hash)]
pub enum Tag {
    Player,
    Enemy,
}

} // verus!
