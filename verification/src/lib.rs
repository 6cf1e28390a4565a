//! A verified entity/component/system core for small 2-D arcade games.
//!
//! The crate holds a flat collection of game entities, each composed of
//! optional capability components (physics, collision, constant-velocity
//! movement, render and sprite metadata, a tag), and advances them
//! deterministically once per frame by running a fixed pipeline of systems:
//! collision resolution, then jump/gravity physics, then movement.
//!
//! All simulation arithmetic is integer arithmetic: positions and sizes are
//! plain units, velocities are units per second, and a frame's elapsed time
//! is a whole number of milliseconds.  Every system is a pure function of the
//! entity collection and the frame's input snapshot, so replaying the same
//! inputs against the same initial world always yields the same trajectory.
//! Drawing, window management and input polling live outside the core: a
//! driver hands in an [`Input`] snapshot each frame and reads entity state
//! back out for rendering.

mod components;
mod entity;
mod game;
mod systems;
mod timestep;
mod world;

pub use components::{
    Collide, Color, Input, Movement, Physics, Rect, Render, Shape, Sprite, Tag, Transform,
    Velocity, rects_overlap,
};
pub use entity::{DEFAULT_SIZE, Entity, reset_entity};
pub use game::{
    Game, GameState, SystemKind, Systems, collision_sets_game_over, player_collision,
    run_pipeline, run_system,
};
pub use systems::{
    collide_entity, collide_pass, collide_system, entity_hits, jump_system,
    lemma_collision_pair_flags, lemma_collision_symmetry, lemma_grounded_jump_impulse,
    lemma_landing_resets_state, lemma_no_midair_jump, lemma_rects_overlap_symmetric,
    movement_pass, movement_step, movement_system, physics_pass, physics_step, sprite_pass,
    sprite_step, update_sprites,
};
pub use timestep::{MILLIS_PER_SECOND, advance, advanced, retreat, retreated, sat64, scaled};
pub use world::{
    World, first_index_with_id, has_entity_with_id, lemma_movement_halts_on_contact,
    lemma_movement_resumes_after_separation, lemma_pipeline_determinism, lemma_reset_idempotent,
    replay, reset_pass, world_step,
};
