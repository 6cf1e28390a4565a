//! Tests of the individual frame systems: movement, jump/gravity physics
//! and collision resolution.

use ecs_core::{Collide, Entity, Input, Physics, Tag, Velocity, World};
use ecs_core::{collide_system, jump_system, movement_system};

const GROUND: i64 = 40;

fn player_entity(y: i64, grounded: bool) -> Entity {
    let mut e = Entity::new(0, 0, y).with_tag(Tag::Player).with_physics(Physics {
        force: 450,
        gravity: 800,
        ground_level: GROUND,
        is_grounded: grounded,
        velocity: Velocity { x: 0, y: 0 },
    });
    e.set_dimensions(10, 10);
    e
}

#[test]
fn movement_moves_entity_when_not_colliding() {
    let mut entities = vec![Entity::new(0, 0, 0).with_move(10, 0)];

    let input = Input {
        dt: 1000,
        is_jump: false,
    };

    movement_system(&mut entities, &input);

    assert_eq!(entities[0].transform.x, 10);
    assert_eq!(entities[0].transform.y, 0);
}

#[test]
fn movement_stops_when_collided() {
    let mut entity = Entity::new(0, 0, 0).with_move(10, 0).with_collide();

    entity.collide.as_mut().unwrap().is_collided = true;

    let mut entities = vec![entity];
    let input = Input {
        dt: 1000,
        is_jump: false,
    };

    movement_system(&mut entities, &input);

    assert_eq!(entities[0].transform.x, 0);
}

#[test]
fn jump_applies_force_when_grounded() {
    let mut entities = vec![Entity::new(0, 0, 100).with_jump(300, 100)];

    let input = Input {
        dt: 1000,
        is_jump: true,
    };

    jump_system(&mut entities, &input);

    // y decreases because the jump velocity is subtracted
    assert!(entities[0].transform.y < 100);
}

#[test]
fn gravity_applies_when_airborne() {
    let mut entity = Entity::new(0, 0, 90).with_jump(300, 100);

    // Simulate upward velocity
    entity.physics.as_mut().unwrap().velocity.y = 100;

    let mut entities = vec![entity];
    let input = Input {
        dt: 1000,
        is_jump: false,
    };

    jump_system(&mut entities, &input);

    let physics = entities[0].physics.as_ref().unwrap();
    assert!(physics.velocity.y < 100);
}

#[test]
fn collision_detects_overlap() {
    let mut entities = vec![
        Entity::new(0, 0, 0).with_collide(),
        Entity::new(1, 32, 32).with_collide(), // overlaps 64x64
    ];

    collide_system(&mut entities);

    assert!(entities[0].collide.as_ref().unwrap().is_collided);
    assert!(entities[1].collide.as_ref().unwrap().is_collided);
}

#[test]
fn collision_not_detected_when_separated() {
    let mut entities = vec![
        Entity::new(0, 0, 0).with_collide(),
        Entity::new(1, 200, 200).with_collide(),
    ];

    collide_system(&mut entities);

    assert!(!entities[0].collide.as_ref().unwrap().is_collided);
    assert!(!entities[1].collide.as_ref().unwrap().is_collided);
}

#[test]
fn world_update_runs_all_systems() {
    let mut world = World::new();

    world.spawn(
        Entity::new(1, 0, 100)
            .with_jump(200, 100)
            .with_move(10, 0)
            .with_collide(),
    );

    let input = Input {
        dt: 1000,
        is_jump: true,
    };

    world.update(&input);

    let e = &world.entities[0];
    assert!(e.transform.x > 0);
    assert!(e.transform.y < 100);
}

#[test]
fn jump_sets_upward_velocity_when_grounded() {
    let mut world = World::new();
    world.spawn(player_entity(GROUND, true));

    let input = Input {
        dt: 16,
        is_jump: true,
    };

    jump_system(&mut world.entities, &input);

    let physics = world.entities[0].physics.as_ref().unwrap();

    assert!(!physics.is_grounded);
    assert!(physics.velocity.y > 0);
}

#[test]
fn jump_does_not_trigger_midair() {
    let mut world = World::new();
    world.spawn(player_entity(GROUND + 50, false));

    let input = Input {
        dt: 16,
        is_jump: true,
    };

    jump_system(&mut world.entities, &input);

    let physics = world.entities[0].physics.as_ref().unwrap();

    // gravity applied, but no jump impulse
    assert!(physics.velocity.y < 0);
}

#[test]
fn movement_scales_by_elapsed_millis() {
    let mut entities = vec![Entity::new(0, 0, 0).with_move(10, -6)];

    let input = Input {
        dt: 500,
        is_jump: false,
    };

    movement_system(&mut entities, &input);

    // 10 units/s over half a second is 5 units; -6 units/s is -3.
    assert_eq!(entities[0].transform.x, 5);
    assert_eq!(entities[0].transform.y, -3);
}

#[test]
fn movement_truncates_subunit_displacement() {
    let mut entities = vec![Entity::new(0, 0, 0).with_move(10, 0)];

    let input = Input {
        dt: 16,
        is_jump: false,
    };

    movement_system(&mut entities, &input);

    // 10 units/s over 16 ms is 0.16 units, which truncates to zero.
    assert_eq!(entities[0].transform.x, 0);
}

#[test]
fn collision_counts_touching_edges() {
    // The second rectangle starts exactly where the first one ends.
    let mut entities = vec![
        Entity::new(0, 0, 0).with_collide(),
        Entity::new(1, 64, 0).with_collide(),
    ];

    collide_system(&mut entities);

    assert!(entities[0].collide.as_ref().unwrap().is_collided);
    assert!(entities[1].collide.as_ref().unwrap().is_collided);
}

#[test]
fn collision_ignores_entities_without_component() {
    let mut entities = vec![
        Entity::new(0, 0, 0).with_collide(),
        Entity::new(1, 10, 10), // overlapping but invisible to the pass
    ];

    collide_system(&mut entities);

    assert!(!entities[0].collide.as_ref().unwrap().is_collided);
    assert!(entities[1].collide.is_none());
}

#[test]
fn collision_pass_is_order_independent() {
    let a = Entity::new(0, 0, 0).with_collide();
    let b = Entity::new(1, 32, 32).with_collide();

    let mut forward = vec![a, b];
    let mut backward = vec![b, a];
    collide_system(&mut forward);
    collide_system(&mut backward);

    assert_eq!(
        forward[0].collide.as_ref().unwrap().is_collided,
        backward[1].collide.as_ref().unwrap().is_collided
    );
    assert_eq!(
        forward[1].collide.as_ref().unwrap().is_collided,
        backward[0].collide.as_ref().unwrap().is_collided
    );
    assert!(forward[0].collide.as_ref().unwrap().is_collided);
}

#[test]
fn grounded_entity_without_jump_keeps_zero_velocity() {
    let mut entities = vec![Entity::new(0, 0, 100).with_jump(300, 100)];

    let input = Input {
        dt: 1000,
        is_jump: false,
    };

    jump_system(&mut entities, &input);

    let physics = entities[0].physics.as_ref().unwrap();
    assert_eq!(physics.velocity.y, 0);
    assert!(physics.is_grounded);
    assert_eq!(entities[0].transform.y, 100);
}

#[test]
fn midair_jump_press_only_accumulates_gravity() {
    // Airborne below the apex: the press must not re-apply the impulse.
    let mut entity = Entity::new(0, 0, 50).with_tag(Tag::Player).with_physics(Physics {
        force: 450,
        gravity: 10,
        ground_level: 100,
        is_grounded: false,
        velocity: Velocity { x: 0, y: 0 },
    });
    entity.set_dimensions(10, 10);
    let mut entities = vec![entity];

    let input = Input {
        dt: 1000,
        is_jump: true,
    };

    jump_system(&mut entities, &input);

    let physics = entities[0].physics.as_ref().unwrap();
    assert_eq!(physics.velocity.y, -10);
    assert!(!physics.is_grounded);
    assert_eq!(entities[0].transform.y, 60);
}

#[test]
fn landing_clamps_to_ground_level() {
    // Airborne at 90 with upward velocity 100 and gravity 450 over one
    // second: velocity turns to -350 and the raw position 440 would pass
    // the threshold at 100, so the frame ends exactly on the ground.
    let mut entity = Entity::new(0, 0, 90).with_jump(300, 100);
    entity.physics.as_mut().unwrap().velocity.y = 100;
    let mut entities = vec![entity];

    let input = Input {
        dt: 1000,
        is_jump: false,
    };

    jump_system(&mut entities, &input);

    let physics = entities[0].physics.as_ref().unwrap();
    assert_eq!(entities[0].transform.y, 100);
    assert_eq!(physics.velocity.y, 0);
    assert!(physics.is_grounded);
}

#[test]
fn jump_impulse_is_exact_force() {
    let mut entities = vec![Entity::new(0, 0, 100).with_jump(300, 100)];

    let input = Input {
        dt: 1000,
        is_jump: true,
    };

    jump_system(&mut entities, &input);

    let physics = entities[0].physics.as_ref().unwrap();
    assert_eq!(physics.velocity.y, 300);
    assert!(!physics.is_grounded);
    assert_eq!(entities[0].transform.y, 100 - 300);
}

#[test]
fn movement_resumes_after_separation() {
    let mut world = World::new();
    world.spawn(Entity::new(1, 0, 0).with_collide().with_move(10, 0));
    world.spawn(Entity::new(2, 32, 0).with_collide());

    let input = Input {
        dt: 1000,
        is_jump: false,
    };

    // Overlapping: the mover must stand still.
    world.update(&input);
    assert_eq!(world.entities[0].transform.x, 0);

    // Separate the obstacle; the next frame moves by the full velocity.
    world.entities[1].set_position(500, 500);
    world.update(&input);
    assert_eq!(world.entities[0].transform.x, 10);
}
