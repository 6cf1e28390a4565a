//! Tests of the entity record, the world collection, lookup, spawn and
//! despawn, reset, and round-level game state.

use ecs_core::{Collide, Entity, GameState, Input, Physics, SystemKind, Tag, Game, World};

fn test_entity(tag: Option<Tag>) -> Entity {
    let mut e = Entity::new(0, 0, 0);
    e.set_dimensions(10, 10);

    if let Some(t) = tag {
        e = e.with_tag(t);
    }

    e
}

#[test]
fn entity_starts_empty() {
    let mut e = Entity::new(0, 1, 2);
    e.set_dimensions(3, 4);

    assert!(e.tag.is_none());
    assert!(e.render.is_none());
    assert!(e.sprite.is_none());
    assert!(e.physics.is_none());
}

#[test]
fn physics_defaults_are_correct() {
    let physics = Physics::new();

    assert!(physics.is_grounded);
    assert_eq!(physics.velocity.x, 0);
    assert_eq!(physics.velocity.y, 0);
}

#[test]
fn world_spawn_adds_entities() {
    let mut world = World::new();
    world.spawn(test_entity(None));
    world.spawn(test_entity(Some(Tag::Player)));

    assert_eq!(world.entities.len(), 2);
}

#[test]
fn with_tag_filters_entities() {
    let mut world = World::new();
    world.spawn(test_entity(Some(Tag::Player)));
    world.spawn(test_entity(None));
    world.spawn(test_entity(Some(Tag::Player)));

    let players: Vec<usize> = world.with_tag(Tag::Player);

    assert_eq!(players.len(), 2);
    for p in players {
        assert_eq!(world.entities[p].tag, Some(Tag::Player));
    }
}

#[test]
fn with_tag_mut_allows_mutation() {
    let mut world = World::new();
    world.spawn(test_entity(Some(Tag::Player)));
    world.spawn(test_entity(Some(Tag::Player)));

    for i in world.with_tag(Tag::Player) {
        world.entities[i].physics = Some(Physics::new());
    }

    let with_physics = world
        .entities
        .iter()
        .filter(|e| e.physics.is_some())
        .count();

    assert_eq!(with_physics, 2);
}

#[test]
fn game_state_defaults() {
    let state = GameState::new();

    assert_eq!(state.score, 0);
    assert!(!state.game_over);
}

#[test]
fn find_returns_first_match() {
    let mut world = World::new();
    world.spawn(Entity::new(7, 1, 0));
    world.spawn(Entity::new(7, 2, 0));

    let found = world.find(7).unwrap();
    assert_eq!(found.transform.x, 1);
    assert!(world.find(9).is_none());
}

#[test]
fn find_mut_mutates_the_entity() {
    let mut world = World::new();
    world.spawn(Entity::new(3, 0, 0));

    world.find_mut(3).unwrap().set_position(11, 22);

    assert_eq!(world.entities[0].transform.x, 11);
    assert_eq!(world.entities[0].transform.y, 22);
    assert!(world.find_mut(4).is_none());
}

#[test]
fn despawn_removes_first_match_only() {
    let mut world = World::new();
    world.spawn(Entity::new(1, 10, 0));
    world.spawn(Entity::new(2, 20, 0));
    world.spawn(Entity::new(1, 30, 0));

    world.despawn(1);

    assert_eq!(world.entities.len(), 2);
    assert_eq!(world.entities[0].id, 2);
    assert_eq!(world.entities[1].id, 1);
    assert_eq!(world.entities[1].transform.x, 30);
}

#[test]
fn despawn_of_missing_id_is_silent() {
    let mut world = World::new();
    world.spawn(Entity::new(1, 10, 0));

    world.despawn(9);

    assert_eq!(world.entities.len(), 1);
}

#[test]
fn reset_restores_spawn_configuration() {
    let mut world = World::new();
    world.spawn(Entity::new(1, 5, 6).with_collide().with_move(10, 10));
    world.entities[0].collide = Some(Collide { is_collided: true });

    let input = Input {
        dt: 1000,
        is_jump: false,
    };
    world.update(&input);
    assert_ne!(world.entities[0].transform.x, 5);

    world.reset();

    assert_eq!(world.entities[0].transform.x, 5);
    assert_eq!(world.entities[0].transform.y, 6);
    assert!(!world.entities[0].collide.as_ref().unwrap().is_collided);
}

#[test]
fn reset_twice_equals_reset_once() {
    let mut world = World::new();
    world.spawn(Entity::new(1, 5, 6).with_jump(300, 100).with_collide().with_move(7, 0));

    let input = Input {
        dt: 1000,
        is_jump: true,
    };
    world.update(&input);
    world.update(&input);

    world.reset();
    let once: Vec<Entity> = world.entities.clone();
    world.reset();

    assert_eq!(world.entities, once);
}

#[test]
fn pipeline_determinism_replays_identical_trajectories() {
    let build = || {
        let mut world = World::new();
        world.spawn(Entity::new(1, 0, 100).with_jump(300, 100).with_collide());
        world.spawn(Entity::new(2, 300, 100).with_collide().with_move(-40, 0));
        world
    };

    let mut first = build();
    let mut second = build();

    let script = [
        (16, true),
        (16, false),
        (33, false),
        (1000, true),
        (16, false),
        (250, false),
    ];

    for (dt, is_jump) in script {
        let input = Input { dt, is_jump };
        first.update(&input);
        second.update(&input);
        assert_eq!(first.entities, second.entities);
    }
}

#[test]
fn input_new_clamps_negative_delta() {
    let input = Input::new(-5, true);
    assert_eq!(input.dt, 0);
    assert!(input.is_jump);

    let ok = Input::new(16, false);
    assert_eq!(ok.dt, 16);
}

#[test]
fn builders_attach_components() {
    let e = Entity::new(4, 1, 2)
        .with_render(32, 48, ecs_core::Color { r: 1, g: 2, b: 3, a: 4 })
        .with_sprite(9, 0)
        .with_move(5, -5);

    assert_eq!(e.id, 4);
    assert_eq!(e.render.as_ref().unwrap().shape.w, 32);
    assert_eq!(e.render.as_ref().unwrap().color.b, 3);
    assert_eq!(e.sprite.as_ref().unwrap().texture, 9);
    assert_eq!(e.movement.as_ref().unwrap().velocity.y, -5);
}

#[test]
fn game_over_on_player_collision() {
    let mut world = World::new();
    world.spawn(Entity::new(1, 0, 0).with_tag(Tag::Player).with_collide());
    world.spawn(Entity::new(2, 32, 32).with_collide());
    let mut game = Game::new(world)
        .with_update_systems(vec![SystemKind::Collision, SystemKind::Physics, SystemKind::Movement]);

    let input = Input {
        dt: 16,
        is_jump: false,
    };
    game.update(&input);

    assert!(game.state.game_over);
    assert_eq!(game.state.score, 0);
}

#[test]
fn no_game_over_without_player_in_pair() {
    let mut world = World::new();
    world.spawn(Entity::new(1, 0, 0).with_collide());
    world.spawn(Entity::new(2, 32, 32).with_collide());
    let mut game = Game::new(world).with_update_system(SystemKind::Collision);

    let input = Input {
        dt: 16,
        is_jump: false,
    };
    game.update(&input);

    assert!(!game.state.game_over);
    assert!(game.world.entities[0].collide.as_ref().unwrap().is_collided);
}

#[test]
fn game_runs_only_registered_systems() {
    let mut world = World::new();
    world.spawn(Entity::new(1, 0, 50).with_jump(300, 100).with_move(10, 0));
    let mut game = Game::new(world).with_update_system(SystemKind::Movement);

    let input = Input {
        dt: 1000,
        is_jump: true,
    };
    game.update(&input);

    let e = &game.world.entities[0];
    // Movement ran; the unregistered physics pass did not.
    assert_eq!(e.transform.x, 10);
    assert_eq!(e.physics.as_ref().unwrap().velocity.y, 0);
}

#[test]
fn game_reset_clears_round_state() {
    let mut world = World::new();
    world.spawn(Entity::new(1, 0, 0).with_tag(Tag::Player).with_collide());
    world.spawn(Entity::new(2, 10, 10).with_collide());
    let mut game = Game::new(world).with_update_system(SystemKind::Collision);

    let input = Input {
        dt: 16,
        is_jump: false,
    };
    game.update(&input);
    game.state.score = 70;
    assert!(game.state.game_over);

    game.reset();

    assert!(!game.state.game_over);
    assert_eq!(game.state.score, 0);
    assert!(!game.world.entities[0].collide.as_ref().unwrap().is_collided);
}

#[test]
fn update_sprites_animates_grounded_and_plain_entities() {
    let mut world = World::new();
    world.spawn(Entity::new(1, 0, 0).with_sprite(5, 0));
    world.spawn(
        Entity::new(2, 0, 40).with_sprite(6, 3).with_physics(Physics {
            force: 450,
            gravity: 800,
            ground_level: 40,
            is_grounded: true,
            velocity: ecs_core::Velocity { x: 0, y: 0 },
        }),
    );
    world.spawn(
        Entity::new(3, 0, 0).with_sprite(7, 8).with_physics(Physics {
            force: 450,
            gravity: 800,
            ground_level: 40,
            is_grounded: false,
            velocity: ecs_core::Velocity { x: 0, y: 0 },
        }),
    );

    ecs_core::update_sprites(&mut world.entities);

    assert_eq!(world.entities[0].sprite.as_ref().unwrap().cursor, 1);
    assert_eq!(world.entities[1].sprite.as_ref().unwrap().cursor, 4);
    assert_eq!(world.entities[2].sprite.as_ref().unwrap().cursor, 8);
}

#[test]
fn set_origin_records_camera_target() {
    let mut world = World::new();
    world.set_origin(0, 200);
    assert_eq!(world.origin.x, 0);
    assert_eq!(world.origin.y, 200);
}

#[test]
fn advance_saturates_at_bounds() {
    assert_eq!(ecs_core::advance(i64::MAX, 1000, 1000), i64::MAX);
    assert_eq!(ecs_core::retreat(i64::MIN, 1000, 1000), i64::MIN);
    assert_eq!(ecs_core::advance(0, -7000, 500), -3500);
    assert_eq!(ecs_core::retreat(100, 7000, 100), -600);
}
