use shooter_core::AppState;
use shooter_core::bounding::{Body, Intersects, Point, Pose, Rot, Shape, SCALE};
use shooter_core::bullet::{Bullet, BulletEntity};
use shooter_core::enemies::{Enemy, EnemyEntity, Health};
use shooter_core::game::{update_health_ui, update_score, HealthUi, Score};
use shooter_core::menu::Interaction;
use shooter_core::player::{PlayerHitEvent, PLAYER_LIFES};
use shooter_core::world::{tick, update_volumes, TickInput, World};

fn quiet_input(now_ms: u64, dt_ms: u64) -> TickInput {
    TickInput {
        now_ms,
        dt_ms,
        up: false,
        down: false,
        left: false,
        right: false,
        space_just_pressed: false,
        button: Interaction::Inactive,
        jump_has_animation: false,
        jump_is_playing: false,
        jump_all_finished: false,
        death_material: 0,
    }
}

#[test]
fn new_world_is_a_menu_with_a_full_player() {
    let w = World::new();
    assert_eq!(w.phase, AppState::Menu);
    let p = w.player.expect("the world starts with a player");
    assert_eq!(p.health, Health(PLAYER_LIFES));
    assert_eq!(w.enemies.len(), 0);
    assert_eq!(w.bullets.len(), 0);
    assert_eq!(w.score, Score(0));
    assert_eq!(w.health_ui, HealthUi(PLAYER_LIFES));
}

#[test]
fn menu_tick_starts_the_game_on_press() {
    let mut w = World::new();
    let mut input = quiet_input(16, 16);
    input.button = Interaction::Pressed;
    let out = tick(&mut w, input);
    assert_eq!(w.phase, AppState::InGame);
    assert!(!out.exit_requested);
    assert_eq!(w.score, Score(0));
    assert_eq!(out.killed_events.len(), 0);
}

#[test]
fn menu_tick_without_press_stays_in_menu() {
    let mut w = World::new();
    let out = tick(&mut w, quiet_input(16, 16));
    assert_eq!(w.phase, AppState::Menu);
    assert!(!out.exit_requested);
    assert_eq!(w.enemies.len(), 0);
    assert_eq!(w.spawn_timer.acc, 0);
}

#[test]
fn end_game_tick_only_offers_exit() {
    let mut w = World::new();
    w.phase = AppState::EndGame;
    let out = tick(&mut w, quiet_input(16, 16));
    assert_eq!(w.phase, AppState::EndGame);
    assert!(!out.exit_requested);

    let mut input = quiet_input(32, 16);
    input.button = Interaction::Pressed;
    let out = tick(&mut w, input);
    assert_eq!(w.phase, AppState::EndGame);
    assert!(out.exit_requested);
}

#[test]
fn in_game_ticks_spawn_enemies_after_the_delay() {
    let mut w = World::new();
    let mut input = quiet_input(0, 16);
    input.button = Interaction::Pressed;
    let _ = tick(&mut w, input);
    assert_eq!(w.phase, AppState::InGame);

    // Before a full second of game time: no enemy yet.
    let _ = tick(&mut w, quiet_input(500, 500));
    assert_eq!(w.enemies.len(), 0);

    // Crossing the spawn delay brings the first enemy.
    let _ = tick(&mut w, quiet_input(1100, 600));
    assert_eq!(w.enemies.len(), 1);
    assert_eq!(w.enemies[0].health, Health(1));
}

#[test]
fn a_full_round_scores_a_kill() {
    // Start the game, place a bullet on top of a handmade enemy, and let
    // one tick resolve it: the score rises and the bullet is consumed.
    let mut w = World::new();
    let mut input = quiet_input(0, 0);
    input.button = Interaction::Pressed;
    let _ = tick(&mut w, input);

    let mut enemy_body = Body::new(
        Shape::Triangle {
            p0: Point { x: 0, y: 20 },
            p1: Point { x: -20, y: -20 },
            p2: Point { x: 20, y: -20 },
        },
        Pose { tx: 5000, ty: 0, rot: Rot { c: SCALE, s: 0 } },
    );
    enemy_body.refresh();
    w.enemies.push(EnemyEntity {
        enemy: Enemy { death_material: 0 },
        health: Health(1),
        death: None,
        body: enemy_body,
        intersects: Intersects(false),
    });
    let mut bullet_body = Body::new(
        Shape::Ellipse { rx: 3, ry: 6 },
        Pose { tx: 5000, ty: 0, rot: Rot { c: SCALE, s: 0 } },
    );
    bullet_body.refresh();
    w.bullets.push(BulletEntity {
        bullet: Bullet { direction: Point { x: 0, y: 0 }, spawn_time: 0 },
        body: bullet_body,
        intersects: Intersects(false),
    });

    let out = tick(&mut w, quiet_input(16, 0));
    assert_eq!(out.killed_events.len(), 1);
    assert_eq!(w.score, Score(1));
    assert_eq!(w.bullets.len(), 0);
    assert_eq!(w.enemies.len(), 1);
    assert_eq!(w.enemies[0].health, Health(0));
    assert!(w.enemies[0].death.is_some());
    assert_eq!(w.phase, AppState::InGame);
}

#[test]
fn update_volumes_fills_every_volume() {
    let mut w = World::new();
    let mut body = Body::new(
        Shape::Rectangle { hw: 8, hh: 8 },
        Pose { tx: 100, ty: 100, rot: Rot { c: SCALE, s: 0 } },
    );
    assert!(body.dirty);
    w.enemies.push(EnemyEntity {
        enemy: Enemy { death_material: 0 },
        health: Health(1),
        death: None,
        body,
        intersects: Intersects(false),
    });
    update_volumes(&mut w);
    assert!(!w.enemies[0].body.dirty);
    assert_eq!(w.enemies[0].body.volume.min_x, 100 * SCALE - 8 * SCALE);
    assert!(!w.player.unwrap().body.dirty);
}

#[test]
fn counters_absorb_this_ticks_events() {
    let mut score = Score(10);
    update_score(&mut score, &vec![shooter_core::enemies::EnemyKilledEvent]);
    assert_eq!(score, Score(11));

    let mut ui = HealthUi(3);
    update_health_ui(&mut ui, &vec![PlayerHitEvent, PlayerHitEvent]);
    assert_eq!(ui, HealthUi(1));
}
