use shooter_core::bounding::{Point, Pose, Rot, Shape, SCALE};
use shooter_core::bullet::spawn_bullets;
use shooter_core::enemies::{spawn_enemy, Health, MIN_SPAWN_DIST2, SPAWN_RANGE};
use shooter_core::motion::{clamp_pos, isqrt, normalize_or_zero, step_delta};
use shooter_core::player::{
    change_color, jump_player, move_player, spawn_player, Player, PlayerColor,
    PlayerMoveEvent, PLAYER_LIFES,
};

#[test]
fn isqrt_exact_values() {
    assert_eq!(isqrt(0), 0);
    assert_eq!(isqrt(1), 1);
    assert_eq!(isqrt(2), 1);
    assert_eq!(isqrt(3), 1);
    assert_eq!(isqrt(4), 2);
    assert_eq!(isqrt(144), 12);
    assert_eq!(isqrt(145), 12);
    assert_eq!(isqrt(1_000_000_000_000), 1_000_000);
}

#[test]
fn normalize_scales_to_fixed_point_unit() {
    // A 3-4-5 triangle: length 5000, components scaled by SCALE/5000.
    let m = normalize_or_zero(3000, 4000);
    assert_eq!(m, Point { x: 3000 * SCALE / 5000, y: 4000 * SCALE / 5000 });
    let m = normalize_or_zero(-3000, 4000);
    assert_eq!(m.x, -(3000 * SCALE / 5000));
}

#[test]
fn normalize_of_zero_is_zero() {
    assert_eq!(normalize_or_zero(0, 0), Point { x: 0, y: 0 });
}

#[test]
fn step_delta_exact_values() {
    // A full unit direction for one second covers exactly the speed.
    assert_eq!(step_delta(SCALE, 200, 1000), 200);
    assert_eq!(step_delta(-SCALE, 200, 1000), -200);
    assert_eq!(step_delta(0, 200, 1000), 0);
    // 16 ms at speed 300: 300 * 16 / 1000 = 4 (truncated).
    assert_eq!(step_delta(SCALE, 300, 16), 4);
}

#[test]
fn clamp_pins_to_world_range() {
    assert_eq!(clamp_pos(0), 0);
    assert_eq!(clamp_pos(2_000_000_000), 1_000_000_000);
    assert_eq!(clamp_pos(-2_000_000_000), -1_000_000_000);
}

#[test]
fn move_player_steps_and_emits_event() {
    let mut p = spawn_player();
    let mut events: Vec<PlayerMoveEvent> = Vec::new();
    // Hold the right key for one second at speed 200.
    move_player(&mut p, false, false, false, true, 1000, &mut events);
    assert_eq!(p.body.pose.tx, 200);
    assert_eq!(p.body.pose.ty, 0);
    assert_eq!(events.len(), 1);
    assert_eq!(events[0].0, Point { x: SCALE, y: 0 });
    assert_eq!(p.health, Health(PLAYER_LIFES));
}

#[test]
fn move_player_without_keys_stays_put() {
    let mut p = spawn_player();
    let mut events: Vec<PlayerMoveEvent> = Vec::new();
    move_player(&mut p, false, false, false, false, 1000, &mut events);
    assert_eq!(p.body.pose.tx, 0);
    assert_eq!(p.body.pose.ty, 0);
    assert_eq!(events.len(), 0);
}

#[test]
fn opposite_keys_cancel() {
    let mut p = spawn_player();
    let mut events: Vec<PlayerMoveEvent> = Vec::new();
    move_player(&mut p, true, true, true, true, 1000, &mut events);
    assert_eq!(p.body.pose.tx, 0);
    assert_eq!(p.body.pose.ty, 0);
    assert_eq!(events.len(), 0);
}

#[test]
fn diagonal_movement_is_normalized() {
    let mut p = spawn_player();
    let mut events: Vec<PlayerMoveEvent> = Vec::new();
    // Up and right together: each axis moves by 200 * 724/1024 = 141.
    move_player(&mut p, true, false, false, true, 1000, &mut events);
    let unit = 1024 * SCALE / isqrt(2 * 1024 * 1024);
    let expect = unit * 200 * 1000 / (SCALE * 1000);
    assert_eq!(p.body.pose.tx, expect);
    assert_eq!(p.body.pose.ty, expect);
    assert_eq!(events.len(), 1);
}

#[test]
fn spawned_enemy_keeps_its_distance() {
    // The wrapper around the random source must yield a bounded offset:
    // if it handed anything else back the spawn contract would break.
    let player = Some(spawn_player());
    for _ in 0..32 {
        let e = spawn_enemy(&player, 7).expect("a player exists, so an enemy spawns");
        assert_eq!(e.health, Health(1));
        assert_eq!(e.death, None);
        assert_eq!(e.enemy.death_material, 7);
        let dx = e.body.pose.tx;
        let dy = e.body.pose.ty;
        assert!(dx.abs() <= SPAWN_RANGE && dy.abs() <= SPAWN_RANGE);
        assert!(dx * dx + dy * dy > MIN_SPAWN_DIST2);
    }
}

#[test]
fn no_player_no_enemy() {
    assert!(spawn_enemy(&None, 0).is_none());
}

#[test]
fn spawned_bullet_flies_roughly_along_the_move() {
    let player = Some(spawn_player());
    let events = vec![PlayerMoveEvent(Point { x: SCALE, y: 0 })];
    for _ in 0..32 {
        let b = spawn_bullets(&player, &events, 42).expect("a move event spawns a bullet");
        assert_eq!(b.bullet.spawn_time, 42);
        assert_eq!(b.body.pose, Pose { tx: 0, ty: 0, rot: Rot { c: SCALE, s: 0 } });
        assert!(matches!(b.body.shape, Shape::Ellipse { rx: 3, ry: 6 }));
        // The spread is under half a step, so the bullet keeps a strong
        // forward component and never flies backward.
        assert!(b.bullet.direction.x > 0);
        assert!(b.bullet.direction.x.abs() <= SCALE);
        assert!(b.bullet.direction.y.abs() <= SCALE);
    }
}

#[test]
fn no_move_event_no_bullet() {
    let player = Some(spawn_player());
    assert!(spawn_bullets(&player, &Vec::new(), 0).is_none());
}

#[test]
fn jump_decision_follows_the_animation_state() {
    let mut player = Player { is_jumping: false };
    let mut starts = Vec::new();
    let mut ends = Vec::new();

    // Pressing space while nothing plays starts the jump.
    let cmd = jump_player(&mut player, true, true, false, false, &mut starts, &mut ends);
    assert!(cmd.play && !cmd.stop);
    assert!(player.is_jumping);
    assert_eq!(starts.len(), 1);
    assert_eq!(ends.len(), 0);

    // A finished animation stops the jump.
    let cmd = jump_player(&mut player, true, false, true, true, &mut starts, &mut ends);
    assert!(!cmd.play && cmd.stop);
    assert!(!player.is_jumping);
    assert_eq!(ends.len(), 1);

    // Without a jump animation nothing happens at all.
    let cmd = jump_player(&mut player, false, true, false, false, &mut starts, &mut ends);
    assert!(!cmd.play && !cmd.stop);
    assert_eq!(starts.len(), 1);
}

#[test]
fn jump_events_drive_the_player_color() {
    let start = vec![shooter_core::player::PlayerJumpStartEvent];
    let end = vec![shooter_core::player::PlayerJumpEndEvent];
    let none_s: Vec<shooter_core::player::PlayerJumpStartEvent> = Vec::new();
    let none_e: Vec<shooter_core::player::PlayerJumpEndEvent> = Vec::new();
    assert_eq!(change_color(PlayerColor::Purple, &start, &none_e), PlayerColor::Yellow);
    assert_eq!(change_color(PlayerColor::Yellow, &none_s, &end), PlayerColor::Purple);
    assert_eq!(change_color(PlayerColor::Yellow, &start, &end), PlayerColor::Purple);
    assert_eq!(change_color(PlayerColor::Yellow, &none_s, &none_e), PlayerColor::Yellow);
}
