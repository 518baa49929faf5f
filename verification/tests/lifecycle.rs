use shooter_core::bounding::{Body, Intersects, Pose, Rot, Shape, SCALE};
use shooter_core::bullet::{
    despawn_bullet, move_bullets, Bullet, BulletEntity, BULLET_LIFETIME_MS, BULLET_SPEED,
};
use shooter_core::bounding::Point;
use shooter_core::enemies::{
    despawn_dead, enemy_bullet_collision, enemy_player_collision, play_death, time_passed,
    Death, Enemy, EnemyEntity, Health, Timer, DEATH_TIME_MS,
};
use shooter_core::player::{Player, PlayerEntity};

fn fresh_body(shape: Shape, tx: i64, ty: i64) -> Body {
    let mut b = Body::new(shape, Pose { tx, ty, rot: Rot { c: SCALE, s: 0 } });
    b.refresh();
    b
}

fn enemy_at(tx: i64, ty: i64, health: i8) -> EnemyEntity {
    EnemyEntity {
        enemy: Enemy { death_material: 0 },
        health: Health(health),
        death: None,
        body: fresh_body(
            Shape::Triangle {
                p0: Point { x: 0, y: 20 },
                p1: Point { x: -20, y: -20 },
                p2: Point { x: 20, y: -20 },
            },
            tx,
            ty,
        ),
        intersects: Intersects(false),
    }
}

fn bullet_at(tx: i64, ty: i64, spawn_time: u64) -> BulletEntity {
    BulletEntity {
        bullet: Bullet { direction: Point { x: SCALE, y: 0 }, spawn_time },
        body: fresh_body(Shape::Ellipse { rx: 3, ry: 6 }, tx, ty),
        intersects: Intersects(false),
    }
}

fn player_at(tx: i64, ty: i64, health: i8) -> PlayerEntity {
    PlayerEntity {
        player: Player { is_jumping: false },
        health: Health(health),
        body: fresh_body(Shape::Rectangle { hw: 32, hh: 32 }, tx, ty),
    }
}

#[test]
fn one_bullet_kills_one_enemy() {
    // An enemy with one health and exactly one intersecting bullet:
    // after resolution the enemy is at zero, the bullet is gone, and
    // exactly one kill is recorded.
    let mut enemies = vec![enemy_at(0, 0, 1)];
    let mut bullets = vec![bullet_at(5, 5, 0)];
    let mut killed = Vec::new();
    enemy_bullet_collision(&mut enemies, &mut bullets, &mut killed);
    assert_eq!(enemies.len(), 1);
    assert_eq!(enemies[0].health, Health(0));
    assert_eq!(bullets.len(), 0);
    assert_eq!(killed.len(), 1);
}

#[test]
fn only_first_enemy_takes_bullet_damage() {
    // Two enemies each overlapping a bullet: only the first scanned
    // enemy is damaged and only one bullet is consumed this tick.
    let mut enemies = vec![enemy_at(0, 0, 2), enemy_at(1000, 1000, 2)];
    let mut bullets = vec![bullet_at(0, 0, 0), bullet_at(1000, 1000, 0)];
    let mut killed = Vec::new();
    enemy_bullet_collision(&mut enemies, &mut bullets, &mut killed);
    assert_eq!(enemies[0].health, Health(1));
    assert_eq!(enemies[1].health, Health(2));
    assert_eq!(bullets.len(), 1);
    assert_eq!(killed.len(), 1);
}

#[test]
fn dying_enemy_is_skipped_by_bullets() {
    let mut dying = enemy_at(0, 0, 0);
    dying.death = Some(Death(0));
    let mut enemies = vec![dying];
    let mut bullets = vec![bullet_at(0, 0, 0)];
    let mut killed = Vec::new();
    enemy_bullet_collision(&mut enemies, &mut bullets, &mut killed);
    assert_eq!(enemies[0].health, Health(0));
    assert_eq!(bullets.len(), 1);
    assert_eq!(killed.len(), 0);
}

#[test]
fn contact_damages_player_and_first_enemy_only() {
    // A player with three health and one intersecting, non-dying enemy:
    // both lose exactly one point, and no further enemy is checked even
    // though a second one also intersects.
    let mut enemies = vec![enemy_at(10, 10, 5), enemy_at(-10, -10, 5)];
    let mut player = Some(player_at(0, 0, 3));
    let mut hits = Vec::new();
    enemy_player_collision(&mut enemies, &mut player, &mut hits);
    assert_eq!(player.unwrap().health, Health(2));
    assert_eq!(enemies[0].health, Health(4));
    assert_eq!(enemies[1].health, Health(5));
    assert_eq!(hits.len(), 1);
}

#[test]
fn contact_without_player_is_a_no_op() {
    let mut enemies = vec![enemy_at(0, 0, 1)];
    let mut player: Option<PlayerEntity> = None;
    let mut hits = Vec::new();
    enemy_player_collision(&mut enemies, &mut player, &mut hits);
    assert_eq!(enemies[0].health, Health(1));
    assert!(player.is_none());
    assert_eq!(hits.len(), 0);
}

#[test]
fn dying_enemy_never_damages_player() {
    let mut dying = enemy_at(0, 0, 1);
    dying.death = Some(Death(0));
    let mut enemies = vec![dying];
    let mut player = Some(player_at(0, 0, 3));
    let mut hits = Vec::new();
    enemy_player_collision(&mut enemies, &mut player, &mut hits);
    assert_eq!(player.unwrap().health, Health(3));
    assert_eq!(hits.len(), 0);
}

#[test]
fn exhausted_enemy_enters_death_once() {
    let mut enemies = vec![enemy_at(0, 0, 0), enemy_at(500, 500, 1)];
    play_death(&mut enemies, 1000);
    assert_eq!(enemies[0].death, Some(Death(1000)));
    assert_eq!(enemies[1].death, None);

    // A later pass must not restamp the dying enemy.
    play_death(&mut enemies, 2000);
    assert_eq!(enemies[0].death, Some(Death(1000)));
}

#[test]
fn dying_enemy_removed_exactly_once_after_duration() {
    let mut enemies = vec![enemy_at(0, 0, 0)];
    enemies[0].death = Some(Death(1000));

    // One instant before the duration has fully elapsed: still present.
    despawn_dead(&mut enemies, 1000 + DEATH_TIME_MS - 1);
    assert_eq!(enemies.len(), 1);

    // Exactly at the duration: still present (removal needs strictly more).
    despawn_dead(&mut enemies, 1000 + DEATH_TIME_MS);
    assert_eq!(enemies.len(), 1);

    // One instant past the duration: gone, and a second pass changes nothing.
    despawn_dead(&mut enemies, 1000 + DEATH_TIME_MS + 1);
    assert_eq!(enemies.len(), 0);
    despawn_dead(&mut enemies, 1000 + DEATH_TIME_MS + 1);
    assert_eq!(enemies.len(), 0);
}

#[test]
fn expired_bullet_removed_without_collisions() {
    // A bullet older than its lifetime is removed even though nothing
    // ever collided with it.
    let mut bullets = vec![bullet_at(0, 0, 0), bullet_at(50, 50, 1500)];
    despawn_bullet(&mut bullets, BULLET_LIFETIME_MS + 1);
    assert_eq!(bullets.len(), 1);
    assert_eq!(bullets[0].bullet.spawn_time, 1500);
}

#[test]
fn bullet_at_exact_lifetime_survives() {
    let mut bullets = vec![bullet_at(0, 0, 0)];
    despawn_bullet(&mut bullets, BULLET_LIFETIME_MS);
    assert_eq!(bullets.len(), 1);
}

#[test]
fn bullets_move_along_their_direction() {
    // Direction (SCALE, 0) is a unit vector along x; over one second at
    // BULLET_SPEED the bullet advances exactly BULLET_SPEED units.
    let mut bullets = vec![bullet_at(0, 0, 0)];
    move_bullets(&mut bullets, 1000);
    assert_eq!(bullets[0].body.pose.tx, BULLET_SPEED);
    assert_eq!(bullets[0].body.pose.ty, 0);
    assert!(bullets[0].body.dirty);
}

#[test]
fn spawn_timer_accumulates_and_never_resets() {
    let mut timer = Timer { acc: 0 };
    assert!(!time_passed(&mut timer, 1000, 600));
    assert!(time_passed(&mut timer, 1000, 600));
    assert_eq!(timer.acc, 1200);
    // Once past the threshold it stays past it.
    assert!(time_passed(&mut timer, 1000, 0));
}

#[test]
fn health_hit_subtracts_exactly() {
    let mut h = Health(3);
    h.hit(1);
    assert_eq!(h, Health(2));
    h.hit(2);
    assert_eq!(h, Health(0));
    h.hit(1);
    assert_eq!(h, Health(-1));
}
