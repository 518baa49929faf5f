//! Bullets: spawned from player move events with a randomly perturbed
//! direction, moved along that direction each tick, and removed when
//! their fixed lifetime expires.

use vstd::prelude::*;
use crate::bounding::{Body, Intersects, Point, Pose, Rot, Shape, SCALE};
use crate::motion::{clamp_spec, clamp_pos, normalize_or_zero, normalized, step_delta,
    step_delta_spec};
use crate::player::{move_event_wf, PlayerEntity, PlayerMoveEvent};
use crate::random::random_in;

verus! {

/// Bullet speed, in world units per second.
pub const BULLET_SPEED: i64 = 300;

/// How long a bullet lives, in milliseconds.
pub const BULLET_LIFETIME_MS: u64 = 2000;

/// Largest magnitude of the random spread added to each component of a
/// bullet's direction (about four tenths of `SCALE`).
pub const BULLET_SPREAD: i64 = 409;

/// A bullet: its normalized direction of travel (fixed-point, scaled by
/// `SCALE`) and the time it was fired, in milliseconds.
#[derive(Debug, Clone, Copy, PartialEq, Eq, Structural)]
pub struct Bullet {
    pub direction: Point,
    pub spawn_time: u64,
}

/// A complete bullet entity.
#[derive(Debug, Clone, Copy, PartialEq, Eq, Structural)]
pub struct BulletEntity {
    pub bullet: Bullet,
    pub body: Body,
    pub intersects: Intersects,
}

impl BulletEntity {
    pub open spec fn wf(self) -> bool {
        self.body.wf()
        && -(SCALE as int) <= self.bullet.direction.x <= SCALE as int
        && -(SCALE as int) <= self.bullet.direction.y <= SCALE as int
    }
}

/// An admissible random spread on one direction component.
pub open spec fn spread_ok(s: int) -> bool {
    -(BULLET_SPREAD as int) <= s < BULLET_SPREAD as int
}

/// The local footprint every bullet spawns with.
pub open spec fn bullet_shape() -> Shape {
    Shape::Ellipse { rx: 3, ry: 6 }
}

/// Fire one bullet if the player exists and moved this tick: it starts
/// at the player's position and flies along the move direction,
/// perturbed on each axis by a random spread of less than half a step
/// and then normalized.
pub fn spawn_bullets(
    player: &Option<PlayerEntity>,
    move_events: &Vec<PlayerMoveEvent>,
    now_ms: u64,
) -> (r: Option<BulletEntity>)
    requires
        match player {
            Some(p) => p.wf(),
            None => true,
        },
        forall|i: int| 0 <= i < move_events@.len() ==> move_event_wf(#[trigger] move_events@[i]),
    ensures
        match player {
            Some(p) => {
                if move_events@.len() > 0 {
                    match r {
                        Some(b) => {
                            b.wf()
                            && b.bullet.spawn_time == now_ms
                            && b.body.shape == bullet_shape()
                            && b.body.pose == (Pose {
                                tx: p.body.pose.tx,
                                ty: p.body.pose.ty,
                                rot: Rot { c: SCALE, s: 0 },
                            })
                            && (exists|sx: int, sy: int|
                                #![trigger spread_ok(sx), spread_ok(sy)]
                                spread_ok(sx) && spread_ok(sy)
                                && normalized(
                                    move_events@[0].0.x + sx,
                                    move_events@[0].0.y + sy,
                                    b.bullet.direction,
                                ))
                        },
                        None => false,
                    }
                } else {
                    r is None
                }
            },
            None => r is None,
        },
{
    let p = match player {
        Some(p) => p,
        None => { return None; },
    };
    if move_events.len() == 0 {
        return None;
    }
    let ev = move_events[0];
    let sx = random_in(-BULLET_SPREAD, BULLET_SPREAD);
    let sy = random_in(-BULLET_SPREAD, BULLET_SPREAD);
    let direction = normalize_or_zero(ev.0.x + sx, ev.0.y + sy);
    proof {
        assert(spread_ok(sx as int) && spread_ok(sy as int));
    }
    Some(BulletEntity {
        bullet: Bullet { direction, spawn_time: now_ms },
        body: Body::new(
            Shape::Ellipse { rx: 3, ry: 6 },
            Pose { tx: p.body.pose.tx, ty: p.body.pose.ty, rot: Rot::identity() },
        ),
        intersects: Intersects(false),
    })
}

/// How `move_bullets` changes one bullet: its pose is translated along
/// its direction by one tick's displacement, clamped to the world
/// range, and everything else is kept.
pub open spec fn bullet_moved(before: BulletEntity, after: BulletEntity, dt_ms: int) -> bool {
    after.bullet == before.bullet
    && after.intersects == before.intersects
    && after.body.shape == before.body.shape
    && after.body.pose.rot == before.body.pose.rot
    && after.body.pose.tx == clamp_spec(
        before.body.pose.tx
        + step_delta_spec(before.bullet.direction.x as int, BULLET_SPEED as int, dt_ms))
    && after.body.pose.ty == clamp_spec(
        before.body.pose.ty
        + step_delta_spec(before.bullet.direction.y as int, BULLET_SPEED as int, dt_ms))
}

/// Advance every bullet one tick along its direction.
pub fn move_bullets(bullets: &mut Vec<BulletEntity>, dt_ms: u64)
    requires
        forall|i: int| 0 <= i < old(bullets)@.len() ==> (#[trigger] old(bullets)@[i]).wf(),
        dt_ms <= crate::motion::DT_LIMIT,
    ensures
        final(bullets)@.len() == old(bullets)@.len(),
        forall|i: int| 0 <= i < old(bullets)@.len()
            ==> bullet_moved(old(bullets)@[i], #[trigger] final(bullets)@[i], dt_ms as int)
                && final(bullets)@[i].wf(),
{
    let n = bullets.len();
    let mut out: Vec<BulletEntity> = Vec::new();
    let mut i: usize = 0;
    while i < n
        invariant
            n == bullets@.len(),
            forall|k: int| 0 <= k < n ==> (#[trigger] bullets@[k]).wf(),
            dt_ms <= crate::motion::DT_LIMIT,
            0 <= i <= n,
            out@.len() == i,
            forall|k: int| 0 <= k < i
                ==> bullet_moved(bullets@[k], #[trigger] out@[k], dt_ms as int)
                    && out@[k].wf(),
        decreases n - i,
    {
        let b = bullets[i];
        let step_x = step_delta(b.bullet.direction.x, BULLET_SPEED, dt_ms);
        let step_y = step_delta(b.bullet.direction.y, BULLET_SPEED, dt_ms);
        let mut nb = b;
        nb.body.set_pose(Pose {
            tx: clamp_pos(b.body.pose.tx + step_x),
            ty: clamp_pos(b.body.pose.ty + step_y),
            rot: b.body.pose.rot,
        });
        out.push(nb);
        i = i + 1;
    }
    *bullets = out;
}

/// A bullet whose lifetime has expired by `now_ms`.
pub open spec fn bullet_expired(b: BulletEntity, now_ms: int) -> bool {
    now_ms - b.bullet.spawn_time > BULLET_LIFETIME_MS as int
}

/// Remove every bullet older than the fixed lifetime, keeping the rest
/// in order. Expiry does not depend on collisions: an expired bullet is
/// removed even if it never hit anything.
pub fn despawn_bullet(bullets: &mut Vec<BulletEntity>, now_ms: u64)
    requires
        forall|i: int| 0 <= i < old(bullets)@.len()
            ==> #[trigger] old(bullets)@[i].bullet.spawn_time <= now_ms,
    ensures
        final(bullets)@ == old(bullets)@.filter(|b: BulletEntity| !bullet_expired(b, now_ms as int)),
        forall|i: int| 0 <= i < final(bullets)@.len()
            ==> !bullet_expired(#[trigger] final(bullets)@[i], now_ms as int),
{
    let n = bullets.len();
    let mut out: Vec<BulletEntity> = Vec::new();
    let mut i: usize = 0;
    proof {
        assert(bullets@.take(0int) =~= Seq::<BulletEntity>::empty());
        reveal(Seq::filter);
    }
    while i < n
        invariant
            n == bullets@.len(),
            forall|k: int| 0 <= k < n ==> #[trigger] bullets@[k].bullet.spawn_time <= now_ms,
            0 <= i <= n,
            out@ == bullets@.take(i as int).filter(|b: BulletEntity|
                !bullet_expired(b, now_ms as int)),
        decreases n - i,
    {
        let b = bullets[i];
        proof {
            reveal(Seq::filter);
            assert(bullets@.take(i + 1int).drop_last() =~= bullets@.take(i as int));
            assert(bullets@.take(i + 1int).last() == bullets@[i as int]);
        }
        if now_ms - b.bullet.spawn_time <= BULLET_LIFETIME_MS {
            out.push(b);
        }
        i = i + 1;
    }
    proof {
        assert(bullets@.take(n as int) =~= bullets@);
    }
    *bullets = out;
    proof {
        let fin = old(bullets)@.filter(|b: BulletEntity| !bullet_expired(b, now_ms as int));
        assert forall|i: int| 0 <= i < fin.len()
            implies !bullet_expired(#[trigger] fin[i], now_ms as int) by {
            old(bullets)@.lemma_filter_pred(
                |b: BulletEntity| !bullet_expired(b, now_ms as int), i);
        }
    }
}

} // verus!
