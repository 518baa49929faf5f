//! Enemies: spawning at a random position away from the player, pursuit
//! movement, the two broad-phase collision resolvers, and the death
//! sequence (health at or below zero starts a timed death; expiry of
//! the timer removes the enemy).

use vstd::prelude::*;
use crate::bounding::{
    spec_intersects, Body, Point, Pose, Rot, Shape, Volume, Intersects, POS_LIMIT, SCALE,
};
use crate::bullet::BulletEntity;
use crate::motion::{clamp_spec, clamp_pos, normalize_or_zero, normalized, step_delta,
    step_delta_spec};
use crate::player::{PlayerEntity, PlayerHitEvent, PLAYER_SIZE};
use crate::random::random_in;

verus! {

/// Delay before enemy spawning begins, in milliseconds.
pub const SPAWN_DELAY_MS: u64 = 1000;

/// How long a dying enemy lingers before removal, in milliseconds.
pub const DEATH_TIME_MS: u64 = 500;

/// Enemy pursuit speed, in world units per second.
pub const ENEMY_SPEED: i64 = 30;

/// An enemy died to a bullet this tick.
#[derive(Debug, Clone, Copy, PartialEq, Eq, Structural)]
pub struct EnemyKilledEvent;

/// Enemy marker; carries the identifier of the material the rendering
/// collaborator swaps in when the enemy starts dying.
#[derive(Debug, Clone, Copy, PartialEq, Eq, Structural)]
pub struct Enemy {
    pub death_material: u64,
}

/// A signed health counter. Damage only ever decreases it.
#[derive(Debug, Clone, Copy, PartialEq, Eq, Structural)]
pub struct Health(pub i8);

impl Health {
    /// Apply `hit_points` of damage.
    pub fn hit(&mut self, hit_points: i8)
        requires
            i8::MIN <= old(self).0 - hit_points <= i8::MAX,
        ensures
            final(self).0 == old(self).0 - hit_points,
    {
        self.0 = self.0 - hit_points;
    }
}

impl Default for Health {
    fn default() -> (r: Self)
        ensures
            r == Health(0),
    {
        Health(0)
    }
}

/// Death marker: the time, in milliseconds, at which the entity entered
/// the death sequence.
#[derive(Debug, Clone, Copy, PartialEq, Eq, Structural)]
pub struct Death(pub u64);

/// An accumulating tick timer, used to delay enemy spawning.
#[derive(Debug, Clone, Copy, PartialEq, Eq, Structural)]
pub struct Timer {
    pub acc: u64,
}

impl Default for Timer {
    fn default() -> (r: Self)
        ensures
            r == (Timer { acc: 0 }),
    {
        Timer { acc: 0 }
    }
}

/// Advance a timer by one tick and report whether at least `t`
/// milliseconds have accumulated in total. The timer never resets.
pub fn time_passed(timer: &mut Timer, t: u64, dt_ms: u64) -> (r: bool)
    ensures
        final(timer).acc == (if old(timer).acc + dt_ms <= u64::MAX {
            old(timer).acc + dt_ms
        } else {
            u64::MAX as int
        }),
        r == (final(timer).acc >= t),
{
    timer.acc = timer.acc.saturating_add(dt_ms);
    timer.acc >= t
}

/// A complete enemy entity.
#[derive(Debug, Clone, Copy, PartialEq, Eq, Structural)]
pub struct EnemyEntity {
    pub enemy: Enemy,
    pub health: Health,
    pub death: Option<Death>,
    pub body: Body,
    pub intersects: Intersects,
}

impl EnemyEntity {
    pub open spec fn wf(self) -> bool {
        self.body.wf()
    }

    /// An enemy takes part in collision scans only while it is not in
    /// its death sequence.
    pub open spec fn scannable(self) -> bool {
        self.death is None
    }
}

/// Squared distance between two poses' translations.
pub open spec fn dist2(a: Pose, b: Pose) -> int {
    (a.tx - b.tx) * (a.tx - b.tx) + (a.ty - b.ty) * (a.ty - b.ty)
}

/// The local footprint every enemy spawns with.
pub open spec fn enemy_shape() -> Shape {
    Shape::Triangle {
        p0: Point { x: 0i64, y: 20i64 },
        p1: Point { x: -20i64, y: -20i64 },
        p2: Point { x: 20i64, y: -20i64 },
    }
}

/// Largest magnitude of a random spawn offset component.
pub const SPAWN_RANGE: i64 = 800;

/// How far from the player an enemy must spawn: squared distance must
/// exceed this.
pub const MIN_SPAWN_DIST2: i64 = 8 * PLAYER_SIZE * PLAYER_SIZE;

fn spawn_candidate(player_pose: &Pose) -> (r: (i64, i64))
    requires
        player_pose.wf(),
    ensures
        -POS_LIMIT <= r.0 <= POS_LIMIT,
        -POS_LIMIT <= r.1 <= POS_LIMIT,
        clamp_spec(player_pose.tx - SPAWN_RANGE) <= r.0 as int
            <= clamp_spec(player_pose.tx + SPAWN_RANGE as int),
        clamp_spec(player_pose.ty - SPAWN_RANGE) <= r.1 as int
            <= clamp_spec(player_pose.ty + SPAWN_RANGE as int),
{
    let ox = random_in(-SPAWN_RANGE, SPAWN_RANGE);
    let oy = random_in(-SPAWN_RANGE, SPAWN_RANGE);
    (clamp_pos(player_pose.tx + ox), clamp_pos(player_pose.ty + oy))
}

/// Spawn one enemy near, but not too near, the player: a random
/// position within `SPAWN_RANGE` of the player whose squared distance
/// from the player exceeds `MIN_SPAWN_DIST2`. Without a player there is
/// nothing to aim at and nothing spawns.
pub fn spawn_enemy(player: &Option<PlayerEntity>, death_material: u64) -> (r: Option<EnemyEntity>)
    requires
        match player {
            Some(p) => p.wf(),
            None => true,
        },
    ensures
        match player {
            Some(p) => match r {
                Some(e) => {
                    e.wf()
                    && e.health == Health(1)
                    && e.death is None
                    && e.enemy == (Enemy { death_material })
                    && e.body.shape == enemy_shape()
                    && e.body.pose.rot == (Rot { c: SCALE, s: 0 })
                    && dist2(e.body.pose, p.body.pose) > MIN_SPAWN_DIST2 as int
                    && clamp_spec(p.body.pose.tx - SPAWN_RANGE) <= e.body.pose.tx as int
                        <= clamp_spec(p.body.pose.tx + SPAWN_RANGE as int)
                    && clamp_spec(p.body.pose.ty - SPAWN_RANGE) <= e.body.pose.ty as int
                        <= clamp_spec(p.body.pose.ty + SPAWN_RANGE as int)
                },
                None => false,
            },
            None => r is None,
        },
{
    let p = match player {
        Some(p) => p,
        None => { return None; },
    };
    // Deterministic fallback: step a full spawn range toward the origin,
    // which clamping can never shorten.
    let fallback_ox: i64 = if p.body.pose.tx > 0 { -SPAWN_RANGE } else { SPAWN_RANGE };
    let mut cx: i64 = clamp_pos(p.body.pose.tx + fallback_ox);
    let mut cy: i64 = clamp_pos(p.body.pose.ty);
    let ptx = p.body.pose.tx;
    let pty = p.body.pose.ty;
    proof {
        assert((cx - ptx) * (cx - ptx) + (cy - pty) * (cy - pty) > MIN_SPAWN_DIST2 as int)
            by (nonlinear_arith)
            requires
                cx as int - ptx as int == fallback_ox as int,
                cy as int == pty as int,
                fallback_ox == 800i64 || fallback_ox == -800i64,
        {}
    }
    let mut found = false;
    let mut tries: u64 = 0;
    while tries < 16 && !found
        invariant
            p.wf(),
            ptx == p.body.pose.tx,
            pty == p.body.pose.ty,
            -POS_LIMIT <= cx <= POS_LIMIT,
            -POS_LIMIT <= cy <= POS_LIMIT,
            (cx - ptx) * (cx - ptx) + (cy - pty) * (cy - pty) > MIN_SPAWN_DIST2 as int,
            clamp_spec(ptx - SPAWN_RANGE) <= cx as int <= clamp_spec(ptx + SPAWN_RANGE as int),
            clamp_spec(pty - SPAWN_RANGE) <= cy as int <= clamp_spec(pty + SPAWN_RANGE as int),
        decreases 16 - tries,
    {
        tries = tries + 1;
        let (tx, ty) = spawn_candidate(&p.body.pose);
        let dx = tx - ptx;
        let dy = ty - pty;
        proof {
            crate::bounding::lemma_mul_range(
                dx as int, dx as int, 2 * POS_LIMIT as int, 2 * POS_LIMIT as int);
            crate::bounding::lemma_mul_range(
                dy as int, dy as int, 2 * POS_LIMIT as int, 2 * POS_LIMIT as int);
        }
        if dx * dx + dy * dy > MIN_SPAWN_DIST2 {
            cx = tx;
            cy = ty;
            found = true;
        }
    }
    let pose = Pose { tx: cx, ty: cy, rot: Rot::identity() };
    Some(EnemyEntity {
        enemy: Enemy { death_material },
        health: Health(1),
        death: None,
        body: Body::new(
            Shape::Triangle {
                p0: Point { x: 0, y: 20 },
                p1: Point { x: -20, y: -20 },
                p2: Point { x: 20, y: -20 },
            },
            pose,
        ),
        intersects: Intersects(false),
    })
}

/// How `move_enemies` changes one enemy: an enemy not in its death
/// sequence steps toward the player along the normalized difference of
/// their positions; a dying enemy stays put. Health, death state and
/// shape are untouched.
pub open spec fn enemy_moved(
    before: EnemyEntity,
    after: EnemyEntity,
    ptx: int,
    pty: int,
    dt_ms: int,
) -> bool {
    if before.scannable() {
        after.enemy == before.enemy
        && after.health == before.health
        && after.death == before.death
        && after.intersects == before.intersects
        && after.body.shape == before.body.shape
        && after.body.volume == before.body.volume
        && after.body.pose.rot == before.body.pose.rot
        && (exists|m: Point|
            #[trigger] normalized(ptx - before.body.pose.tx, pty - before.body.pose.ty, m)
            && after.body.pose.tx == clamp_spec(
                before.body.pose.tx
                + step_delta_spec(m.x as int, ENEMY_SPEED as int, dt_ms))
            && after.body.pose.ty == clamp_spec(
                before.body.pose.ty
                + step_delta_spec(m.y as int, ENEMY_SPEED as int, dt_ms)))
    } else {
        after == before
    }
}

/// Move every enemy that is not dying one tick toward the player. With
/// no player to pursue, nothing moves.
pub fn move_enemies(
    enemies: &mut Vec<EnemyEntity>,
    player: &Option<PlayerEntity>,
    dt_ms: u64,
)
    requires
        forall|i: int| 0 <= i < old(enemies)@.len() ==> (#[trigger] old(enemies)@[i]).wf(),
        match player {
            Some(p) => p.wf(),
            None => true,
        },
        dt_ms <= crate::motion::DT_LIMIT,
    ensures
        forall|i: int| 0 <= i < final(enemies)@.len() ==> (#[trigger] final(enemies)@[i]).wf(),
        match player {
            Some(p) => {
                final(enemies)@.len() == old(enemies)@.len()
                && forall|i: int| 0 <= i < old(enemies)@.len()
                    ==> enemy_moved(
                        old(enemies)@[i],
                        #[trigger] final(enemies)@[i],
                        p.body.pose.tx as int,
                        p.body.pose.ty as int,
                        dt_ms as int,
                    )
            },
            None => final(enemies)@ == old(enemies)@,
        },
{
    let p = match player {
        Some(p) => p,
        None => { return; },
    };
    let ptx = p.body.pose.tx;
    let pty = p.body.pose.ty;
    let n = enemies.len();
    let mut out: Vec<EnemyEntity> = Vec::new();
    let mut i: usize = 0;
    while i < n
        invariant
            n == enemies@.len(),
            forall|k: int| 0 <= k < n ==> (#[trigger] enemies@[k]).wf(),
            -POS_LIMIT <= ptx <= POS_LIMIT,
            -POS_LIMIT <= pty <= POS_LIMIT,
            dt_ms <= crate::motion::DT_LIMIT,
            0 <= i <= n,
            out@.len() == i,
            forall|k: int| 0 <= k < i
                ==> enemy_moved(
                    enemies@[k],
                    #[trigger] out@[k],
                    ptx as int,
                    pty as int,
                    dt_ms as int,
                ) && out@[k].wf(),
        decreases n - i,
    {
        let e = enemies[i];
        let moved = if e.death.is_none() {
            let m = normalize_or_zero(ptx - e.body.pose.tx, pty - e.body.pose.ty);
            let step_x = step_delta(m.x, ENEMY_SPEED, dt_ms);
            let step_y = step_delta(m.y, ENEMY_SPEED, dt_ms);
            let mut ne = e;
            ne.body.set_pose(Pose {
                tx: clamp_pos(e.body.pose.tx + step_x),
                ty: clamp_pos(e.body.pose.ty + step_y),
                rot: e.body.pose.rot,
            });
            ne
        } else {
            e
        };
        out.push(moved);
        i = i + 1;
    }
    *enemies = out;
}

/// The death-sequencing step for one enemy: an enemy whose health has
/// run out and which is not yet dying gets a death marker stamped with
/// the current time; every other enemy is untouched.
pub open spec fn death_step(e: EnemyEntity, now_ms: u64) -> EnemyEntity {
    if e.death is None && e.health.0 <= 0 {
        EnemyEntity { death: Some(Death(now_ms)), ..e }
    } else {
        e
    }
}

/// Start the death sequence of every enemy whose health has run out:
/// stamp it with the current time. An enemy already dying is left
/// alone, so the stamp is written at most once and damage can never
/// resurrect it.
pub fn play_death(enemies: &mut Vec<EnemyEntity>, now_ms: u64)
    ensures
        final(enemies)@.len() == old(enemies)@.len(),
        forall|i: int| 0 <= i < old(enemies)@.len()
            ==> #[trigger] final(enemies)@[i] == death_step(old(enemies)@[i], now_ms),
{
    let n = enemies.len();
    let mut out: Vec<EnemyEntity> = Vec::new();
    let mut i: usize = 0;
    while i < n
        invariant
            n == enemies@.len(),
            0 <= i <= n,
            out@.len() == i,
            forall|k: int| 0 <= k < i
                ==> #[trigger] out@[k] == death_step(enemies@[k], now_ms),
        decreases n - i,
    {
        let e = enemies[i];
        let stepped = if e.death.is_none() && e.health.0 <= 0 {
            EnemyEntity { death: Some(Death(now_ms)), ..e }
        } else {
            e
        };
        out.push(stepped);
        i = i + 1;
    }
    *enemies = out;
}

/// An enemy whose death sequence has run longer than the fixed death
/// duration by `now_ms`.
pub open spec fn death_expired(e: EnemyEntity, now_ms: int) -> bool {
    match e.death {
        Some(d) => now_ms - d.0 > DEATH_TIME_MS as int,
        None => false,
    }
}

/// Remove every enemy whose death sequence has exceeded the fixed death
/// duration, keeping all others in order. An enemy is never removed
/// before the duration has elapsed.
pub fn despawn_dead(enemies: &mut Vec<EnemyEntity>, now_ms: u64)
    requires
        forall|i: int| 0 <= i < old(enemies)@.len()
            ==> match (#[trigger] old(enemies)@[i]).death {
                Some(d) => d.0 <= now_ms,
                None => true,
            },
    ensures
        final(enemies)@ == old(enemies)@.filter(
            |e: EnemyEntity| !death_expired(e, now_ms as int)),
        forall|i: int| 0 <= i < final(enemies)@.len()
            ==> !death_expired(#[trigger] final(enemies)@[i], now_ms as int),
{
    let n = enemies.len();
    let mut out: Vec<EnemyEntity> = Vec::new();
    let mut i: usize = 0;
    proof {
        assert(enemies@.take(0int) =~= Seq::<EnemyEntity>::empty());
        reveal(Seq::filter);
    }
    while i < n
        invariant
            n == enemies@.len(),
            forall|k: int| 0 <= k < n
                ==> match (#[trigger] enemies@[k]).death {
                    Some(d) => d.0 <= now_ms,
                    None => true,
                },
            0 <= i <= n,
            out@ == enemies@.take(i as int).filter(
                |e: EnemyEntity| !death_expired(e, now_ms as int)),
        decreases n - i,
    {
        let e = enemies[i];
        proof {
            reveal(Seq::filter);
            assert(enemies@.take(i + 1int).drop_last() =~= enemies@.take(i as int));
            assert(enemies@.take(i + 1int).last() == enemies@[i as int]);
        }
        let keep = match e.death {
            Some(d) => now_ms - d.0 <= DEATH_TIME_MS,
            None => true,
        };
        if keep {
            out.push(e);
        }
        i = i + 1;
    }
    proof {
        assert(enemies@.take(n as int) =~= enemies@);
    }
    *enemies = out;
    proof {
        let fin = old(enemies)@.filter(|e: EnemyEntity| !death_expired(e, now_ms as int));
        assert forall|i: int| 0 <= i < fin.len()
            implies !death_expired(#[trigger] fin[i], now_ms as int) by {
            old(enemies)@.lemma_filter_pred(
                |e: EnemyEntity| !death_expired(e, now_ms as int), i);
        }
    }
}

/// Every element of `s` satisfies `p`, so filtering by `p` keeps `s`
/// whole.
proof fn lemma_filter_all<A>(s: Seq<A>, p: spec_fn(A) -> bool)
    requires
        forall|i: int| 0 <= i < s.len() ==> p(#[trigger] s[i]),
    ensures
        s.filter(p) == s,
    decreases s.len(),
{
    reveal(Seq::filter);
    if s.len() == 0 {
        assert(s =~= Seq::<A>::empty());
        assert(s.filter(p) =~= s);
    } else {
        lemma_filter_all(s.drop_last(), p);
        assert(p(s.last()));
        assert(s.filter(p) =~= s.drop_last().push(s.last()));
        assert(s =~= s.drop_last().push(s.last()));
    }
}

/// Every element of a filtered sequence comes from the original
/// sequence.
pub(crate) proof fn lemma_filter_index<A>(s: Seq<A>, p: spec_fn(A) -> bool, i: int)
    requires
        0 <= i < s.filter(p).len(),
    ensures
        exists|j: int| 0 <= j < s.len() && #[trigger] s[j] == s.filter(p)[i],
    decreases s.len(),
{
    reveal(Seq::filter);
    if s.len() == 0 {
        assert(s =~= Seq::<A>::empty());
    } else {
        let head = s.drop_last().filter(p);
        if i < head.len() {
            lemma_filter_index(s.drop_last(), p, i);
            let j = choose|j: int| 0 <= j < s.drop_last().len() && #[trigger] s.drop_last()[j] == head[i];
            assert(s[j] == s.filter(p)[i]);
        } else {
            assert(s[s.len() - 1] == s.filter(p)[i]);
        }
    }
}

/// Removal of expired enemies happens exactly once: running the removal
/// again at the same time changes nothing, because everything it would
/// remove is already gone.
pub proof fn lemma_despawn_dead_idempotent(enemies: Seq<EnemyEntity>, now_ms: int)
    ensures
        enemies.filter(|e: EnemyEntity| !death_expired(e, now_ms))
            .filter(|e: EnemyEntity| !death_expired(e, now_ms))
            == enemies.filter(|e: EnemyEntity| !death_expired(e, now_ms)),
{
    let p = |e: EnemyEntity| !death_expired(e, now_ms);
    let once = enemies.filter(p);
    assert forall|i: int| 0 <= i < once.len() implies p(#[trigger] once[i]) by {
        enemies.lemma_filter_pred(p, i);
    }
    lemma_filter_all(once, p);
}

/// An enemy not in its death sequence whose volume overlaps another
/// entity's volume.
pub open spec fn enemy_overlaps(e: EnemyEntity, vol: Volume) -> bool {
    e.scannable() && spec_intersects(e.body.volume, vol)
}

/// An enemy not in its death sequence that intersects a live bullet.
pub open spec fn pair_hits(e: EnemyEntity, b: BulletEntity) -> bool {
    e.scannable() && spec_intersects(e.body.volume, b.body.volume)
}

/// Some enemy/bullet pair collides.
pub open spec fn some_hit(enemies: Seq<EnemyEntity>, bullets: Seq<BulletEntity>) -> bool {
    exists|i: int, j: int|
        0 <= i < enemies.len() && 0 <= j < bullets.len()
        && #[trigger] pair_hits(enemies[i], bullets[j])
}

/// Enemy `i` collides with some bullet.
pub open spec fn enemy_has_hit(
    enemies: Seq<EnemyEntity>,
    bullets: Seq<BulletEntity>,
    i: int,
) -> bool {
    exists|j: int| 0 <= j < bullets.len() && #[trigger] pair_hits(enemies[i], bullets[j])
}

/// `(ei, bi)` is the pair the scan finds: the first enemy (in container
/// order) that collides with any bullet, paired with the first bullet
/// that collides with it.
pub open spec fn first_hit(
    enemies: Seq<EnemyEntity>,
    bullets: Seq<BulletEntity>,
    ei: int,
    bi: int,
) -> bool {
    0 <= ei < enemies.len() && 0 <= bi < bullets.len()
    && pair_hits(enemies[ei], bullets[bi])
    && (forall|i: int| 0 <= i < ei ==> !enemy_has_hit(enemies, bullets, i))
    && (forall|j: int| 0 <= j < bi ==> !pair_hits(enemies[ei], #[trigger] bullets[j]))
}

fn find_first_hit(enemies: &Vec<EnemyEntity>, bullets: &Vec<BulletEntity>)
    -> (r: Option<(usize, usize)>)
    ensures
        match r {
            Some(p) => first_hit(enemies@, bullets@, p.0 as int, p.1 as int),
            None => !some_hit(enemies@, bullets@),
        },
{
    let ne = enemies.len();
    let nb = bullets.len();
    let mut ei: usize = 0;
    while ei < ne
        invariant
            ne == enemies@.len(),
            nb == bullets@.len(),
            0 <= ei <= ne,
            forall|i: int| 0 <= i < ei ==> !enemy_has_hit(enemies@, bullets@, i),
        decreases ne - ei,
    {
        let e = enemies[ei];
        if e.death.is_none() {
            let mut bi: usize = 0;
            while bi < nb
                invariant
                    ne == enemies@.len(),
                    nb == bullets@.len(),
                    0 <= ei < ne,
                    e == enemies@[ei as int],
                    e.death is None,
                    forall|i: int| 0 <= i < ei ==> !enemy_has_hit(enemies@, bullets@, i),
                    0 <= bi <= nb,
                    forall|j: int| 0 <= j < bi
                        ==> !pair_hits(enemies@[ei as int], #[trigger] bullets@[j]),
                decreases nb - bi,
            {
                if e.body.volume.intersects(&bullets[bi].body.volume) {
                    return Some((ei, bi));
                }
                bi = bi + 1;
            }
        }
        proof {
            assert(!enemy_has_hit(enemies@, bullets@, ei as int));
        }
        ei = ei + 1;
    }
    proof {
        assert forall|i: int, j: int|
            0 <= i < enemies@.len() && 0 <= j < bullets@.len()
            implies !(#[trigger] pair_hits(enemies@[i], bullets@[j])) by {
            assert(!enemy_has_hit(enemies@, bullets@, i));
        }
    }
    None
}

/// An enemy after taking one point of bullet or contact damage.
pub open spec fn hit_enemy(e: EnemyEntity) -> EnemyEntity {
    EnemyEntity { health: Health((e.health.0 - 1) as i8), ..e }
}

/// Resolve bullet damage for one tick: scan enemies not in their death
/// sequence against live bullets; the first colliding pair costs that
/// enemy one health point, removes that bullet, and records one kill
/// event, and the scan stops — at most one enemy is damaged and one
/// bullet consumed per tick, and a dying enemy is never damaged.
pub fn enemy_bullet_collision(
    enemies: &mut Vec<EnemyEntity>,
    bullets: &mut Vec<BulletEntity>,
    killed_events: &mut Vec<EnemyKilledEvent>,
)
    requires
        forall|i: int| 0 <= i < old(enemies)@.len()
            ==> ((#[trigger] old(enemies)@[i]).scannable()
                ==> old(enemies)@[i].health.0 > i8::MIN),
    ensures
        !some_hit(old(enemies)@, old(bullets)@) ==> {
            final(enemies)@ == old(enemies)@
            && final(bullets)@ == old(bullets)@
            && final(killed_events)@ == old(killed_events)@
        },
        some_hit(old(enemies)@, old(bullets)@) ==> (exists|ei: int, bi: int|
            #[trigger] first_hit(old(enemies)@, old(bullets)@, ei, bi)
            && final(enemies)@ == old(enemies)@.update(ei, hit_enemy(old(enemies)@[ei]))
            && final(bullets)@ == old(bullets)@.remove(bi)
            && final(killed_events)@ == old(killed_events)@.push(EnemyKilledEvent)),
{
    match find_first_hit(enemies, bullets) {
        None => {},
        Some(found) => {
            let (ei, bi) = found;
            let e = enemies[ei];
            let mut hurt = e;
            hurt.health.hit(1);
            enemies.remove(ei);
            enemies.insert(ei, hurt);
            proof {
                assert(enemies@ =~= old(enemies)@.update(
                    ei as int, hit_enemy(old(enemies)@[ei as int])));
            }
            bullets.remove(bi);
            killed_events.push(EnemyKilledEvent);
        },
    }
}

/// The first enemy (in container order) not in its death sequence whose
/// volume overlaps the player's.
pub open spec fn first_player_hit(p: PlayerEntity, enemies: Seq<EnemyEntity>, ei: int) -> bool {
    0 <= ei < enemies.len()
    && enemy_overlaps(enemies[ei], p.body.volume)
    && (forall|i: int| 0 <= i < ei ==> !enemy_overlaps(#[trigger] enemies[i], p.body.volume))
}

/// A player after taking one point of contact damage.
pub open spec fn hit_player(p: PlayerEntity) -> PlayerEntity {
    PlayerEntity { health: Health((p.health.0 - 1) as i8), ..p }
}

/// Resolve player contact damage for one tick: scan enemies not in
/// their death sequence against the player's volume; the first
/// intersecting enemy costs the player and itself one health point each
/// and records one player-hit event, and the scan stops — only one
/// enemy may damage the player per tick. Without a player this is a
/// no-op.
pub fn enemy_player_collision(
    enemies: &mut Vec<EnemyEntity>,
    player: &mut Option<PlayerEntity>,
    hit_events: &mut Vec<PlayerHitEvent>,
)
    requires
        forall|i: int| 0 <= i < old(enemies)@.len()
            ==> ((#[trigger] old(enemies)@[i]).scannable()
                ==> old(enemies)@[i].health.0 > i8::MIN),
        match *old(player) {
            Some(p) => p.health.0 > i8::MIN,
            None => true,
        },
    ensures
        match *old(player) {
            None => {
                *final(player) == *old(player)
                && final(enemies)@ == old(enemies)@
                && final(hit_events)@ == old(hit_events)@
            },
            Some(p) => {
                if exists|i: int| 0 <= i < old(enemies)@.len()
                    && enemy_overlaps(#[trigger] old(enemies)@[i], p.body.volume) {
                    exists|ei: int|
                        #[trigger] first_player_hit(p, old(enemies)@, ei)
                        && final(enemies)@ == old(enemies)@.update(
                            ei, hit_enemy(old(enemies)@[ei]))
                        && *final(player) == Some(hit_player(p))
                        && final(hit_events)@ == old(hit_events)@.push(PlayerHitEvent)
                } else {
                    *final(player) == *old(player)
                    && final(enemies)@ == old(enemies)@
                    && final(hit_events)@ == old(hit_events)@
                }
            },
        },
{
    let p = match player {
        Some(p) => *p,
        None => { return; },
    };
    match find_overlapping_enemy(enemies, &p.body.volume) {
        None => {},
        Some(ei) => {
            let e = enemies[ei];
            let mut hurt = e;
            hurt.health.hit(1);
            enemies.remove(ei);
            enemies.insert(ei, hurt);
            proof {
                assert(enemies@ =~= old(enemies)@.update(
                    ei as int, hit_enemy(old(enemies)@[ei as int])));
            }
            match player {
                Some(pp) => {
                    pp.health.hit(1);
                },
                None => {},
            }
            hit_events.push(PlayerHitEvent);
            proof {
                assert(first_player_hit(p, old(enemies)@, ei as int));
                assert(*player == Some(hit_player(p)));
            }
        },
    }
}

fn find_overlapping_enemy(enemies: &Vec<EnemyEntity>, vol: &Volume) -> (r: Option<usize>)
    ensures
        match r {
            Some(ei) => {
                0 <= ei < enemies@.len()
                && enemy_overlaps(enemies@[ei as int], *vol)
                && forall|i: int| 0 <= i < ei
                    ==> !enemy_overlaps(#[trigger] enemies@[i], *vol)
            },
            None => forall|i: int| 0 <= i < enemies@.len()
                ==> !enemy_overlaps(#[trigger] enemies@[i], *vol),
        },
{
    let n = enemies.len();
    let mut ei: usize = 0;
    while ei < n
        invariant
            n == enemies@.len(),
            0 <= ei <= n,
            forall|i: int| 0 <= i < ei ==> !enemy_overlaps(#[trigger] enemies@[i], *vol),
        decreases n - ei,
    {
        let e = enemies[ei];
        if e.death.is_none() && vol.intersects(&e.body.volume) {
            return Some(ei);
        }
        ei = ei + 1;
    }
    None
}

} // verus!

