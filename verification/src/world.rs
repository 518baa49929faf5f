//! The world: every entity and counter of a session, and the tick
//! pipeline that drives them. Each tick refreshes bounding volumes
//! before collisions are resolved, resolves damage before death
//! sequencing, and sequences death before removal; the gameplay stages
//! run only while the phase is `InGame`.

use vstd::prelude::*;
use crate::AppState;
use crate::bounding::body_refreshed;
use crate::bullet::{
    bullet_expired, bullet_moved, bullet_shape, despawn_bullet, move_bullets, spawn_bullets,
    BulletEntity,
};
use crate::death::death_menu;
use crate::enemies::{
    death_expired, death_step, enemy_bullet_collision, enemy_moved, enemy_overlaps,
    enemy_player_collision, first_hit, first_player_hit, hit_enemy, hit_player,
    lemma_filter_index, move_enemies, play_death, some_hit, spawn_enemy, time_passed,
    despawn_dead, EnemyEntity, EnemyKilledEvent, Health, Timer, SPAWN_DELAY_MS,
};
use crate::game::{update_health_ui, update_score, HealthUi, Score};
use crate::menu::{menu, ButtonVisual, Interaction};
use crate::bounding::{Point, SCALE};
use crate::motion::{clamp_spec, normalized, step_delta_spec, DT_LIMIT};
use crate::player::{
    change_color, jump_player, key_dir, move_player, player_death, spawn_player,
    JumpCommands, PlayerColor, PlayerEntity, PlayerHitEvent, PlayerJumpEndEvent,
    PlayerJumpStartEvent, PlayerMoveEvent, PLAYER_LIFES, PLAYER_SPEED,
};

verus! {

/// Everything a session owns.
pub struct World {
    pub phase: AppState,
    pub player: Option<PlayerEntity>,
    pub enemies: Vec<EnemyEntity>,
    pub bullets: Vec<BulletEntity>,
    pub score: Score,
    pub health_ui: HealthUi,
    pub spawn_timer: Timer,
    pub player_color: PlayerColor,
}

/// What the collaborators report for one tick: the clock, the keyboard,
/// the phase button, and the animation player's state.
#[derive(Debug, Clone, Copy, PartialEq, Eq, Structural)]
pub struct TickInput {
    pub now_ms: u64,
    pub dt_ms: u64,
    pub up: bool,
    pub down: bool,
    pub left: bool,
    pub right: bool,
    pub space_just_pressed: bool,
    pub button: Interaction,
    pub jump_has_animation: bool,
    pub jump_is_playing: bool,
    pub jump_all_finished: bool,
    pub death_material: u64,
}

/// What one tick hands back to the collaborators: this tick's events
/// (dropped at tick end, never accumulated), animation commands, button
/// styling, and whether the session should terminate.
pub struct TickOutput {
    pub move_events: Vec<PlayerMoveEvent>,
    pub jump_start_events: Vec<PlayerJumpStartEvent>,
    pub jump_end_events: Vec<PlayerJumpEndEvent>,
    pub killed_events: Vec<EnemyKilledEvent>,
    pub hit_events: Vec<PlayerHitEvent>,
    pub jump_commands: JumpCommands,
    pub button_visual: ButtonVisual,
    pub exit_requested: bool,
    /// Ghost witness of the in-game pipeline's intermediate states; the
    /// tick's contract relates the final world to the starting one
    /// through it. Outside `InGame` it is unconstrained.
    pub trace: Ghost<PipelineTrace>,
}

/// Ghost witnesses of an in-game tick: the state after each pipeline
/// stage, and what spawned along the way.
pub ghost struct PipelineTrace {
    /// After spawning, enemy and player movement, and bullet flight.
    pub moved: WorldStage,
    /// After the bounding-volume refresh.
    pub fresh: WorldStage,
    /// After bullet damage was resolved.
    pub hit: WorldStage,
    /// After player contact damage was resolved.
    pub contact: WorldStage,
    /// The enemies this tick spawned (at most one).
    pub spawned_enemies: Seq<EnemyEntity>,
    /// The bullets this tick fired (at most one).
    pub spawned_bullets: Seq<BulletEntity>,
}

/// A snapshot of the gameplay state between two pipeline stages.
pub ghost struct WorldStage {
    pub player: Option<PlayerEntity>,
    pub enemies: Seq<EnemyEntity>,
    pub bullets: Seq<BulletEntity>,
    pub spawn_timer: Timer,
}

/// How the player moves for one tick's keys: health and shape are kept,
/// the pose steps by the normalized key direction, the jump flag
/// follows the animation collaborator's report, and a move event
/// carrying the raw direction is emitted exactly when the normalized
/// step is non-zero.
pub open spec fn moved_by_keys(
    p0: PlayerEntity,
    p1: PlayerEntity,
    input: TickInput,
    moves: Seq<PlayerMoveEvent>,
) -> bool {
    let kx = key_dir(input.left, input.right) * SCALE;
    let ky = key_dir(input.down, input.up) * SCALE;
    &&& p1.health == p0.health
    &&& p1.body.shape == p0.body.shape
    &&& p1.body.pose.rot == p0.body.pose.rot
    &&& (exists|m: Point|
            #[trigger] normalized(kx, ky, m)
            && p1.body.pose.tx == clamp_spec(
                p0.body.pose.tx + step_delta_spec(m.x as int, PLAYER_SPEED as int, input.dt_ms as int))
            && p1.body.pose.ty == clamp_spec(
                p0.body.pose.ty + step_delta_spec(m.y as int, PLAYER_SPEED as int, input.dt_ms as int))
            && moves == (if m.x == 0 && m.y == 0 {
                Seq::<PlayerMoveEvent>::empty()
            } else {
                seq![PlayerMoveEvent(Point { x: kx as i64, y: ky as i64 })]
            }))
    &&& p1.player.is_jumping == (if input.jump_has_animation {
            if input.jump_is_playing && input.jump_all_finished {
                false
            } else if input.space_just_pressed {
                true
            } else {
                p0.player.is_jumping
            }
        } else {
            p0.player.is_jumping
        })
}

/// The pipeline's first stage: the spawn timer advances by the tick
/// length (saturating), at most one enemy spawns at the back of the
/// registry — never before the delay has accumulated, never without a
/// player — and every enemy not in its death sequence then steps toward
/// the player, who moves by the keys.
pub open spec fn stage_spawn_and_move(
    w0: World,
    s: WorldStage,
    input: TickInput,
    spawned: Seq<EnemyEntity>,
    moves: Seq<PlayerMoveEvent>,
) -> bool {
    &&& s.spawn_timer.acc == (if w0.spawn_timer.acc + input.dt_ms <= u64::MAX {
            w0.spawn_timer.acc + input.dt_ms
        } else {
            u64::MAX as int
        })
    &&& spawned.len() <= 1
    &&& (s.spawn_timer.acc < SPAWN_DELAY_MS || w0.player is None) ==> spawned.len() == 0
    &&& forall|i: int| 0 <= i < spawned.len()
            ==> (#[trigger] spawned[i]).wf() && spawned[i].health == Health(1)
                && spawned[i].death is None
    &&& s.enemies.len() == w0.enemies@.len() + spawned.len()
    &&& match (w0.player, s.player) {
            (Some(p0), Some(p1)) => {
                &&& forall|i: int| 0 <= i < s.enemies.len()
                        ==> enemy_moved(
                            (w0.enemies@ + spawned)[i],
                            #[trigger] s.enemies[i],
                            p0.body.pose.tx as int,
                            p0.body.pose.ty as int,
                            input.dt_ms as int,
                        )
                &&& moved_by_keys(p0, p1, input, moves)
            },
            (None, None) => s.enemies == w0.enemies@ + spawned && moves.len() == 0,
            _ => false,
        }
}

/// The pipeline's first stage, bullet half: one bullet spawns exactly
/// when the player exists and moved, stamped with this tick's time and
/// placed at the moved player's position, and every bullet then flies
/// one step along its direction.
pub open spec fn stage_bullets_fly(
    w0: World,
    s: WorldStage,
    input: TickInput,
    newb: Seq<BulletEntity>,
    moves: Seq<PlayerMoveEvent>,
) -> bool {
    &&& newb.len() <= 1
    &&& (newb.len() == 1 <==> (s.player is Some && moves.len() > 0))
    &&& forall|i: int| 0 <= i < newb.len() ==> {
            let b = #[trigger] newb[i];
            &&& b.wf()
            &&& b.bullet.spawn_time == input.now_ms
            &&& b.body.shape == bullet_shape()
            &&& match s.player {
                    Some(p) => b.body.pose.tx == p.body.pose.tx
                        && b.body.pose.ty == p.body.pose.ty,
                    None => false,
                }
        }
    &&& s.bullets.len() == w0.bullets@.len() + newb.len()
    &&& forall|i: int| 0 <= i < s.bullets.len()
            ==> bullet_moved((w0.bullets@ + newb)[i], #[trigger] s.bullets[i], input.dt_ms as int)
}

/// The pipeline's second stage: every entity's bounding volume is
/// refreshed, and nothing else changes.
pub open spec fn stage_refreshed(s1: WorldStage, s2: WorldStage) -> bool {
    &&& s2.spawn_timer == s1.spawn_timer
    &&& match (s1.player, s2.player) {
            (Some(a), Some(b)) => player_refreshed_only(a, b),
            (None, None) => true,
            _ => false,
        }
    &&& s2.enemies.len() == s1.enemies.len()
    &&& forall|i: int| 0 <= i < s1.enemies.len()
            ==> enemy_refreshed_only(s1.enemies[i], #[trigger] s2.enemies[i])
    &&& s2.bullets.len() == s1.bullets.len()
    &&& forall|i: int| 0 <= i < s1.bullets.len()
            ==> bullet_refreshed_only(s1.bullets[i], #[trigger] s2.bullets[i])
}

/// The pipeline's third stage: bullet damage, exactly as
/// `enemy_bullet_collision` resolves it on the refreshed volumes — the
/// first colliding pair costs the enemy one health point, consumes the
/// bullet and records one kill; with no colliding pair, nothing moves.
pub open spec fn stage_bullet_damage(
    s2: WorldStage,
    s3: WorldStage,
    killed: Seq<EnemyKilledEvent>,
) -> bool {
    &&& s3.player == s2.player
    &&& s3.spawn_timer == s2.spawn_timer
    &&& if some_hit(s2.enemies, s2.bullets) {
            exists|ei: int, bi: int|
                #[trigger] first_hit(s2.enemies, s2.bullets, ei, bi)
                && s3.enemies == s2.enemies.update(ei, hit_enemy(s2.enemies[ei]))
                && s3.bullets == s2.bullets.remove(bi)
                && killed == seq![EnemyKilledEvent]
        } else {
            s3.enemies == s2.enemies && s3.bullets == s2.bullets && killed.len() == 0
        }
}

/// The pipeline's fourth stage: player contact damage, exactly as
/// `enemy_player_collision` resolves it — the first enemy overlapping
/// the player costs both one health point and records one hit.
pub open spec fn stage_contact_damage(
    s3: WorldStage,
    s4: WorldStage,
    hits: Seq<PlayerHitEvent>,
) -> bool {
    &&& s4.bullets == s3.bullets
    &&& s4.spawn_timer == s3.spawn_timer
    &&& match s3.player {
            None => s4.player is None && s4.enemies == s3.enemies && hits.len() == 0,
            Some(p) => {
                if exists|i: int| 0 <= i < s3.enemies.len()
                    && enemy_overlaps(#[trigger] s3.enemies[i], p.body.volume) {
                    exists|ei: int|
                        #[trigger] first_player_hit(p, s3.enemies, ei)
                        && s4.enemies == s3.enemies.update(ei, hit_enemy(s3.enemies[ei]))
                        && s4.player == Some(hit_player(p))
                        && hits == seq![PlayerHitEvent]
                } else {
                    s4.player == Some(p) && s4.enemies == s3.enemies && hits.len() == 0
                }
            },
        }
}

/// The pipeline's last stage: death sequencing and removal — every
/// exhausted enemy not yet dying is stamped with the current time,
/// enemies dying longer than the fixed duration are removed, and
/// bullets older than their lifetime expire.
pub open spec fn stage_sequenced(s4: WorldStage, w1: World, now_ms: u64) -> bool {
    &&& w1.player == s4.player
    &&& w1.spawn_timer == s4.spawn_timer
    &&& w1.enemies@ == Seq::new(s4.enemies.len(), |i: int| death_step(s4.enemies[i], now_ms))
            .filter(|e: EnemyEntity| !death_expired(e, now_ms as int))
    &&& w1.bullets@ == s4.bullets.filter(|b: BulletEntity| !bullet_expired(b, now_ms as int))
}

impl World {
    /// The world's standing invariant: bodies are well-formed, an enemy
    /// outside its death sequence has positive health, and the player,
    /// while the session has not ended, has at least one life (the tick
    /// ends the session in the same tick that exhausts the player).
    pub open spec fn wf(self) -> bool {
        (match self.player {
            Some(p) => p.wf()
                && p.health.0 >= -1
                && (self.phase != AppState::EndGame ==> p.health.0 >= 1),
            None => true,
        })
        && (forall|i: int| 0 <= i < self.enemies@.len()
            ==> (#[trigger] self.enemies@[i]).wf()
                && (self.enemies@[i].scannable() ==> self.enemies@[i].health.0 >= 1))
        && (forall|i: int| 0 <= i < self.bullets@.len() ==> (#[trigger] self.bullets@[i]).wf())
    }

    /// Every timestamp in the world lies in the past of `now_ms`.
    pub open spec fn time_coherent(self, now_ms: u64) -> bool {
        (forall|i: int| 0 <= i < self.enemies@.len()
            ==> match (#[trigger] self.enemies@[i]).death {
                Some(d) => d.0 <= now_ms,
                None => true,
            })
        && (forall|i: int| 0 <= i < self.bullets@.len()
            ==> (#[trigger] self.bullets@[i]).bullet.spawn_time <= now_ms)
    }

    /// A fresh session: the menu phase, a full-health player at the
    /// origin, and nothing else.
    pub fn new() -> (w: World)
        ensures
            w.wf(),
            w.time_coherent(0),
            w.phase == AppState::Menu,
            match w.player {
                Some(p) => p.health == crate::enemies::Health(PLAYER_LIFES)
                    && !p.player.is_jumping
                    && p.body.pose.tx == 0 && p.body.pose.ty == 0,
                None => false,
            },
            w.enemies@.len() == 0,
            w.bullets@.len() == 0,
            w.score == Score(0),
            w.health_ui == HealthUi(PLAYER_LIFES),
            w.spawn_timer == (Timer { acc: 0 }),
            w.player_color == PlayerColor::Purple,
    {
        let player = spawn_player();
        World {
            phase: AppState::Menu,
            player: Some(player),
            enemies: Vec::new(),
            bullets: Vec::new(),
            score: Score(0),
            health_ui: HealthUi(PLAYER_LIFES),
            spawn_timer: Timer { acc: 0 },
            player_color: PlayerColor::Purple,
        }
    }
}

/// One enemy changed only by a bounding-volume refresh.
pub open spec fn enemy_refreshed_only(b: EnemyEntity, a: EnemyEntity) -> bool {
    a.enemy == b.enemy && a.health == b.health && a.death == b.death
    && a.intersects == b.intersects && body_refreshed(b.body, a.body)
}

/// One bullet changed only by a bounding-volume refresh.
pub open spec fn bullet_refreshed_only(b: BulletEntity, a: BulletEntity) -> bool {
    a.bullet == b.bullet && a.intersects == b.intersects && body_refreshed(b.body, a.body)
}

/// The player changed only by a bounding-volume refresh.
pub open spec fn player_refreshed_only(b: PlayerEntity, a: PlayerEntity) -> bool {
    a.player == b.player && a.health == b.health && body_refreshed(b.body, a.body)
}

/// Refresh the bounding volume of every entity whose shape or pose
/// changed since the last computation; the volumes of unchanged
/// entities are reused bit for bit. Nothing else about any entity
/// changes.
fn refresh_enemy_volumes(enemies: &mut Vec<EnemyEntity>)
    requires
        forall|i: int| 0 <= i < old(enemies)@.len() ==> (#[trigger] old(enemies)@[i]).wf(),
    ensures
        final(enemies)@.len() == old(enemies)@.len(),
        forall|i: int| 0 <= i < old(enemies)@.len() ==> {
            let b = old(enemies)@[i];
            let a = #[trigger] final(enemies)@[i];
            a.enemy == b.enemy && a.health == b.health && a.death == b.death
                && a.intersects == b.intersects && body_refreshed(b.body, a.body)
                && a.wf()
        },
{
    let n = enemies.len();
    let mut out: Vec<EnemyEntity> = Vec::new();
    let mut i: usize = 0;
    while i < n
        invariant
            n == enemies@.len(),
            forall|k: int| 0 <= k < n ==> (#[trigger] enemies@[k]).wf(),
            0 <= i <= n,
            out@.len() == i,
            forall|k: int| 0 <= k < i ==> {
                let b = enemies@[k];
                let a = #[trigger] out@[k];
                a.enemy == b.enemy && a.health == b.health && a.death == b.death
                    && a.intersects == b.intersects && body_refreshed(b.body, a.body)
                    && a.wf()
            },
        decreases n - i,
    {
        let mut e = enemies[i];
        e.body.refresh();
        out.push(e);
        i = i + 1;
    }
    *enemies = out;
}

fn refresh_bullet_volumes(bullets: &mut Vec<BulletEntity>)
    requires
        forall|i: int| 0 <= i < old(bullets)@.len() ==> (#[trigger] old(bullets)@[i]).wf(),
    ensures
        final(bullets)@.len() == old(bullets)@.len(),
        forall|i: int| 0 <= i < old(bullets)@.len() ==> {
            let b = old(bullets)@[i];
            let a = #[trigger] final(bullets)@[i];
            a.bullet == b.bullet && a.intersects == b.intersects
                && body_refreshed(b.body, a.body) && a.wf()
        },
{
    let n = bullets.len();
    let mut out: Vec<BulletEntity> = Vec::new();
    let mut i: usize = 0;
    while i < n
        invariant
            n == bullets@.len(),
            forall|k: int| 0 <= k < n ==> (#[trigger] bullets@[k]).wf(),
            0 <= i <= n,
            out@.len() == i,
            forall|k: int| 0 <= k < i ==> {
                let b = bullets@[k];
                let a = #[trigger] out@[k];
                a.bullet == b.bullet && a.intersects == b.intersects
                    && body_refreshed(b.body, a.body) && a.wf()
            },
        decreases n - i,
    {
        let mut b = bullets[i];
        b.body.refresh();
        out.push(b);
        i = i + 1;
    }
    *bullets = out;
}

/// Refresh the bounding volume of every entity whose shape or pose
/// changed since the last computation; the volumes of unchanged
/// entities are reused bit for bit. Nothing else about any entity
/// changes.
pub fn update_volumes(w: &mut World)
    requires
        old(w).wf(),
    ensures
        final(w).wf(),
        final(w).phase == old(w).phase,
        final(w).score == old(w).score,
        final(w).health_ui == old(w).health_ui,
        final(w).spawn_timer == old(w).spawn_timer,
        final(w).player_color == old(w).player_color,
        match old(w).player {
            Some(p) => match final(w).player {
                Some(q) => player_refreshed_only(p, q),
                None => false,
            },
            None => final(w).player is None,
        },
        final(w).enemies@.len() == old(w).enemies@.len(),
        forall|i: int| 0 <= i < old(w).enemies@.len()
            ==> enemy_refreshed_only(old(w).enemies@[i], #[trigger] final(w).enemies@[i]),
        final(w).bullets@.len() == old(w).bullets@.len(),
        forall|i: int| 0 <= i < old(w).bullets@.len()
            ==> bullet_refreshed_only(old(w).bullets@[i], #[trigger] final(w).bullets@[i]),
{
    match &mut w.player {
        Some(p) => {
            p.body.refresh();
        },
        None => {},
    }
    refresh_enemy_volumes(&mut w.enemies);
    refresh_bullet_volumes(&mut w.bullets);
}

/// Run one tick of the session.
///
/// The button drives the phase machine: in the menu a press starts the
/// game; on the end screen a press requests termination. While the
/// phase at the start of the tick is `InGame`, the pipeline runs in its
/// causal order — spawning and movement, then volume refresh, then
/// collision resolution, then death sequencing, then removal — and the
/// counters absorb this tick's events; the contract relates the final
/// world to the starting one stage by stage, through the ghost
/// witnesses in the output. In any other phase the whole pipeline is
/// inactive and the gameplay state is untouched.
#[verifier::rlimit(100)]
pub fn tick(w: &mut World, input: TickInput) -> (out: TickOutput)
    requires
        old(w).wf(),
        old(w).time_coherent(input.now_ms),
        input.dt_ms <= DT_LIMIT,
    ensures
        final(w).wf(),
        final(w).time_coherent(input.now_ms),
        old(w).phase != AppState::InGame ==> {
            &&& final(w).player == old(w).player
            &&& final(w).enemies@ == old(w).enemies@
            &&& final(w).bullets@ == old(w).bullets@
            &&& final(w).score == old(w).score
            &&& final(w).health_ui == old(w).health_ui
            &&& final(w).spawn_timer == old(w).spawn_timer
            &&& final(w).player_color == old(w).player_color
            &&& out.killed_events@.len() == 0
            &&& out.hit_events@.len() == 0
            &&& out.move_events@.len() == 0
        },
        old(w).phase == AppState::Menu ==> final(w).phase == (
            if input.button == Interaction::Pressed { AppState::InGame }
            else { AppState::Menu }),
        old(w).phase == AppState::EndGame ==> final(w).phase == AppState::EndGame,
        out.exit_requested == (old(w).phase == AppState::EndGame
            && input.button == Interaction::Pressed),
        old(w).phase == AppState::InGame ==> {
            &&& (final(w).player is Some <==> old(w).player is Some)
            &&& match final(w).player {
                    Some(q) => final(w).phase == (
                        if q.health.0 <= 0 { AppState::EndGame } else { AppState::InGame }),
                    None => final(w).phase == AppState::InGame,
                }
            &&& stage_spawn_and_move(
                    *old(w), out.trace@.moved, input, out.trace@.spawned_enemies,
                    out.move_events@)
            &&& stage_bullets_fly(
                    *old(w), out.trace@.moved, input, out.trace@.spawned_bullets,
                    out.move_events@)
            &&& stage_refreshed(out.trace@.moved, out.trace@.fresh)
            &&& stage_bullet_damage(out.trace@.fresh, out.trace@.hit, out.killed_events@)
            &&& stage_contact_damage(out.trace@.hit, out.trace@.contact, out.hit_events@)
            &&& stage_sequenced(out.trace@.contact, *final(w), input.now_ms)
            &&& out.killed_events@.len() <= 1
            &&& out.hit_events@.len() <= 1
            &&& final(w).score.0 == (if old(w).score.0 < i32::MAX {
                    old(w).score.0 + out.killed_events@.len()
                } else {
                    old(w).score.0 as int
                })
            &&& final(w).health_ui.0 == (if old(w).health_ui.0 > i8::MIN {
                    old(w).health_ui.0 - out.hit_events@.len()
                } else {
                    old(w).health_ui.0 as int
                })
            &&& final(w).player_color == (if out.jump_end_events@.len() > 0 {
                    PlayerColor::Purple
                } else if out.jump_start_events@.len() > 0 {
                    PlayerColor::Yellow
                } else {
                    old(w).player_color
                })
            &&& forall|i: int| 0 <= i < final(w).enemies@.len()
                    ==> !death_expired(#[trigger] final(w).enemies@[i], input.now_ms as int)
            &&& forall|i: int| 0 <= i < final(w).bullets@.len()
                    ==> !bullet_expired(#[trigger] final(w).bullets@[i], input.now_ms as int)
        },
{
    let mut move_events: Vec<PlayerMoveEvent> = Vec::new();
    let mut jump_start_events: Vec<PlayerJumpStartEvent> = Vec::new();
    let mut jump_end_events: Vec<PlayerJumpEndEvent> = Vec::new();
    let mut killed_events: Vec<EnemyKilledEvent> = Vec::new();
    let mut hit_events: Vec<PlayerHitEvent> = Vec::new();
    let mut jump_commands = JumpCommands { play: false, stop: false };
    let mut exit_requested = false;
    let ghost mut trace_g: PipelineTrace = PipelineTrace {
        moved: snapshot(*w),
        fresh: snapshot(*w),
        hit: snapshot(*w),
        contact: snapshot(*w),
        spawned_enemies: Seq::empty(),
        spawned_bullets: Seq::empty(),
    };
    let in_game = match w.phase {
        AppState::InGame => true,
        _ => false,
    };

    // Phase button handling for the phase the tick started in.
    let button_visual = match w.phase {
        AppState::Menu => menu(&mut w.phase, input.button),
        AppState::EndGame => {
            let (v, ex) = death_menu(input.button);
            exit_requested = ex;
            v
        },
        AppState::InGame => ButtonVisual::Normal,
    };

    if in_game {
        let (jc, trace) = run_in_game(
            w,
            input,
            &mut move_events,
            &mut jump_start_events,
            &mut jump_end_events,
            &mut killed_events,
            &mut hit_events,
        );
        jump_commands = jc;
        proof {
            trace_g = trace@;
        }
    }

    TickOutput {
        move_events,
        jump_start_events,
        jump_end_events,
        killed_events,
        hit_events,
        jump_commands,
        button_visual,
        exit_requested,
        trace: Ghost(trace_g),
    }
}

/// One in-game tick of the gameplay pipeline, in its causal order:
/// spawning and movement, volume refresh, collision resolution, death
/// sequencing, removal, and the counters. The returned ghost trace
/// witnesses the state after each stage.
fn run_in_game(
    w: &mut World,
    input: TickInput,
    move_events: &mut Vec<PlayerMoveEvent>,
    jump_start_events: &mut Vec<PlayerJumpStartEvent>,
    jump_end_events: &mut Vec<PlayerJumpEndEvent>,
    killed_events: &mut Vec<EnemyKilledEvent>,
    hit_events: &mut Vec<PlayerHitEvent>,
) -> (r: (JumpCommands, Ghost<PipelineTrace>))
    requires
        old(w).wf(),
        old(w).phase == AppState::InGame,
        old(w).time_coherent(input.now_ms),
        input.dt_ms <= DT_LIMIT,
        old(move_events)@.len() == 0,
        old(jump_start_events)@.len() == 0,
        old(jump_end_events)@.len() == 0,
        old(killed_events)@.len() == 0,
        old(hit_events)@.len() == 0,
    ensures
        final(w).wf(),
        final(w).time_coherent(input.now_ms),
        (final(w).player is Some <==> old(w).player is Some),
        match final(w).player {
            Some(q) => final(w).phase == (
                if q.health.0 <= 0 { AppState::EndGame } else { AppState::InGame }),
            None => final(w).phase == AppState::InGame,
        },
        stage_spawn_and_move(
            *old(w), r.1@.moved, input, r.1@.spawned_enemies, final(move_events)@),
        stage_bullets_fly(
            *old(w), r.1@.moved, input, r.1@.spawned_bullets, final(move_events)@),
        stage_refreshed(r.1@.moved, r.1@.fresh),
        stage_bullet_damage(r.1@.fresh, r.1@.hit, final(killed_events)@),
        stage_contact_damage(r.1@.hit, r.1@.contact, final(hit_events)@),
        stage_sequenced(r.1@.contact, *final(w), input.now_ms),
        final(killed_events)@.len() <= 1,
        final(hit_events)@.len() <= 1,
        final(w).score.0 == (if old(w).score.0 < i32::MAX {
            old(w).score.0 + final(killed_events)@.len()
        } else {
            old(w).score.0 as int
        }),
        final(w).health_ui.0 == (if old(w).health_ui.0 > i8::MIN {
            old(w).health_ui.0 - final(hit_events)@.len()
        } else {
            old(w).health_ui.0 as int
        }),
        final(w).player_color == (if final(jump_end_events)@.len() > 0 {
            PlayerColor::Purple
        } else if final(jump_start_events)@.len() > 0 {
            PlayerColor::Yellow
        } else {
            old(w).player_color
        }),
        forall|i: int| 0 <= i < final(w).enemies@.len()
            ==> !death_expired(#[trigger] final(w).enemies@[i], input.now_ms as int),
        forall|i: int| 0 <= i < final(w).bullets@.len()
            ==> !bullet_expired(#[trigger] final(w).bullets@[i], input.now_ms as int),
{
    let (jump_commands, spawned) = pipeline_move(
        w, input, move_events, jump_start_events, jump_end_events);
    let ghost stage_moved_g = snapshot(*w);
    let fresh_and_hit = pipeline_damage(w, input, killed_events, hit_events);
    let ghost stage_contact_g = snapshot(*w);
    pipeline_sequence(w, input, killed_events, hit_events);
    (
        jump_commands,
        Ghost(PipelineTrace {
            moved: stage_moved_g,
            fresh: fresh_and_hit@.0,
            hit: fresh_and_hit@.1,
            contact: stage_contact_g,
            spawned_enemies: spawned@.0,
            spawned_bullets: spawned@.1,
        }),
    )
}

/// The pipeline's movement half: the spawn timer ticks and may spawn an
/// enemy, enemies pursue the player, the player moves and jumps by the
/// keys, and bullets spawn from the move event and fly. The ghost
/// result carries what spawned.
#[verifier::rlimit(100)]
fn pipeline_move(
    w: &mut World,
    input: TickInput,
    move_events: &mut Vec<PlayerMoveEvent>,
    jump_start_events: &mut Vec<PlayerJumpStartEvent>,
    jump_end_events: &mut Vec<PlayerJumpEndEvent>,
) -> (r: (JumpCommands, Ghost<(Seq<EnemyEntity>, Seq<BulletEntity>)>))
    requires
        old(w).wf(),
        old(w).phase == AppState::InGame,
        old(w).time_coherent(input.now_ms),
        input.dt_ms <= DT_LIMIT,
        old(move_events)@.len() == 0,
        old(jump_start_events)@.len() == 0,
        old(jump_end_events)@.len() == 0,
    ensures
        final(w).wf(),
        final(w).time_coherent(input.now_ms),
        final(w).phase == old(w).phase,
        final(w).score == old(w).score,
        final(w).health_ui == old(w).health_ui,
        stage_spawn_and_move(
            *old(w), snapshot(*final(w)), input, r.1@.0, final(move_events)@),
        stage_bullets_fly(
            *old(w), snapshot(*final(w)), input, r.1@.1, final(move_events)@),
        final(w).player_color == (if final(jump_end_events)@.len() > 0 {
            PlayerColor::Purple
        } else if final(jump_start_events)@.len() > 0 {
            PlayerColor::Yellow
        } else {
            old(w).player_color
        }),
{
    let ghost mut spawned_enemies_g: Seq<EnemyEntity> = Seq::empty();
    let ghost mut spawned_bullets_g: Seq<BulletEntity> = Seq::empty();

    // Spawning and movement.
    if time_passed(&mut w.spawn_timer, SPAWN_DELAY_MS, input.dt_ms) {
        match spawn_enemy(&w.player, input.death_material) {
            Some(e) => {
                w.enemies.push(e);
                proof {
                    spawned_enemies_g = seq![e];
                }
            },
            None => {},
        }
    }
    proof {
        assert(w.enemies@ =~= old(w).enemies@ + spawned_enemies_g);
    }
    move_enemies(&mut w.enemies, &w.player, input.dt_ms);
    let mut jump_commands = JumpCommands { play: false, stop: false };
    match &mut w.player {
        Some(p) => {
            move_player(
                p, input.up, input.down, input.left, input.right, input.dt_ms,
                move_events,
            );
            jump_commands = jump_player(
                &mut p.player,
                input.jump_has_animation,
                input.space_just_pressed,
                input.jump_is_playing,
                input.jump_all_finished,
                jump_start_events,
                jump_end_events,
            );
        },
        None => {},
    }
    w.player_color = change_color(w.player_color, jump_start_events, jump_end_events);
    proof {
        if move_events@.len() == 0 {
            assert(move_events@ =~= Seq::<PlayerMoveEvent>::empty());
        } else {
            assert(move_events@ =~= seq![move_events@[0]]);
        }
    }

    // Bullets spawn from this tick's move event and fly.
    match spawn_bullets(&w.player, move_events, input.now_ms) {
        Some(b) => {
            w.bullets.push(b);
            proof {
                spawned_bullets_g = seq![b];
            }
        },
        None => {},
    }
    proof {
        assert(w.bullets@ =~= old(w).bullets@ + spawned_bullets_g);
    }
    move_bullets(&mut w.bullets, input.dt_ms);
    proof {
        assert(stage_spawn_and_move(
            *old(w), snapshot(*w), input, spawned_enemies_g, move_events@));
        assert(stage_bullets_fly(
            *old(w), snapshot(*w), input, spawned_bullets_g, move_events@));
        assert(forall|i: int| 0 <= i < w.enemies@.len()
            ==> (#[trigger] w.enemies@[i]).wf()
                && (w.enemies@[i].scannable() ==> w.enemies@[i].health.0 >= 1)
                && (match w.enemies@[i].death {
                    Some(d) => d.0 <= input.now_ms,
                    None => true,
                }));
        assert(forall|i: int| 0 <= i < w.bullets@.len()
            ==> (#[trigger] w.bullets@[i]).wf()
                && w.bullets@[i].bullet.spawn_time <= input.now_ms);
    }
    (jump_commands, Ghost((spawned_enemies_g, spawned_bullets_g)))
}

/// The pipeline's collision half: the bounding-volume refresh, then
/// bullet damage, then player contact damage. The ghost result carries
/// the refreshed and the bullet-resolved states.
#[verifier::rlimit(100)]
fn pipeline_damage(
    w: &mut World,
    input: TickInput,
    killed_events: &mut Vec<EnemyKilledEvent>,
    hit_events: &mut Vec<PlayerHitEvent>,
) -> (r: Ghost<(WorldStage, WorldStage)>)
    requires
        old(w).wf(),
        old(w).phase == AppState::InGame,
        old(w).time_coherent(input.now_ms),
        old(killed_events)@.len() == 0,
        old(hit_events)@.len() == 0,
    ensures
        stage_refreshed(snapshot(*old(w)), r@.0),
        stage_bullet_damage(r@.0, r@.1, final(killed_events)@),
        stage_contact_damage(r@.1, snapshot(*final(w)), final(hit_events)@),
        final(killed_events)@.len() <= 1,
        final(hit_events)@.len() <= 1,
        final(w).phase == old(w).phase,
        final(w).score == old(w).score,
        final(w).health_ui == old(w).health_ui,
        final(w).player_color == old(w).player_color,
        match final(w).player {
            Some(p) => old(w).player is Some && p.wf() && p.health.0 >= 0,
            None => old(w).player is None,
        },
        forall|i: int| 0 <= i < final(w).enemies@.len()
            ==> (#[trigger] final(w).enemies@[i]).wf()
                && (final(w).enemies@[i].scannable() ==> final(w).enemies@[i].health.0 >= -1)
                && (match final(w).enemies@[i].death {
                    Some(d) => d.0 <= input.now_ms,
                    None => true,
                }),
        forall|i: int| 0 <= i < final(w).bullets@.len()
            ==> (#[trigger] final(w).bullets@[i]).wf()
                && final(w).bullets@[i].bullet.spawn_time <= input.now_ms,
{
    // Volumes must be fresh before any collision is resolved.
    update_volumes(w);
    let ghost stage_fresh_g = snapshot(*w);
    proof {
        assert(stage_refreshed(snapshot(*old(w)), stage_fresh_g));
        assert(forall|i: int| 0 <= i < w.enemies@.len()
            ==> (#[trigger] w.enemies@[i]).wf()
                && (w.enemies@[i].scannable() ==> w.enemies@[i].health.0 >= 1)
                && (match w.enemies@[i].death {
                    Some(d) => d.0 <= input.now_ms,
                    None => true,
                }));
        assert(forall|i: int| 0 <= i < w.bullets@.len()
            ==> (#[trigger] w.bullets@[i]).wf()
                && w.bullets@[i].bullet.spawn_time <= input.now_ms);
    }

    // Damage: bullets against enemies, then enemies against the player.
    enemy_bullet_collision(&mut w.enemies, &mut w.bullets, killed_events);
    let ghost stage_hit_g = snapshot(*w);
    proof {
        if killed_events@.len() > 0 {
            assert(killed_events@ =~= seq![EnemyKilledEvent]);
        }
        assert(stage_bullet_damage(stage_fresh_g, stage_hit_g, killed_events@));
        assert(forall|i: int| 0 <= i < w.enemies@.len()
            ==> (#[trigger] w.enemies@[i]).wf()
                && (w.enemies@[i].scannable() ==> w.enemies@[i].health.0 >= 0)
                && (match w.enemies@[i].death {
                    Some(d) => d.0 <= input.now_ms,
                    None => true,
                }));
        assert(forall|i: int| 0 <= i < w.bullets@.len()
            ==> (#[trigger] w.bullets@[i]).wf()
                && w.bullets@[i].bullet.spawn_time <= input.now_ms);
    }
    enemy_player_collision(&mut w.enemies, &mut w.player, hit_events);
    proof {
        if hit_events@.len() > 0 {
            assert(hit_events@ =~= seq![PlayerHitEvent]);
        }
        assert(stage_contact_damage(stage_hit_g, snapshot(*w), hit_events@));
        assert(forall|i: int| 0 <= i < w.enemies@.len()
            ==> (#[trigger] w.enemies@[i]).wf()
                && (w.enemies@[i].scannable() ==> w.enemies@[i].health.0 >= -1)
                && (match w.enemies@[i].death {
                    Some(d) => d.0 <= input.now_ms,
                    None => true,
                }));
    }
    Ghost((stage_fresh_g, stage_hit_g))
}

/// The pipeline's sequencing half: the player's exhaustion ends the
/// game, exhausted enemies enter their death sequence, expired enemies
/// and bullets are removed, and the counters absorb this tick's events.
#[verifier::rlimit(100)]
fn pipeline_sequence(
    w: &mut World,
    input: TickInput,
    killed_events: &Vec<EnemyKilledEvent>,
    hit_events: &Vec<PlayerHitEvent>,
)
    requires
        old(w).phase == AppState::InGame,
        match old(w).player {
            Some(p) => p.wf() && p.health.0 >= -1,
            None => true,
        },
        forall|i: int| 0 <= i < old(w).enemies@.len()
            ==> (#[trigger] old(w).enemies@[i]).wf()
                && (match old(w).enemies@[i].death {
                    Some(d) => d.0 <= input.now_ms,
                    None => true,
                }),
        forall|i: int| 0 <= i < old(w).bullets@.len()
            ==> (#[trigger] old(w).bullets@[i]).wf()
                && old(w).bullets@[i].bullet.spawn_time <= input.now_ms,
        killed_events@.len() <= 1,
        hit_events@.len() <= 1,
    ensures
        final(w).wf(),
        final(w).time_coherent(input.now_ms),
        stage_sequenced(snapshot(*old(w)), *final(w), input.now_ms),
        final(w).player == old(w).player,
        final(w).player_color == old(w).player_color,
        match final(w).player {
            Some(q) => final(w).phase == (
                if q.health.0 <= 0 { AppState::EndGame } else { AppState::InGame }),
            None => final(w).phase == AppState::InGame,
        },
        final(w).score.0 == (if old(w).score.0 < i32::MAX {
            old(w).score.0 + killed_events@.len()
        } else {
            old(w).score.0 as int
        }),
        final(w).health_ui.0 == (if old(w).health_ui.0 > i8::MIN {
            old(w).health_ui.0 - hit_events@.len()
        } else {
            old(w).health_ui.0 as int
        }),
        forall|i: int| 0 <= i < final(w).enemies@.len()
            ==> !death_expired(#[trigger] final(w).enemies@[i], input.now_ms as int),
        forall|i: int| 0 <= i < final(w).bullets@.len()
            ==> !bullet_expired(#[trigger] final(w).bullets@[i], input.now_ms as int),
{
    player_death(&mut w.phase, &w.player);
    play_death(&mut w.enemies, input.now_ms);
    proof {
        assert(w.enemies@ =~= Seq::new(
            old(w).enemies@.len(),
            |i: int| death_step(old(w).enemies@[i], input.now_ms),
        ));
        assert(forall|i: int| 0 <= i < w.enemies@.len()
            ==> (#[trigger] w.enemies@[i]).wf()
                && (w.enemies@[i].scannable() ==> w.enemies@[i].health.0 >= 1)
                && (match w.enemies@[i].death {
                    Some(d) => d.0 <= input.now_ms,
                    None => true,
                }));
    }
    let ghost pre_despawn_enemies = w.enemies@;
    despawn_dead(&mut w.enemies, input.now_ms);
    proof {
        assert forall|i: int| 0 <= i < w.enemies@.len()
            implies (#[trigger] w.enemies@[i]).wf()
                && (w.enemies@[i].scannable() ==> w.enemies@[i].health.0 >= 1)
                && (match w.enemies@[i].death {
                    Some(d) => d.0 <= input.now_ms,
                    None => true,
                }) by {
            lemma_filter_index(
                pre_despawn_enemies,
                |e: EnemyEntity| !death_expired(e, input.now_ms as int),
                i,
            );
        }
    }
    let ghost pre_despawn_bullets = w.bullets@;
    despawn_bullet(&mut w.bullets, input.now_ms);
    proof {
        assert forall|i: int| 0 <= i < w.bullets@.len()
            implies (#[trigger] w.bullets@[i]).wf()
                && w.bullets@[i].bullet.spawn_time <= input.now_ms by {
            lemma_filter_index(
                pre_despawn_bullets,
                |b: BulletEntity| !bullet_expired(b, input.now_ms as int),
                i,
            );
        }
    }

    // Counters absorb this tick's events.
    if w.score.0 < i32::MAX && killed_events.len() <= 1 {
        update_score(&mut w.score, killed_events);
    }
    if w.health_ui.0 > i8::MIN && hit_events.len() <= 1 {
        update_health_ui(&mut w.health_ui, hit_events);
    }
}

/// The gameplay parts of the world, frozen as one ghost value.
pub open spec fn snapshot(w: World) -> WorldStage {
    WorldStage {
        player: w.player,
        enemies: w.enemies@,
        bullets: w.bullets@,
        spawn_timer: w.spawn_timer,
    }
}

} // verus!
