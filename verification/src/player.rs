//! The player avatar: spawning, keyboard-driven movement, the jump
//! animation decisions, and the transition to the end of the game when
//! the player's health runs out.

use vstd::prelude::*;
use crate::AppState;
use crate::bounding::{Body, Point, Pose, Rot, Shape, SCALE};
use crate::enemies::Health;
use crate::motion::{
    clamp_spec, clamp_pos, normalize_or_zero, normalized, step_delta, step_delta_spec,
};

verus! {

/// Side length of the player's square footprint, in world units.
pub const PLAYER_SIZE: i64 = 64;

/// Health the player starts with.
pub const PLAYER_LIFES: i8 = 3;

/// Player movement speed, in world units per second.
pub const PLAYER_SPEED: i64 = 200;

/// Marker state of the player avatar.
#[derive(Debug, Clone, Copy, PartialEq, Eq, Structural)]
pub struct Player {
    pub is_jumping: bool,
}

impl Default for Player {
    fn default() -> (r: Self)
        ensures
            r == (Player { is_jumping: false }),
    {
        Player { is_jumping: false }
    }
}

/// The player began a jump this tick.
#[derive(Debug, Clone, Copy, PartialEq, Eq, Structural)]
pub struct PlayerJumpStartEvent;

/// The player's jump finished this tick.
#[derive(Debug, Clone, Copy, PartialEq, Eq, Structural)]
pub struct PlayerJumpEndEvent;

/// The player moved this tick; carries the raw input direction with
/// each component scaled by `SCALE`.
#[derive(Debug, Clone, Copy, PartialEq, Eq, Structural)]
pub struct PlayerMoveEvent(pub Point);

/// An enemy damaged the player this tick.
#[derive(Debug, Clone, Copy, PartialEq, Eq, Structural)]
pub struct PlayerHitEvent;

/// A move event as `move_player` emits it: each component is a full
/// `SCALE` step or zero, and at least one is non-zero.
pub open spec fn move_event_wf(e: PlayerMoveEvent) -> bool {
    (e.0.x == -SCALE as int || e.0.x == 0 || e.0.x == SCALE as int)
    && (e.0.y == -SCALE as int || e.0.y == 0 || e.0.y == SCALE as int)
    && !(e.0.x == 0 && e.0.y == 0)
}

/// The player entity: avatar state, health, and collision body.
#[derive(Debug, Clone, Copy, PartialEq, Eq, Structural)]
pub struct PlayerEntity {
    pub player: Player,
    pub health: Health,
    pub body: Body,
}

impl PlayerEntity {
    pub open spec fn wf(self) -> bool {
        self.body.wf()
    }
}

/// Create the player at the world origin: a square of side
/// `PLAYER_SIZE`, full health, not jumping.
pub fn spawn_player() -> (r: PlayerEntity)
    ensures
        r.wf(),
        r.player == (Player { is_jumping: false }),
        r.health == Health(PLAYER_LIFES),
        r.body.shape == (Shape::Rectangle { hw: (PLAYER_SIZE / 2) as i64, hh: (PLAYER_SIZE / 2) as i64 }),
        r.body.pose == (Pose { tx: 0, ty: 0, rot: Rot { c: SCALE, s: 0 } }),
{
    PlayerEntity {
        player: Player { is_jumping: false },
        health: Health(PLAYER_LIFES),
        body: Body::new(
            Shape::Rectangle { hw: PLAYER_SIZE / 2, hh: PLAYER_SIZE / 2 },
            Pose { tx: 0, ty: 0, rot: Rot::identity() },
        ),
    }
}

/// The raw direction one axis contributes: `+1` for the positive key,
/// `-1` for the negative key, `0` for both or neither.
pub open spec fn key_dir(neg: bool, pos: bool) -> int {
    (if pos { 1int } else { 0 }) - (if neg { 1int } else { 0 })
}

/// How `move_player` changes the player: the pose is translated by the
/// normalized input direction times speed and tick length, clamped to
/// the world range, and nothing else changes.
pub open spec fn moved_player(
    before: PlayerEntity,
    after: PlayerEntity,
    m: Point,
    dt_ms: int,
) -> bool {
    after.player == before.player
    && after.health == before.health
    && after.body.shape == before.body.shape
    && after.body.pose.rot == before.body.pose.rot
    && after.body.pose.tx
        == clamp_spec(before.body.pose.tx + step_delta_spec(m.x as int, PLAYER_SPEED as int, dt_ms))
    && after.body.pose.ty
        == clamp_spec(before.body.pose.ty + step_delta_spec(m.y as int, PLAYER_SPEED as int, dt_ms))
}

/// Apply one tick of keyboard movement: combine the four direction
/// keys, normalize the result, and translate the player by it. A move
/// event carrying the raw direction is emitted exactly when the
/// movement is non-zero.
pub fn move_player(
    p: &mut PlayerEntity,
    up: bool,
    down: bool,
    left: bool,
    right: bool,
    dt_ms: u64,
    move_events: &mut Vec<PlayerMoveEvent>,
)
    requires
        old(p).wf(),
        dt_ms <= crate::motion::DT_LIMIT,
    ensures
        final(p).wf(),
        final(p).player == old(p).player,
        final(p).health == old(p).health,
        final(p).body.shape == old(p).body.shape,
        old(move_events)@.len() <= final(move_events)@.len() <= old(move_events)@.len() + 1,
        forall|i: int| 0 <= i < old(move_events)@.len()
            ==> #[trigger] final(move_events)@[i] == old(move_events)@[i],
        forall|i: int| old(move_events)@.len() <= i < final(move_events)@.len()
            ==> move_event_wf(#[trigger] final(move_events)@[i]),
        exists|m: Point|
            #[trigger] normalized(
                key_dir(left, right) * SCALE,
                key_dir(down, up) * SCALE,
                m,
            )
            && moved_player(*old(p), *final(p), m, dt_ms as int)
            && (if m.x == 0 && m.y == 0 {
                final(move_events)@ == old(move_events)@
            } else {
                final(move_events)@ == old(move_events)@.push(
                    PlayerMoveEvent(Point {
                        x: (key_dir(left, right) * SCALE) as i64,
                        y: (key_dir(down, up) * SCALE) as i64,
                    }),
                )
            }),
{
    let dir_x: i64 = (if right { 1i64 } else { 0 }) - (if left { 1i64 } else { 0 });
    let dir_y: i64 = (if up { 1i64 } else { 0 }) - (if down { 1i64 } else { 0 });
    let m = normalize_or_zero(dir_x * SCALE, dir_y * SCALE);
    let step_x = step_delta(m.x, PLAYER_SPEED, dt_ms);
    let step_y = step_delta(m.y, PLAYER_SPEED, dt_ms);
    let pose = Pose {
        tx: clamp_pos(p.body.pose.tx + step_x),
        ty: clamp_pos(p.body.pose.ty + step_y),
        rot: p.body.pose.rot,
    };
    p.body.set_pose(pose);
    proof {
        assert(dir_x as int == key_dir(left, right) && dir_y as int == key_dir(down, up));
        assert(normalized(key_dir(left, right) * SCALE, key_dir(down, up) * SCALE, m));
    }
    if !(m.x == 0 && m.y == 0) {
        move_events.push(PlayerMoveEvent(Point { x: dir_x * SCALE, y: dir_y * SCALE }));
    }
}

/// What the jump system asks of the animation collaborator this tick.
#[derive(Debug, Clone, Copy, PartialEq, Eq, Structural)]
pub struct JumpCommands {
    /// Start playing the jump animation.
    pub play: bool,
    /// Stop all animation playback.
    pub stop: bool,
}

/// Decide the jump state for one tick. The animation itself belongs to
/// a collaborator; this takes what that collaborator reports (whether a
/// jump animation exists, whether it is playing, whether playback has
/// finished) and the space-key edge, and decides playback commands,
/// jump events, and the avatar's `is_jumping` flag.
pub fn jump_player(
    player: &mut Player,
    has_animation: bool,
    space_just_pressed: bool,
    is_playing: bool,
    all_finished: bool,
    start_events: &mut Vec<PlayerJumpStartEvent>,
    end_events: &mut Vec<PlayerJumpEndEvent>,
) -> (cmd: JumpCommands)
    ensures
        !has_animation ==> *final(player) == *old(player)
            && final(start_events)@ == old(start_events)@
            && final(end_events)@ == old(end_events)@
            && cmd == (JumpCommands { play: false, stop: false }),
        has_animation ==> {
            let started = space_just_pressed && !is_playing;
            let ended = is_playing && all_finished;
            cmd == (JumpCommands { play: started, stop: ended })
            && final(start_events)@
                == (if started { old(start_events)@.push(PlayerJumpStartEvent) }
                    else { old(start_events)@ })
            && final(end_events)@
                == (if ended { old(end_events)@.push(PlayerJumpEndEvent) }
                    else { old(end_events)@ })
            && final(player).is_jumping
                == (if ended { false } else if space_just_pressed { true }
                    else { old(player).is_jumping })
        },
{
    if !has_animation {
        return JumpCommands { play: false, stop: false };
    }
    let mut cmd = JumpCommands { play: false, stop: false };
    if space_just_pressed {
        if !is_playing {
            start_events.push(PlayerJumpStartEvent);
            cmd.play = true;
        }
        player.is_jumping = true;
    }
    if is_playing && all_finished {
        end_events.push(PlayerJumpEndEvent);
        cmd.stop = true;
        player.is_jumping = false;
    }
    cmd
}

/// The player's visual tint, swapped while a jump is in flight.
#[derive(Debug, Clone, Copy, PartialEq, Eq, Structural)]
pub enum PlayerColor {
    Purple,
    Yellow,
}

/// Recolour the player from this tick's jump events: any jump end turns
/// the avatar back to purple; otherwise any jump start turns it yellow;
/// with no events the colour is kept.
pub fn change_color(
    current: PlayerColor,
    start_events: &Vec<PlayerJumpStartEvent>,
    end_events: &Vec<PlayerJumpEndEvent>,
) -> (r: PlayerColor)
    ensures
        r == (if end_events@.len() > 0 { PlayerColor::Purple }
            else if start_events@.len() > 0 { PlayerColor::Yellow }
            else { current }),
{
    if end_events.len() > 0 {
        PlayerColor::Purple
    } else if start_events.len() > 0 {
        PlayerColor::Yellow
    } else {
        current
    }
}

/// End the game when the player's health has run out: while the phase
/// is `InGame` and a player with health at or below zero exists, the
/// phase moves to `EndGame`; in every other case it is unchanged.
pub fn player_death(phase: &mut AppState, player: &Option<PlayerEntity>)
    ensures
        match player {
            Some(p) => {
                if p.health.0 <= 0 && *old(phase) == AppState::InGame {
                    *final(phase) == AppState::EndGame
                } else {
                    *final(phase) == *old(phase)
                }
            },
            None => *final(phase) == *old(phase),
        },
{
    match player {
        Some(p) => {
            if p.health.0 <= 0 {
                let _ = phase.request_transition(AppState::EndGame);
            }
        },
        None => {},
    }
}

} // verus!
