//! Runtime core of a 2D arcade shooter: bounding-volume maintenance,
//! broad-phase collision testing, health/damage resolution, death
//! sequencing, and the top-level game-phase state machine.
//!
//! Geometry is modelled in integer fixed-point coordinates: world
//! translations are plain integer units, while rotations and direction
//! vectors are scaled by `bounding::SCALE`. Rendering, input polling and
//! asset management are collaborators that live outside this crate.

use vstd::prelude::*;

pub mod bounding;
pub mod bullet;
pub mod death;
pub mod enemies;
pub mod game;
pub mod menu;
pub mod motion;
pub mod player;
mod random;
pub mod world;

verus! {

/// Top-level phase of a session. The lifecycle is one-directional:
/// `Menu` -> `InGame` -> `EndGame`, and `EndGame` is terminal.
#[derive(Debug, Clone, Copy, Eq, PartialEq, Structural)]
pub enum AppState {
    Menu,
    InGame,
    EndGame,
}

impl AppState {
    /// The directed transition graph of the phase machine: the only
    /// edges are `Menu -> InGame` and `InGame -> EndGame`.
    pub open spec fn allows(self, to: AppState) -> bool {
        (self == AppState::Menu && to == AppState::InGame)
        || (self == AppState::InGame && to == AppState::EndGame)
    }

    /// Request a phase transition. A request along an edge of the
    /// transition graph is accepted and changes the phase; any other
    /// request is rejected and leaves the phase unchanged.
    pub fn request_transition(&mut self, to: AppState) -> (accepted: bool)
        ensures
            accepted == old(self).allows(to),
            accepted ==> *final(self) == to,
            !accepted ==> *final(self) == *old(self),
    {
        let ok = match (*self, to) {
            (AppState::Menu, AppState::InGame) => true,
            (AppState::InGame, AppState::EndGame) => true,
            _ => false,
        };
        if ok {
            *self = to;
        }
        ok
    }
}

impl Default for AppState {
    /// A session starts in the menu.
    fn default() -> (r: Self)
        ensures
            r == AppState::Menu,
    {
        AppState::Menu
    }
}

/// The phase lifecycle never returns to `Menu`, and `EndGame` has no
/// outgoing transition at all: once a session ends, every further
/// transition request is rejected.
pub proof fn lemma_phase_one_directional(from: AppState, to: AppState)
    ensures
        !from.allows(AppState::Menu),
        !AppState::EndGame.allows(to),
{
}

} // verus!
