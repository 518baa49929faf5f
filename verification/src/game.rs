//! In-game score and lives counters, driven by this tick's kill and hit
//! events. Rendering the counters is a UI collaborator's job; here they
//! are plain numbers.

use vstd::prelude::*;
use crate::enemies::EnemyKilledEvent;
use crate::player::PlayerHitEvent;

verus! {

/// Kills scored this session.
#[derive(Debug, Clone, Copy, PartialEq, Eq, Structural)]
pub struct Score(pub i32);

impl Default for Score {
    fn default() -> (r: Self)
        ensures
            r == Score(0),
    {
        Score(0)
    }
}

/// The lives counter shown to the player.
#[derive(Debug, Clone, Copy, PartialEq, Eq, Structural)]
pub struct HealthUi(pub i8);

/// Add one point for every enemy killed this tick.
pub fn update_score(score: &mut Score, events: &Vec<EnemyKilledEvent>)
    requires
        old(score).0 + events@.len() <= i32::MAX,
    ensures
        final(score).0 == old(score).0 + events@.len(),
{
    let n = events.len();
    let mut i: usize = 0;
    while i < n
        invariant
            n == events@.len(),
            0 <= i <= n,
            score.0 == old(score).0 + i,
            old(score).0 + n <= i32::MAX,
        decreases n - i,
    {
        score.0 = score.0 + 1;
        i = i + 1;
    }
}

/// Drop one life for every hit the player took this tick.
pub fn update_health_ui(ui: &mut HealthUi, events: &Vec<PlayerHitEvent>)
    requires
        old(ui).0 - events@.len() >= i8::MIN,
    ensures
        final(ui).0 == old(ui).0 - events@.len(),
{
    let n = events.len();
    let mut i: usize = 0;
    while i < n
        invariant
            n == events@.len(),
            0 <= i <= n,
            ui.0 == old(ui).0 - i,
            old(ui).0 - n >= i8::MIN,
        decreases n - i,
    {
        ui.0 = ui.0 - 1;
        i = i + 1;
    }
}

} // verus!
