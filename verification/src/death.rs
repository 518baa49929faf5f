//! The end-of-game screen's decision logic: the exit button is the only
//! way out of `EndGame`, and it ends the session rather than changing
//! phase.

use vstd::prelude::*;
use crate::menu::{visual_for, ButtonVisual, Interaction};

verus! {

/// Handle the exit button for one tick: restyle it, and report whether
/// the session should terminate. No phase change ever results: the end
/// screen is terminal.
pub fn death_menu(interaction: Interaction) -> (r: (ButtonVisual, bool))
    ensures
        r.0 == visual_for(interaction),
        r.1 == (interaction == Interaction::Pressed),
{
    match interaction {
        Interaction::Pressed => (ButtonVisual::Pressed, true),
        Interaction::Hovered => (ButtonVisual::Hovered, false),
        Interaction::Inactive => (ButtonVisual::Normal, false),
    }
}

} // verus!
