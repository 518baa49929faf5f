//! The start menu's decision logic: button styling by interaction, and
//! the "start" request that moves the session from the menu into the
//! game.

use vstd::prelude::*;
use crate::AppState;

verus! {

/// What an input collaborator reports about a button this tick.
#[derive(Debug, Clone, Copy, PartialEq, Eq, Structural)]
pub enum Interaction {
    Pressed,
    Hovered,
    Inactive,
}

/// How a button should be drawn.
#[derive(Debug, Clone, Copy, PartialEq, Eq, Structural)]
pub enum ButtonVisual {
    Normal,
    Hovered,
    Pressed,
}

/// The visual a button takes for a given interaction.
pub open spec fn visual_for(interaction: Interaction) -> ButtonVisual {
    match interaction {
        Interaction::Pressed => ButtonVisual::Pressed,
        Interaction::Hovered => ButtonVisual::Hovered,
        Interaction::Inactive => ButtonVisual::Normal,
    }
}

/// Handle the start button for one tick: restyle it, and on a press
/// request the start of the game. The request moves the phase from
/// `Menu` to `InGame`; in any other phase it is rejected and the phase
/// is unchanged.
pub fn menu(phase: &mut AppState, interaction: Interaction) -> (visual: ButtonVisual)
    ensures
        visual == visual_for(interaction),
        interaction == Interaction::Pressed && *old(phase) == AppState::Menu
            ==> *final(phase) == AppState::InGame,
        !(interaction == Interaction::Pressed && *old(phase) == AppState::Menu)
            ==> *final(phase) == *old(phase),
{
    match interaction {
        Interaction::Pressed => {
            let _ = phase.request_transition(AppState::InGame);
            ButtonVisual::Pressed
        },
        Interaction::Hovered => ButtonVisual::Hovered,
        Interaction::Inactive => ButtonVisual::Normal,
    }
}

} // verus!
