use shooter_core::AppState;
use shooter_core::death::death_menu;
use shooter_core::enemies::Health;
use shooter_core::menu::{menu, ButtonVisual, Interaction};
use shooter_core::player::{player_death, spawn_player, PlayerEntity};

#[test]
fn starting_phase_is_menu() {
    assert_eq!(AppState::default(), AppState::Menu);
}

#[test]
fn start_request_moves_menu_to_in_game() {
    let mut phase = AppState::Menu;
    assert!(phase.request_transition(AppState::InGame));
    assert_eq!(phase, AppState::InGame);
}

#[test]
fn player_exhaustion_moves_in_game_to_end_game() {
    let mut phase = AppState::InGame;
    let mut p = spawn_player();
    p.health = Health(0);
    let player: Option<PlayerEntity> = Some(p);
    player_death(&mut phase, &player);
    assert_eq!(phase, AppState::EndGame);
}

#[test]
fn healthy_player_keeps_phase() {
    let mut phase = AppState::InGame;
    let player = Some(spawn_player());
    player_death(&mut phase, &player);
    assert_eq!(phase, AppState::InGame);
}

#[test]
fn menu_request_from_end_game_is_rejected() {
    let mut phase = AppState::EndGame;
    assert!(!phase.request_transition(AppState::Menu));
    assert_eq!(phase, AppState::EndGame);
}

#[test]
fn no_transition_skips_or_reverses() {
    // Every edge outside Menu -> InGame -> EndGame is rejected with the
    // phase unchanged.
    let mut phase = AppState::Menu;
    assert!(!phase.request_transition(AppState::EndGame));
    assert_eq!(phase, AppState::Menu);
    assert!(!phase.request_transition(AppState::Menu));
    assert_eq!(phase, AppState::Menu);

    let mut phase = AppState::InGame;
    assert!(!phase.request_transition(AppState::Menu));
    assert_eq!(phase, AppState::InGame);

    let mut phase = AppState::EndGame;
    assert!(!phase.request_transition(AppState::InGame));
    assert_eq!(phase, AppState::EndGame);
}

#[test]
fn menu_button_styles_and_starts() {
    let mut phase = AppState::Menu;
    assert_eq!(menu(&mut phase, Interaction::Hovered), ButtonVisual::Hovered);
    assert_eq!(phase, AppState::Menu);
    assert_eq!(menu(&mut phase, Interaction::Inactive), ButtonVisual::Normal);
    assert_eq!(phase, AppState::Menu);
    assert_eq!(menu(&mut phase, Interaction::Pressed), ButtonVisual::Pressed);
    assert_eq!(phase, AppState::InGame);
}

#[test]
fn menu_press_outside_menu_changes_nothing() {
    let mut phase = AppState::EndGame;
    let _ = menu(&mut phase, Interaction::Pressed);
    assert_eq!(phase, AppState::EndGame);
}

#[test]
fn exit_button_requests_termination_only_on_press() {
    assert_eq!(death_menu(Interaction::Pressed), (ButtonVisual::Pressed, true));
    assert_eq!(death_menu(Interaction::Hovered), (ButtonVisual::Hovered, false));
    assert_eq!(death_menu(Interaction::Inactive), (ButtonVisual::Normal, false));
}
