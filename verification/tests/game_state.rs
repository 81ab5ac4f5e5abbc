use grahams_relay::game_state::{GameState, StateEvent, WorldChoice};

#[test]
fn start_up_leads_to_the_menu() {
    let s = GameState::PreLoading;
    let s = s.next(StateEvent::PreLoaded).unwrap();
    assert_eq!(s, GameState::AssetLoading);
    let s = s.next(StateEvent::AssetsLoaded).unwrap();
    assert_eq!(s, GameState::Menu);
}

#[test]
fn an_event_that_does_not_end_the_phase_changes_nothing() {
    assert_eq!(GameState::Menu.next(StateEvent::WorldReady), None);
    assert_eq!(GameState::Running.next(StateEvent::ResumeClicked), None);
}

#[test]
fn the_world_name_picks_the_destination() {
    assert_eq!(WorldChoice::from_name("credits"), WorldChoice::Credits);
    assert_eq!(WorldChoice::from_name("world03"), WorldChoice::World03);
    assert_eq!(WorldChoice::from_name("world01"), WorldChoice::World01);
    assert_eq!(WorldChoice::from_name(""), WorldChoice::World01);
}
