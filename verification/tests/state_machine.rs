use missioncontrol::inputs::{check_input, parse_control, Event, Input};
use missioncontrol::session::{Modifications, State, StateProgress, MC};

fn fresh() -> MC {
    let mc = MC::new(42);
    assert_eq!(mc.state, State::MainMenu);
    assert!(mc.modification.is_none());
    assert!(mc.value.is_none());
    assert_eq!(mc.page, 0);
    assert!(mc.list.is_empty());
    assert!(mc.running);
    mc
}

#[test]
fn new_session_stands_at_main_menu() {
    let mc = fresh();
    assert_eq!(mc.id.len(), 26);
    assert_eq!(mc.owner, 42);
}

#[test]
fn category_buttons_enter_modifications() {
    let mut mc = fresh();
    mc.handle_main_menu(&Input::Roles);
    assert_eq!(mc.state, State::Modification(StateProgress::Initial));
    assert_eq!(mc.modification, Some(Modifications::Roles));
    assert!(mc.running);

    let mut mc = fresh();
    mc.handle_main_menu(&Input::Chans);
    assert_eq!(mc.state, State::Modification(StateProgress::Initial));
    assert_eq!(mc.modification, Some(Modifications::Channels));

    let mut mc = fresh();
    mc.handle_main_menu(&Input::Projs);
    assert_eq!(mc.modification, Some(Modifications::Projects));

    let mut mc = fresh();
    mc.handle_main_menu(&Input::Games);
    assert_eq!(mc.modification, Some(Modifications::Games));
}

#[test]
fn membership_skips_straight_to_change() {
    let mut mc = fresh();
    mc.handle_main_menu(&Input::Membership);
    assert_eq!(mc.state, State::Modification(StateProgress::Change));
    assert_eq!(mc.modification, Some(Modifications::Membership));
}

#[test]
fn done_from_main_menu_ends_the_session() {
    let mut mc = fresh();
    mc.handle_main_menu(&Input::ExitMc);
    assert_eq!(mc.state, State::Done);
    assert!(!mc.running);
}

#[test]
fn add_and_remove_pick_a_phase() {
    let mut mc = fresh();
    mc.handle_main_menu(&Input::Roles);
    mc.handle_modification(&Input::Add);
    assert_eq!(mc.state, State::Modification(StateProgress::Add));
    assert_eq!(mc.modification, Some(Modifications::Roles));

    let mut mc = fresh();
    mc.handle_main_menu(&Input::Roles);
    mc.handle_modification(&Input::Remove);
    assert_eq!(mc.state, State::Modification(StateProgress::Remove));
}

#[test]
fn done_from_any_modification_phase_returns_to_main_menu() {
    // From Initial.
    let mut mc = fresh();
    mc.handle_main_menu(&Input::Roles);
    mc.handle_modification(&Input::Done);
    assert_eq!(mc.state, State::MainMenu);
    assert!(mc.modification.is_none());
    assert!(mc.running);

    // From Add.
    let mut mc = fresh();
    mc.handle_main_menu(&Input::Games);
    mc.handle_modification(&Input::Add);
    mc.handle_modification(&Input::Done);
    assert_eq!(mc.state, State::MainMenu);
    assert!(mc.modification.is_none());

    // From Remove.
    let mut mc = fresh();
    mc.handle_main_menu(&Input::Projs);
    mc.handle_modification(&Input::Remove);
    mc.handle_modification(&Input::Done);
    assert_eq!(mc.state, State::MainMenu);
    assert!(mc.modification.is_none());

    // From Change.
    let mut mc = fresh();
    mc.handle_main_menu(&Input::Membership);
    mc.handle_modification(&Input::Done);
    assert_eq!(mc.state, State::MainMenu);
    assert!(mc.modification.is_none());
}

#[test]
fn selection_records_the_pending_value() {
    let mut mc = fresh();
    mc.handle_main_menu(&Input::Roles);
    mc.handle_modification(&Input::Add);
    mc.handle_modification(&Input::SelVal(Some("12345".to_string())));
    assert_eq!(mc.value.as_deref(), Some("12345"));
    assert_eq!(mc.state, State::Modification(StateProgress::Add));
}

#[test]
fn selection_without_payload_leaves_no_pending_value() {
    let mut mc = fresh();
    mc.handle_main_menu(&Input::Membership);
    mc.handle_modification(&Input::SelVal(None));
    assert!(mc.value.is_none());
}

#[test]
fn page_controls_adjust_the_cursor() {
    let mut mc = fresh();
    mc.handle_main_menu(&Input::Roles);
    mc.handle_modification(&Input::Add);
    mc.handle_modification(&Input::PrevPage);
    assert_eq!(mc.page, 0);
    mc.handle_modification(&Input::NextPage);
    assert_eq!(mc.page, 1);
    mc.handle_modification(&Input::NextPage);
    assert_eq!(mc.page, 2);
    mc.handle_modification(&Input::PrevPage);
    assert_eq!(mc.page, 1);
}

#[test]
fn timeout_ends_the_session_without_an_update() {
    let mut mc = fresh();
    let emit = mc.handle_event(&Event::Timeout);
    assert!(!emit);
    assert!(!mc.running);
    assert_eq!(mc.state, State::MainMenu);

    // Also mid-modification.
    let mut mc = fresh();
    mc.handle_event(&Event::Control(Input::Roles));
    let emit = mc.handle_event(&Event::Timeout);
    assert!(!emit);
    assert!(!mc.running);
    assert_eq!(mc.state, State::Modification(StateProgress::Initial));
}

#[test]
fn control_events_owe_an_update() {
    let mut mc = fresh();
    let emit = mc.handle_event(&Event::Control(Input::ExitMc));
    assert!(emit);
    assert_eq!(mc.state, State::Done);
    assert!(!mc.running);
}

#[test]
fn parse_control_decodes_the_vocabulary() {
    let none: Vec<String> = Vec::new();
    assert!(matches!(parse_control("membership", &none), Some(Input::Membership)));
    assert!(matches!(parse_control("roles", &none), Some(Input::Roles)));
    assert!(matches!(parse_control("chans", &none), Some(Input::Chans)));
    assert!(matches!(parse_control("projs", &none), Some(Input::Projs)));
    assert!(matches!(parse_control("games", &none), Some(Input::Games)));
    assert!(matches!(parse_control("exit-mc", &none), Some(Input::ExitMc)));
    assert!(matches!(parse_control("add", &none), Some(Input::Add)));
    assert!(matches!(parse_control("remove", &none), Some(Input::Remove)));
    assert!(matches!(parse_control("done", &none), Some(Input::Done)));
    assert!(matches!(parse_control("next-page", &none), Some(Input::NextPage)));
    assert!(matches!(parse_control("prev-page", &none), Some(Input::PrevPage)));
    assert!(parse_control("launch-mc", &none).is_none());
    assert!(parse_control("", &none).is_none());

    let vals = vec!["777".to_string(), "888".to_string()];
    match parse_control("sel-val", &vals) {
        Some(Input::SelVal(Some(v))) => assert_eq!(v, "777"),
        _ => panic!("sel-val with values must carry the first value"),
    }
    assert!(matches!(parse_control("sel-val", &none), Some(Input::SelVal(None))));
}

#[test]
fn legality_follows_the_transition_table() {
    let main = State::MainMenu;
    assert!(check_input(&main, &Input::Membership));
    assert!(check_input(&main, &Input::ExitMc));
    assert!(!check_input(&main, &Input::Add));
    assert!(!check_input(&main, &Input::Done));
    assert!(!check_input(&main, &Input::SelVal(None)));

    let initial = State::Modification(StateProgress::Initial);
    assert!(check_input(&initial, &Input::Add));
    assert!(check_input(&initial, &Input::Remove));
    assert!(check_input(&initial, &Input::Done));
    assert!(!check_input(&initial, &Input::Roles));
    assert!(!check_input(&initial, &Input::SelVal(None)));

    let add = State::Modification(StateProgress::Add);
    assert!(check_input(&add, &Input::Done));
    assert!(check_input(&add, &Input::SelVal(Some("1".to_string()))));
    assert!(check_input(&add, &Input::NextPage));
    assert!(check_input(&add, &Input::PrevPage));
    assert!(!check_input(&add, &Input::Add));

    let change = State::Modification(StateProgress::Change);
    assert!(check_input(&change, &Input::Done));
    assert!(check_input(&change, &Input::SelVal(None)));
    assert!(!check_input(&change, &Input::NextPage));

    let done = State::Done;
    assert!(!check_input(&done, &Input::Done));
    assert!(!check_input(&done, &Input::ExitMc));
}

#[test]
fn full_menu_walk_ends_cleanly() {
    let mut mc = fresh();
    assert!(mc.handle_event(&Event::Control(Input::Games)));
    assert!(mc.handle_event(&Event::Control(Input::Add)));
    assert!(mc.handle_event(&Event::Control(Input::Done)));
    assert_eq!(mc.state, State::MainMenu);
    assert!(mc.handle_event(&Event::Control(Input::ExitMc)));
    assert_eq!(mc.state, State::Done);
    assert!(!mc.running);
}
