use missioncontrol::generators::{needs_size_warning, sel_menu, ButtonStyle, Component, MenuOption};
use missioncontrol::inputs::{Event, Input};
use missioncontrol::numbers::{parse_u64, u64_to_dec_string};
use missioncontrol::session::{Modifications, State, StateProgress, MC};

fn button_ids(components: &[Component]) -> Vec<(String, String)> {
    components
        .iter()
        .map(|c| match c {
            Component::Button(b) => (b.custom_id.clone(), b.label.clone()),
            Component::Select(_) => panic!("expected a button"),
        })
        .collect()
}

#[test]
fn decimal_rendering_is_canonical() {
    assert_eq!(u64_to_dec_string(0), "0");
    assert_eq!(u64_to_dec_string(7), "7");
    assert_eq!(u64_to_dec_string(10), "10");
    assert_eq!(u64_to_dec_string(1234567890), "1234567890");
    assert_eq!(u64_to_dec_string(u64::MAX), "18446744073709551615");
}

#[test]
fn decimal_parsing_is_exact() {
    assert_eq!(parse_u64("0"), Some(0));
    assert_eq!(parse_u64("00123"), Some(123));
    assert_eq!(parse_u64("18446744073709551615"), Some(u64::MAX));
    assert_eq!(parse_u64("18446744073709551616"), None);
    assert_eq!(parse_u64("99999999999999999999999"), None);
    assert_eq!(parse_u64(""), None);
    assert_eq!(parse_u64("12a"), None);
    assert_eq!(parse_u64("-5"), None);
    assert_eq!(parse_u64(" 5"), None);
}

#[test]
fn decimal_round_trip() {
    for n in [0u64, 1, 9, 10, 99, 100, 585637350529302529, u64::MAX] {
        assert_eq!(parse_u64(&u64_to_dec_string(n)), Some(n));
    }
}

#[test]
fn main_menu_offers_every_category_and_a_close() {
    let mc = MC::new(1);
    let ui = mc.generate();
    assert!(ui.ephemeral);
    assert_eq!(
        ui.content.as_deref(),
        Some("This code is highly unstable, please report any bugs to <@125812945061019650>!")
    );
    assert_eq!(ui.rows.len(), 2);
    assert_eq!(
        button_ids(&ui.rows[0].components),
        vec![
            ("membership".to_string(), "Membership".to_string()),
            ("roles".to_string(), "Roles".to_string()),
            ("chans".to_string(), "Channels".to_string()),
            ("projs".to_string(), "Projects".to_string()),
            ("games".to_string(), "Games".to_string()),
        ]
    );
    assert_eq!(
        button_ids(&ui.rows[1].components),
        vec![("exit-mc".to_string(), "Done".to_string())]
    );
}

#[test]
fn done_view_has_no_controls() {
    let mut mc = MC::new(1);
    mc.handle_event(&Event::Control(Input::ExitMc));
    assert_eq!(mc.state, State::Done);
    let ui = mc.generate();
    assert_eq!(ui.content.as_deref(), Some("Goodbye!"));
    assert!(ui.rows.is_empty());
}

#[test]
fn initial_phase_buttons_vary_by_category() {
    let cases = [
        (Input::Roles, "Add Roles", "Remove Roles"),
        (Input::Chans, "Join Channels", "Leave Channels"),
        (Input::Projs, "Join Projects", "Leave Projects"),
        (Input::Games, "Add Games", "Remove Games"),
    ];
    for (input, add_label, remove_label) in cases {
        let mut mc = MC::new(1);
        mc.handle_event(&Event::Control(input));
        let ui = mc.generate();
        assert!(ui.content.is_none());
        assert_eq!(ui.rows.len(), 1);
        assert_eq!(
            button_ids(&ui.rows[0].components),
            vec![
                ("add".to_string(), add_label.to_string()),
                ("remove".to_string(), remove_label.to_string()),
                ("done".to_string(), "Done".to_string()),
            ]
        );
    }
}

#[test]
fn selection_phase_renders_the_candidates() {
    let mut mc = MC::new(1);
    mc.handle_event(&Event::Control(Input::Roles));
    mc.handle_event(&Event::Control(Input::Add));
    mc.list = vec![
        MenuOption { label: "one".to_string(), val: "1".to_string() },
        MenuOption { label: "two".to_string(), val: "2".to_string() },
    ];
    let ui = mc.generate();
    assert_eq!(ui.rows.len(), 2);
    match &ui.rows[0].components[0] {
        Component::Select(sm) => {
            assert_eq!(sm.custom_id, "sel-val");
            assert!(!sm.disabled);
            assert_eq!(sm.placeholder, "Select a role to add...");
            assert_eq!(sm.options.len(), 2);
            assert_eq!(sm.options[0].label, "one");
            assert_eq!(sm.options[1].val, "2");
        },
        _ => panic!("expected a select menu"),
    }
    assert_eq!(
        button_ids(&ui.rows[1].components),
        vec![("done".to_string(), "Done".to_string())]
    );
}

#[test]
fn placeholders_vary_by_category_and_phase() {
    let cases = [
        (Input::Roles, Input::Remove, "Select a role to remove..."),
        (Input::Chans, Input::Add, "Select a channel to join..."),
        (Input::Chans, Input::Remove, "Select a channel to leave..."),
        (Input::Projs, Input::Add, "Select a project to join..."),
        (Input::Games, Input::Remove, "Select a game to remove..."),
    ];
    for (category, phase, expected) in cases {
        let mut mc = MC::new(1);
        mc.handle_event(&Event::Control(category));
        mc.handle_event(&Event::Control(phase));
        mc.list = vec![MenuOption { label: "x".to_string(), val: "1".to_string() }];
        let ui = mc.generate();
        match &ui.rows[0].components[0] {
            Component::Select(sm) => assert_eq!(sm.placeholder, expected),
            _ => panic!("expected a select menu"),
        }
    }
}

#[test]
fn membership_selection_placeholder() {
    let mut mc = MC::new(1);
    mc.handle_event(&Event::Control(Input::Membership));
    mc.list = vec![MenuOption { label: "Alumni".to_string(), val: "2".to_string() }];
    let ui = mc.generate();
    match &ui.rows[0].components[0] {
        Component::Select(sm) => assert_eq!(sm.placeholder, "Select a new membership type..."),
        _ => panic!("expected a select menu"),
    }
}

#[test]
fn empty_list_renders_a_disabled_menu() {
    let empty: Vec<MenuOption> = Vec::new();
    let rows = sel_menu("Select a role to add...", &empty, 0);
    match &rows[0].components[0] {
        Component::Select(sm) => {
            assert!(sm.disabled);
            assert_eq!(sm.placeholder, "There are no available options!");
            assert_eq!(sm.options.len(), 1);
            assert_eq!(sm.options[0].label, "none");
            assert_eq!(sm.options[0].val, "none");
        },
        _ => panic!("expected a select menu"),
    }
}

#[test]
fn oversized_list_warns_but_still_renders_whole() {
    let mut list: Vec<MenuOption> = Vec::new();
    for i in 0..21u64 {
        list.push(MenuOption { label: format!("item {i}"), val: u64_to_dec_string(i) });
    }
    assert!(needs_size_warning(&list));

    let mut mc = MC::new(1);
    mc.handle_event(&Event::Control(Input::Games));
    mc.handle_event(&Event::Control(Input::Add));
    mc.list = list;
    assert_eq!(mc.modification, Some(Modifications::Games));
    assert_eq!(mc.state, State::Modification(StateProgress::Add));
    let ui = mc.generate();
    match &ui.rows[0].components[0] {
        Component::Select(sm) => {
            assert!(!sm.disabled);
            assert_eq!(sm.options.len(), 21);
            assert_eq!(sm.options[20].label, "item 20");
        },
        _ => panic!("expected a select menu"),
    }

    let twenty: Vec<MenuOption> = (0..20u64)
        .map(|i| MenuOption { label: format!("{i}"), val: u64_to_dec_string(i) })
        .collect();
    assert!(!needs_size_warning(&twenty));
}
