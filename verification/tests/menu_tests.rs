use tray_core::menu::{
    build_tray_menu, i64_to_dec, menu_action, parse_i64, MenuAction, MenuEntry, ProjectInfo,
};

#[test]
fn menu_has_fixed_entries_around_projects() {
    let projects = vec![
        ProjectInfo { id: 7, name: "Writing".to_string(), color: "#FF5733".to_string() },
        ProjectInfo { id: -3, name: "Admin".to_string(), color: "zzz".to_string() },
    ];
    let menu = build_tray_menu(&projects, true);
    assert_eq!(menu.len(), 9);
    match &menu[0] {
        MenuEntry::Item { id, label, enabled } => {
            assert_eq!(id, "show");
            assert_eq!(label, "Show/Hide Timer");
            assert!(*enabled);
        },
        _ => panic!("expected the show/hide entry"),
    }
    match &menu[1] {
        MenuEntry::Item { id, label, enabled } => {
            assert_eq!(id, "dashboard");
            assert_eq!(label, "Dashboard");
            assert!(*enabled);
        },
        _ => panic!("expected the dashboard entry"),
    }
    assert!(matches!(menu[2], MenuEntry::Separator));
    assert!(matches!(menu[4], MenuEntry::Separator));
    assert!(matches!(menu[7], MenuEntry::Separator));
    match &menu[8] {
        MenuEntry::Item { id, label, enabled } => {
            assert_eq!(id, "quit");
            assert_eq!(label, "Quit");
            assert!(*enabled);
        },
        _ => panic!("expected the quit entry"),
    }
}

#[test]
fn stop_entry_enabled_tracks_running_state() {
    let menu = build_tray_menu(&vec![], true);
    match &menu[3] {
        MenuEntry::Item { id, enabled, .. } => {
            assert_eq!(id, "stop");
            assert!(*enabled);
        },
        _ => panic!("expected the stop entry"),
    }
    let menu = build_tray_menu(&vec![], false);
    match &menu[3] {
        MenuEntry::Item { enabled, .. } => assert!(!*enabled),
        _ => panic!("expected the stop entry"),
    }
}

#[test]
fn project_entries_carry_id_label_and_icon() {
    let projects = vec![
        ProjectInfo { id: 7, name: "Writing".to_string(), color: "#FF5733".to_string() },
        ProjectInfo { id: -3, name: "Admin".to_string(), color: "zzz".to_string() },
    ];
    let menu = build_tray_menu(&projects, false);
    match &menu[5] {
        MenuEntry::ProjectItem { id, label, icon } => {
            assert_eq!(id, "project_7");
            assert_eq!(label, "Writing");
            assert_eq!(icon.len(), 16 * 16 * 4);
            let center = 4 * (8 * 16 + 8);
            assert_eq!(&icon[center..center + 4], &[255, 87, 51, 255]);
        },
        _ => panic!("expected a project entry"),
    }
    match &menu[6] {
        MenuEntry::ProjectItem { id, label, icon } => {
            assert_eq!(id, "project_-3");
            assert_eq!(label, "Admin");
            // An invalid project color falls back to gray.
            let center = 4 * (8 * 16 + 8);
            assert_eq!(&icon[center..center + 4], &[128, 128, 128, 255]);
        },
        _ => panic!("expected a project entry"),
    }
}

#[test]
fn fixed_menu_ids_dispatch() {
    assert_eq!(menu_action("quit"), MenuAction::Quit);
    assert_eq!(menu_action("show"), MenuAction::ToggleWindow);
    assert_eq!(menu_action("dashboard"), MenuAction::OpenDashboard);
    assert_eq!(menu_action("stop"), MenuAction::StopTimer);
}

#[test]
fn project_menu_ids_dispatch_to_their_project() {
    assert_eq!(menu_action("project_12"), MenuAction::StartProject { project_id: 12 });
    assert_eq!(menu_action("project_-5"), MenuAction::StartProject { project_id: -5 });
    assert_eq!(menu_action("project_0"), MenuAction::StartProject { project_id: 0 });
}

#[test]
fn unknown_menu_ids_do_nothing() {
    assert_eq!(menu_action(""), MenuAction::Nothing);
    assert_eq!(menu_action("project_"), MenuAction::Nothing);
    assert_eq!(menu_action("project_abc"), MenuAction::Nothing);
    assert_eq!(menu_action("project"), MenuAction::Nothing);
    assert_eq!(menu_action("something_else"), MenuAction::Nothing);
}

#[test]
fn parse_i64_accepts_signs_and_leading_zeros() {
    assert_eq!(parse_i64("42"), Some(42));
    assert_eq!(parse_i64("+42"), Some(42));
    assert_eq!(parse_i64("-42"), Some(-42));
    assert_eq!(parse_i64("042"), Some(42));
    assert_eq!(parse_i64("-0"), Some(0));
}

#[test]
fn parse_i64_rejects_junk() {
    assert_eq!(parse_i64(""), None);
    assert_eq!(parse_i64("-"), None);
    assert_eq!(parse_i64("+"), None);
    assert_eq!(parse_i64("1x"), None);
    assert_eq!(parse_i64("+-3"), None);
    assert_eq!(parse_i64(" 3"), None);
}

#[test]
fn parse_i64_handles_the_range_ends() {
    assert_eq!(parse_i64("9223372036854775807"), Some(i64::MAX));
    assert_eq!(parse_i64("9223372036854775808"), None);
    assert_eq!(parse_i64("-9223372036854775808"), Some(i64::MIN));
    assert_eq!(parse_i64("-9223372036854775809"), None);
    assert_eq!(parse_i64("99999999999999999999999"), None);
}

#[test]
fn i64_rendering_round_trips() {
    for v in [0i64, 7, -3, 1000, i64::MAX, i64::MIN] {
        assert_eq!(parse_i64(&i64_to_dec(v)), Some(v));
    }
    assert_eq!(i64_to_dec(i64::MIN), "-9223372036854775808");
    assert_eq!(i64_to_dec(-1), "-1");
}
