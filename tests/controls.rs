use lgtv_tray_remote::config::{default_action_shortcuts, ActionShortcutConfig};
use lgtv_tray_remote::controls::{
    global_action_shortcuts, outer_to_inner_size, window_position_near, shortcut_has_modifier, shortcuts_missing_modifier, RemoteAction,
};

#[test]
fn modifiers_are_found_in_any_case_and_spacing() {
    assert!(shortcut_has_modifier("Super+Shift+T"));
    assert!(shortcut_has_modifier("CTRL+K"));
    assert!(shortcut_has_modifier(" control + x"));
    assert!(shortcut_has_modifier("Meta+Up"));
    assert!(shortcut_has_modifier("k+Alt"));
}

#[test]
fn keys_without_modifier() {
    assert!(!shortcut_has_modifier("Up"));
    assert!(!shortcut_has_modifier(""));
    assert!(!shortcut_has_modifier("F7"));
    assert!(!shortcut_has_modifier("Shiftx+K"));
    assert!(!shortcut_has_modifier("+"));
}

#[test]
fn global_shortcuts_without_modifier_are_listed() {
    let v = vec![
        ("up".to_string(), ActionShortcutConfig { shortcut: "Up".to_string(), global: true }),
        ("down".to_string(), ActionShortcutConfig { shortcut: "Down".to_string(), global: false }),
        ("home".to_string(), ActionShortcutConfig { shortcut: "Ctrl+H".to_string(), global: true }),
        ("mute".to_string(), ActionShortcutConfig { shortcut: "  ".to_string(), global: true }),
        ("back".to_string(), ActionShortcutConfig { shortcut: "Backspace".to_string(), global: true }),
    ];
    assert_eq!(shortcuts_missing_modifier(&v), vec!["up".to_string(), "back".to_string()]);
    assert!(shortcuts_missing_modifier(&default_action_shortcuts()).is_empty());
}

#[test]
fn actions_by_id() {
    match RemoteAction::from_id("up") {
        Some(RemoteAction::Button { name }) => assert_eq!(name, "UP"),
        other => panic!("unexpected {:?}", other),
    }
    match RemoteAction::from_id("home") {
        Some(RemoteAction::Button { name }) => assert_eq!(name, "HOME"),
        other => panic!("unexpected {:?}", other),
    }
    assert!(matches!(RemoteAction::from_id("mute"), Some(RemoteAction::SetMute { mute: true })));
    assert!(matches!(RemoteAction::from_id("unmute"), Some(RemoteAction::SetMute { mute: false })));
    assert!(matches!(RemoteAction::from_id("power_on"), Some(RemoteAction::PowerOn)));
    assert!(matches!(RemoteAction::from_id("wake_streaming_device"), Some(RemoteAction::WakeStreamingDevice)));
    assert!(RemoteAction::from_id("teleport").is_none());
}

#[test]
fn inner_size_subtracts_frame() {
    assert_eq!(outer_to_inner_size(316, 409, 16, 9), (300, 400));
    assert_eq!(outer_to_inner_size(10, 5, 16, 9), (0, 0));
    assert_eq!(outer_to_inner_size(300, 400, 0, 0), (300, 400));
}

#[test]
fn global_shortcuts_to_register() {
    let v = vec![
        ("up".to_string(), ActionShortcutConfig { shortcut: "Ctrl+Up".to_string(), global: true }),
        ("down".to_string(), ActionShortcutConfig { shortcut: "Ctrl+Down".to_string(), global: false }),
        ("left".to_string(), ActionShortcutConfig { shortcut: "Left".to_string(), global: true }),
        ("home".to_string(), ActionShortcutConfig { shortcut: "".to_string(), global: true }),
        ("mute".to_string(), ActionShortcutConfig { shortcut: "alt+M".to_string(), global: true }),
    ];
    assert_eq!(
        global_action_shortcuts(&v),
        vec![("up".to_string(), "Ctrl+Up".to_string()), ("mute".to_string(), "alt+M".to_string())]
    );
}

#[test]
fn window_stays_on_monitor() {
    // Centred below the click when there is room.
    assert_eq!(window_position_near(500, 100, 300, 400, 0, 0, 1920, 1080), (350, 100));
    // Near the right edge: pulled left.
    assert_eq!(window_position_near(1900, 100, 300, 400, 0, 0, 1920, 1080), (1620, 100));
    // Near the left edge: pushed right.
    assert_eq!(window_position_near(10, 100, 300, 400, 0, 0, 1920, 1080), (0, 100));
    // Clicked on a bottom tray: shown above the click.
    assert_eq!(window_position_near(500, 1060, 300, 400, 0, 0, 1920, 1080), (350, 660));
    // Second monitor to the right, tall window clamped to its top.
    assert_eq!(window_position_near(2000, 50, 300, 1200, 1920, 0, 1280, 1024), (1920, 0));
}
