use global_hotkey::hotkey::HotKey;
use hotkey_widget::registry::Registry;
use hotkey_widget::router::{dispatch_event, event_label, route_target, KeyState, Target};

fn registry_bound_to(desc: &str) -> Registry {
    let mut reg = Registry::new();
    reg.register_shortcut(String::from(desc), true, true).unwrap();
    reg
}

#[test]
fn widget_wins_when_both_windows_exist() {
    assert_eq!(route_target(true, true), Some(Target::Widget));
}

#[test]
fn main_receives_the_event_when_the_widget_is_missing() {
    assert_eq!(route_target(false, true), Some(Target::Main));
}

#[test]
fn no_window_means_no_delivery_and_no_error() {
    assert_eq!(route_target(false, false), None);
}

#[test]
fn press_and_release_have_their_own_event_names() {
    assert_eq!(event_label(KeyState::Pressed), "shortcut-down");
    assert_eq!(event_label(KeyState::Released), "shortcut-up");
}

#[test]
fn press_and_release_reach_the_same_target() {
    let reg = registry_bound_to("Ctrl+Shift+F9");
    let fired: HotKey = "Ctrl+Shift+F9".parse().unwrap();
    let down = dispatch_event(&reg, &fired, KeyState::Pressed, true, true);
    let up = dispatch_event(&reg, &fired, KeyState::Released, true, true);
    assert_eq!(down, Some((Target::Widget, "shortcut-down")));
    assert_eq!(up, Some((Target::Widget, "shortcut-up")));
}

#[test]
fn dispatch_follows_the_target_priority() {
    let reg = registry_bound_to("Alt+Space");
    let fired: HotKey = "Alt+Space".parse().unwrap();
    let d = dispatch_event(&reg, &fired, KeyState::Pressed, false, true);
    assert_eq!(d, Some((Target::Main, "shortcut-down")));
    let d = dispatch_event(&reg, &fired, KeyState::Pressed, false, false);
    assert_eq!(d, None);
}

#[test]
fn stale_tokens_are_ignored() {
    let reg = registry_bound_to("Ctrl+Shift+F9");
    let stale: HotKey = "Alt+Space".parse().unwrap();
    let d = dispatch_event(&reg, &stale, KeyState::Pressed, true, true);
    assert_eq!(d, None);
}

#[test]
fn nothing_is_delivered_without_a_live_binding() {
    let reg = Registry::new();
    let fired: HotKey = "Ctrl+Shift+F9".parse().unwrap();
    let d = dispatch_event(&reg, &fired, KeyState::Pressed, true, true);
    assert_eq!(d, None);
}

#[test]
fn a_superseded_binding_no_longer_matches() {
    let mut reg = Registry::new();
    reg.register_shortcut(String::from("Ctrl+Shift+F9"), true, true).unwrap();
    reg.register_shortcut(String::from("Alt+Space"), true, true).unwrap();
    let old: HotKey = "Ctrl+Shift+F9".parse().unwrap();
    let new: HotKey = "Alt+Space".parse().unwrap();
    assert_eq!(dispatch_event(&reg, &old, KeyState::Pressed, true, true), None);
    assert_eq!(
        dispatch_event(&reg, &new, KeyState::Pressed, true, true),
        Some((Target::Widget, "shortcut-down"))
    );
}
