use hotkey_widget::desktop::{menu_event, Desktop, TrayEvent, WindowAction};
use hotkey_widget::layout::widget_position;
use hotkey_widget::router::Target;

#[test]
fn widget_position_centers_above_the_bottom_edge() {
    assert_eq!(widget_position(1920, 1080, 25), (860, 1015));
    assert_eq!(widget_position(1920, 1080, 15), (860, 1025));
}

#[test]
fn widget_position_on_a_screen_narrower_than_the_widget() {
    assert_eq!(widget_position(100, 1080, 25), (-50, 1015));
}

#[test]
fn widget_position_rounds_toward_zero() {
    assert_eq!(widget_position(101, 1080, 25).0, -49);
    assert_eq!(widget_position(301, 1080, 25).0, 50);
}

#[test]
fn widget_position_on_a_screen_shorter_than_the_widget() {
    assert_eq!(widget_position(1920, 30, 25), (860, -35));
}

#[test]
fn opening_the_widget_positions_shows_and_focuses_it() {
    let mut d = Desktop::new(true, true);
    let acts = d.open_widget(Some((1920, 1080)));
    assert_eq!(
        acts,
        vec![
            WindowAction::Move(Target::Widget, 860, 1015),
            WindowAction::Show(Target::Widget),
            WindowAction::Focus(Target::Widget),
        ]
    );
    assert!(d.widget.visible);
    assert!(d.widget.focused);
    assert_eq!(d.widget.pos, Some((860, 1015)));
}

#[test]
fn opening_the_widget_without_a_monitor_size_skips_positioning() {
    let mut d = Desktop::new(true, true);
    let acts = d.open_widget(None);
    assert_eq!(
        acts,
        vec![WindowAction::Show(Target::Widget), WindowAction::Focus(Target::Widget)]
    );
    assert_eq!(d.widget.pos, None);
}

#[test]
fn opening_an_absent_widget_is_a_no_op() {
    let mut d = Desktop::new(true, false);
    let acts = d.open_widget(Some((1920, 1080)));
    assert!(acts.is_empty());
    assert!(!d.widget.visible);
}

#[test]
fn startup_shows_the_widget_without_focusing_it() {
    let mut d = Desktop::new(true, true);
    let acts = d.startup_widget(Some((1920, 1080)));
    assert_eq!(
        acts,
        vec![
            WindowAction::Move(Target::Widget, 860, 1025),
            WindowAction::Show(Target::Widget),
        ]
    );
    assert!(d.widget.visible);
    assert!(!d.widget.focused);
}

#[test]
fn opening_the_main_window_shows_and_focuses_it() {
    let mut d = Desktop::new(true, true);
    let acts = d.open_main();
    assert_eq!(
        acts,
        vec![WindowAction::Show(Target::Main), WindowAction::Focus(Target::Main)]
    );
    assert!(d.main.visible);
    assert!(d.main.focused);
}

#[test]
fn opening_an_absent_main_window_is_a_no_op() {
    let mut d = Desktop::new(false, true);
    let acts = d.open_main();
    assert!(acts.is_empty());
    assert!(!d.main.visible);
}

#[test]
fn exit_requests_hide_the_main_window_and_never_stop_the_process() {
    let mut d = Desktop::new(true, true);
    d.open_main();
    let acts = d.handle_exit_request();
    assert_eq!(acts, vec![WindowAction::Hide(Target::Main)]);
    assert!(!d.main.visible);
    assert!(d.running);
    // a second request changes nothing further and still keeps it running
    let acts = d.handle_exit_request();
    assert_eq!(acts, vec![WindowAction::Hide(Target::Main)]);
    assert!(!d.main.visible);
    assert!(d.running);
}

#[test]
fn only_the_quit_entry_ends_the_process() {
    let mut d = Desktop::new(true, true);
    let acts = d.handle_tray_event(TrayEvent::MenuShow);
    assert_eq!(
        acts,
        vec![WindowAction::Show(Target::Main), WindowAction::Focus(Target::Main)]
    );
    assert!(d.running);
    let acts = d.handle_tray_event(TrayEvent::IconClick);
    assert_eq!(
        acts,
        vec![WindowAction::Show(Target::Main), WindowAction::Focus(Target::Main)]
    );
    assert!(d.running);
    let acts = d.handle_tray_event(TrayEvent::Other);
    assert!(acts.is_empty());
    assert!(d.running);
    let acts = d.handle_tray_event(TrayEvent::MenuQuit);
    assert_eq!(acts, vec![WindowAction::Exit]);
    assert!(!d.running);
}

#[test]
fn menu_identifiers_map_to_their_signals() {
    assert_eq!(menu_event(&String::from("quit")), TrayEvent::MenuQuit);
    assert_eq!(menu_event(&String::from("show")), TrayEvent::MenuShow);
    assert_eq!(menu_event(&String::from("about")), TrayEvent::Other);
}
