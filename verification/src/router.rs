//! Routing a fired hotkey event to the window that should receive it.

use vstd::prelude::*;
use global_hotkey::hotkey::HotKey;
use crate::registry::Registry;

verus! {

/// Which of the two named windows receives an event.
#[derive(Debug, PartialEq, Eq, Structural, Clone, Copy)]
pub enum Target {
    /// The widget overlay window.
    Widget,
    /// The main application window.
    Main,
}

/// Whether a hotkey event is a press or a release.
#[derive(Debug, PartialEq, Eq, Structural, Clone, Copy)]
pub enum KeyState {
    Pressed,
    Released,
}

/// The event name delivered for each kind of hotkey event.
pub open spec fn spec_label(k: KeyState) -> Seq<char> {
    if k is Pressed {
        "shortcut-down"@
    } else {
        "shortcut-up"@
    }
}

/// The event name delivered on a press and on a release.
pub fn event_label(k: KeyState) -> (r: &'static str)
    ensures
        r@ == spec_label(k),
{
    match k {
        KeyState::Pressed => "shortcut-down",
        KeyState::Released => "shortcut-up",
    }
}

/// Target selection: the widget window first, regardless of its visibility;
/// else the main window; else nobody, and the event is dropped without an
/// error.
pub open spec fn spec_route(widget_present: bool, main_present: bool) -> Option<Target> {
    if widget_present {
        Some(Target::Widget)
    } else if main_present {
        Some(Target::Main)
    } else {
        None
    }
}

/// The full routing decision for one fired event: nothing is delivered
/// unless the fired token is the live one, and then exactly one delivery
/// goes to the selected target, under the event's name.
pub open spec fn spec_dispatch(
    token_live: bool,
    k: KeyState,
    widget_present: bool,
    main_present: bool,
) -> Option<(Target, Seq<char>)> {
    if token_live {
        match spec_route(widget_present, main_present) {
            Some(t) => Some((t, spec_label(k))),
            None => None,
        }
    } else {
        None
    }
}

/// Pick the window a delivery goes to, by the fixed priority.
pub fn route_target(widget_present: bool, main_present: bool) -> (t: Option<Target>)
    ensures
        t == spec_route(widget_present, main_present),
{
    if widget_present {
        Some(Target::Widget)
    } else if main_present {
        Some(Target::Main)
    } else {
        None
    }
}

/// Decide one fired hotkey event against the live registration: events for
/// stale or superseded tokens are ignored; a matching event is delivered to
/// exactly one window, under its press or release name.
pub fn dispatch_event(
    reg: &Registry,
    fired: &HotKey,
    k: KeyState,
    widget_present: bool,
    main_present: bool,
) -> (d: Option<(Target, &'static str)>)
    ensures
        ({
            let s = spec_dispatch(
                reg.spec_token() == Some(*fired),
                k,
                widget_present,
                main_present,
            );
            &&& (d is Some) == (s is Some)
            &&& d matches Some(p) ==> (s matches Some(q) && p.0 == q.0 && p.1@ == q.1)
        }),
{
    if !reg.token_matches(fired) {
        return None;
    }
    match route_target(widget_present, main_present) {
        Some(t) => Some((t, event_label(k))),
        None => None,
    }
}

/// Target priority: with both windows present the widget alone receives the
/// event; with only the main window present, the main window; with neither,
/// nobody.
pub proof fn lemma_target_priority(widget_present: bool, main_present: bool)
    ensures
        widget_present ==> spec_route(widget_present, main_present) == Some(Target::Widget),
        !widget_present && main_present ==> spec_route(widget_present, main_present) == Some(
            Target::Main,
        ),
        !widget_present && !main_present ==> spec_route(widget_present, main_present) is None,
{
}

/// Press/release symmetry: at one routing instant — same live token, same
/// windows — a press is delivered exactly when the release is, both to the
/// same target, the press as "shortcut-down" and the release as
/// "shortcut-up".
pub proof fn lemma_press_release_symmetry(
    token_live: bool,
    widget_present: bool,
    main_present: bool,
)
    ensures
        ({
            let down = spec_dispatch(token_live, KeyState::Pressed, widget_present, main_present);
            let up = spec_dispatch(token_live, KeyState::Released, widget_present, main_present);
            &&& (down is Some) == (up is Some)
            &&& down matches Some(p) ==> (up matches Some(q) && q.0 == p.0 && p.1
                == "shortcut-down"@ && q.1 == "shortcut-up"@)
        }),
{
}

} // verus!
