//! The two named windows, the tray signals, and the exit-intercept policy:
//! the process stays tray-resident until an explicit quit.

use vstd::prelude::*;
use crate::layout::{widget_position, spec_widget_x, WIDGET_HEIGHT, REOPEN_MARGIN_BOTTOM,
    STARTUP_MARGIN_BOTTOM};
use crate::router::Target;

verus! {

/// What the model knows of one named window.
#[verifier::ext_equal]
pub struct WindowModel {
    /// Whether the window exists at all; lookups of an absent window make
    /// every operation a no-op, never an error.
    pub present: bool,
    /// Whether the window is shown.
    pub visible: bool,
    /// Whether the window was last given input focus.
    pub focused: bool,
    /// The last position applied to the window, in physical pixels.
    pub pos: Option<(i32, i32)>,
}

/// One instruction to the windowing layer.
#[derive(Debug, PartialEq, Eq, Structural, Clone, Copy)]
pub enum WindowAction {
    /// Move the window to a physical position.
    Move(Target, i32, i32),
    /// Show the window.
    Show(Target),
    /// Give the window input focus.
    Focus(Target),
    /// Hide the window.
    Hide(Target),
    /// End the process.
    Exit,
}

/// A signal from the tray icon.
#[derive(Debug, PartialEq, Eq, Structural, Clone, Copy)]
pub enum TrayEvent {
    /// The menu's quit entry.
    MenuQuit,
    /// The menu's show entry.
    MenuShow,
    /// A click on the tray icon itself.
    IconClick,
    /// Anything else the tray reports.
    Other,
}

/// The desktop as this subsystem sees it: the two windows and whether the
/// process is still meant to run.
#[verifier::ext_equal]
pub struct Desktop {
    pub main: WindowModel,
    pub widget: WindowModel,
    pub running: bool,
}

/// The observable effect of showing and focusing the main window — the
/// tray's show entry, a tray click, and the open command all resolve to it.
pub open spec fn spec_show_main(d: Desktop) -> Desktop {
    if d.main.present {
        Desktop { main: WindowModel { visible: true, focused: true, ..d.main }, ..d }
    } else {
        d
    }
}

/// The observable effect of one intercepted exit request: the main window
/// is hidden; the process keeps running.
pub open spec fn spec_exit_intercept(d: Desktop) -> Desktop {
    Desktop { main: WindowModel { visible: false, ..d.main }, ..d }
}

/// Exit requests applied `n` times over.
pub open spec fn spec_exit_intercepts(d: Desktop, n: nat) -> Desktop
    decreases n,
{
    if n == 0 {
        d
    } else {
        spec_exit_intercept(spec_exit_intercepts(d, (n - 1) as nat))
    }
}

/// Map a tray menu identifier to its signal.
pub fn menu_event(id: &String) -> (ev: TrayEvent)
    ensures
        id@ == "quit"@ ==> ev == TrayEvent::MenuQuit,
        id@ == "show"@ ==> ev == TrayEvent::MenuShow,
        id@ != "quit"@ && id@ != "show"@ ==> ev == TrayEvent::Other,
{
    proof {
        assert("quit"@ != "show"@) by {
            reveal_strlit("quit");
            reveal_strlit("show");
            assert("quit"@[0] == 'q');
            assert("show"@[0] == 's');
        }
    }
    let quit = String::from_str("quit");
    if *id == quit {
        return TrayEvent::MenuQuit;
    }
    let show = String::from_str("show");
    if *id == show {
        return TrayEvent::MenuShow;
    }
    TrayEvent::Other
}

impl Desktop {
    /// A fresh session: the windows exist as the UI layer created them,
    /// nothing shown or placed by this subsystem yet, the process running.
    pub fn new(main_present: bool, widget_present: bool) -> (d: Desktop)
        ensures
            d.main.present == main_present,
            d.widget.present == widget_present,
            !d.main.visible && !d.widget.visible,
            !d.main.focused && !d.widget.focused,
            d.main.pos is None && d.widget.pos is None,
            d.running,
    {
        Desktop {
            main: WindowModel { present: main_present, visible: false, focused: false, pos: None },
            widget: WindowModel {
                present: widget_present,
                visible: false,
                focused: false,
                pos: None,
            },
            running: true,
        }
    }

    /// Open the widget overlay: position it at the bottom center of the
    /// given monitor, then show it and give it focus. Without a monitor
    /// size the position is left as it was; without the window the whole
    /// call is a no-op.
    pub fn open_widget(&mut self, monitor: Option<(u32, u32)>) -> (acts: Vec<WindowAction>)
        requires
            monitor matches Some(m) ==> m.0 <= i32::MAX && m.1 <= i32::MAX,
        ensures
            final(self).main == old(self).main,
            final(self).running == old(self).running,
            final(self).widget.present == old(self).widget.present,
            !old(self).widget.present ==> final(self).widget == old(self).widget && acts@
                == Seq::<WindowAction>::empty(),
            old(self).widget.present ==> final(self).widget.visible && final(self).widget.focused,
            old(self).widget.present && monitor is None ==> final(self).widget.pos == old(
                self,
            ).widget.pos && acts@ == seq![
                WindowAction::Show(Target::Widget),
                WindowAction::Focus(Target::Widget),
            ],
            old(self).widget.present ==> (monitor matches Some(m) ==> (
            final(self).widget.pos matches Some(p) && p.0 == spec_widget_x(m.0 as int) && p.1 == m.1
                - WIDGET_HEIGHT - REOPEN_MARGIN_BOTTOM && acts@ == seq![
                WindowAction::Move(Target::Widget, p.0, p.1),
                WindowAction::Show(Target::Widget),
                WindowAction::Focus(Target::Widget),
            ])),
    {
        let mut acts: Vec<WindowAction> = Vec::new();
        if !self.widget.present {
            assert(acts@ =~= Seq::<WindowAction>::empty());
            return acts;
        }
        if let Some((w, h)) = monitor {
            let (x, y) = widget_position(w, h, REOPEN_MARGIN_BOTTOM);
            self.widget.pos = Some((x, y));
            acts.push(WindowAction::Move(Target::Widget, x, y));
        }
        self.widget.visible = true;
        self.widget.focused = true;
        acts.push(WindowAction::Show(Target::Widget));
        acts.push(WindowAction::Focus(Target::Widget));
        proof {
            if monitor is Some {
                let p = final(self).widget.pos->0;
                assert(acts@ =~= seq![
                    WindowAction::Move(Target::Widget, p.0, p.1),
                    WindowAction::Show(Target::Widget),
                    WindowAction::Focus(Target::Widget),
                ]);
            } else {
                assert(acts@ =~= seq![
                    WindowAction::Show(Target::Widget),
                    WindowAction::Focus(Target::Widget),
                ]);
            }
        }
        acts
    }

    /// The startup sequence: the widget is positioned and shown
    /// unconditionally as the process comes up, as a persistent overlay —
    /// but not given focus.
    pub fn startup_widget(&mut self, monitor: Option<(u32, u32)>) -> (acts: Vec<WindowAction>)
        requires
            monitor matches Some(m) ==> m.0 <= i32::MAX && m.1 <= i32::MAX,
        ensures
            final(self).main == old(self).main,
            final(self).running == old(self).running,
            final(self).widget.present == old(self).widget.present,
            final(self).widget.focused == old(self).widget.focused,
            !old(self).widget.present ==> final(self).widget == old(self).widget && acts@
                == Seq::<WindowAction>::empty(),
            old(self).widget.present ==> final(self).widget.visible,
            old(self).widget.present && monitor is None ==> final(self).widget.pos == old(
                self,
            ).widget.pos && acts@ == seq![WindowAction::Show(Target::Widget)],
            old(self).widget.present ==> (monitor matches Some(m) ==> (
            final(self).widget.pos matches Some(p) && p.0 == spec_widget_x(m.0 as int) && p.1 == m.1
                - WIDGET_HEIGHT - STARTUP_MARGIN_BOTTOM && acts@ == seq![
                WindowAction::Move(Target::Widget, p.0, p.1),
                WindowAction::Show(Target::Widget),
            ])),
    {
        let mut acts: Vec<WindowAction> = Vec::new();
        if !self.widget.present {
            assert(acts@ =~= Seq::<WindowAction>::empty());
            return acts;
        }
        if let Some((w, h)) = monitor {
            let (x, y) = widget_position(w, h, STARTUP_MARGIN_BOTTOM);
            self.widget.pos = Some((x, y));
            acts.push(WindowAction::Move(Target::Widget, x, y));
        }
        self.widget.visible = true;
        acts.push(WindowAction::Show(Target::Widget));
        proof {
            if monitor is Some {
                let p = final(self).widget.pos->0;
                assert(acts@ =~= seq![
                    WindowAction::Move(Target::Widget, p.0, p.1),
                    WindowAction::Show(Target::Widget),
                ]);
            } else {
                assert(acts@ =~= seq![WindowAction::Show(Target::Widget)]);
            }
        }
        acts
    }

    /// Open the main window: show it and give it focus; a no-op without it.
    pub fn open_main(&mut self) -> (acts: Vec<WindowAction>)
        ensures
            *final(self) == spec_show_main(*old(self)),
            old(self).main.present ==> acts@ == seq![
                WindowAction::Show(Target::Main),
                WindowAction::Focus(Target::Main),
            ],
            !old(self).main.present ==> acts@ == Seq::<WindowAction>::empty(),
    {
        let mut acts: Vec<WindowAction> = Vec::new();
        if self.main.present {
            self.main.visible = true;
            self.main.focused = true;
            acts.push(WindowAction::Show(Target::Main));
            acts.push(WindowAction::Focus(Target::Main));
            assert(acts@ =~= seq![
                WindowAction::Show(Target::Main),
                WindowAction::Focus(Target::Main),
            ]);
        } else {
            assert(acts@ =~= Seq::<WindowAction>::empty());
        }
        acts
    }

    /// Intercept a request to end the process: the main window is hidden
    /// instead, and the process keeps running, tray-resident, until an
    /// explicit quit.
    pub fn handle_exit_request(&mut self) -> (acts: Vec<WindowAction>)
        ensures
            *final(self) == spec_exit_intercept(*old(self)),
            final(self).running == old(self).running,
            old(self).main.present ==> acts@ == seq![WindowAction::Hide(Target::Main)],
            !old(self).main.present ==> acts@ == Seq::<WindowAction>::empty(),
    {
        self.main.visible = false;
        let mut acts: Vec<WindowAction> = Vec::new();
        if self.main.present {
            acts.push(WindowAction::Hide(Target::Main));
            assert(acts@ =~= seq![WindowAction::Hide(Target::Main)]);
        } else {
            assert(acts@ =~= Seq::<WindowAction>::empty());
        }
        acts
    }

    /// React to a tray signal: the quit entry ends the process; the show
    /// entry and a plain click both show and focus the main window;
    /// anything else changes nothing.
    pub fn handle_tray_event(&mut self, ev: TrayEvent) -> (acts: Vec<WindowAction>)
        ensures
            ev == TrayEvent::MenuQuit ==> !final(self).running && final(self).main == old(
                self,
            ).main && final(self).widget == old(self).widget && acts@ == seq![WindowAction::Exit],
            ev == TrayEvent::MenuShow || ev == TrayEvent::IconClick ==> *final(self)
                == spec_show_main(*old(self)) && (old(self).main.present ==> acts@ == seq![
                WindowAction::Show(Target::Main),
                WindowAction::Focus(Target::Main),
            ]) && (!old(self).main.present ==> acts@ == Seq::<WindowAction>::empty()),
            ev == TrayEvent::Other ==> *final(self) == *old(self) && acts@
                == Seq::<WindowAction>::empty(),
    {
        match ev {
            TrayEvent::MenuQuit => {
                self.running = false;
                let mut acts: Vec<WindowAction> = Vec::new();
                acts.push(WindowAction::Exit);
                assert(acts@ =~= seq![WindowAction::Exit]);
                acts
            }
            TrayEvent::MenuShow | TrayEvent::IconClick => self.open_main(),
            TrayEvent::Other => {
                let acts: Vec<WindowAction> = Vec::new();
                assert(acts@ =~= Seq::<WindowAction>::empty());
                acts
            }
        }
    }
}

/// Exit-intercept idempotence: any number of exit requests, without an
/// explicit quit, never stops the process, and leaves exactly the state one
/// request leaves — the main window hidden.
pub proof fn lemma_exit_intercept_idempotent(d: Desktop, n: nat)
    requires
        n >= 1,
    ensures
        spec_exit_intercepts(d, n) == spec_exit_intercept(d),
        spec_exit_intercepts(d, n).running == d.running,
        !spec_exit_intercepts(d, n).main.visible,
    decreases n,
{
    reveal_with_fuel(spec_exit_intercepts, 2);
    if n > 1 {
        lemma_exit_intercept_idempotent(d, (n - 1) as nat);
    }
}

} // verus!
