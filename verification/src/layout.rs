//! Screen placement of the widget overlay.

use vstd::prelude::*;

verus! {

/// Fixed width of the widget overlay, in physical pixels.
pub const WIDGET_WIDTH: u32 = 200;

/// Fixed height of the widget overlay, in physical pixels.
pub const WIDGET_HEIGHT: u32 = 40;

/// Bottom margin when the widget is reopened on request.
pub const REOPEN_MARGIN_BOTTOM: u32 = 25;

/// Bottom margin when the widget is first shown at startup.
pub const STARTUP_MARGIN_BOTTOM: u32 = 15;

/// The horizontal position that centers the widget on a screen of the given
/// width; negative when the screen is narrower than the widget, rounding
/// toward zero either way.
pub open spec fn spec_widget_x(screen_w: int) -> int {
    if screen_w >= WIDGET_WIDTH {
        (screen_w - WIDGET_WIDTH) / 2
    } else {
        -((WIDGET_WIDTH - screen_w) / 2)
    }
}

/// Position of the widget overlay on a screen of the given physical size:
/// horizontally centered, a fixed margin above the bottom edge.
pub fn widget_position(screen_w: u32, screen_h: u32, margin_bottom: u32) -> (pos: (i32, i32))
    requires
        screen_w <= i32::MAX,
        screen_h <= i32::MAX,
        margin_bottom <= 1000,
    ensures
        pos.0 == spec_widget_x(screen_w as int),
        pos.1 == screen_h - WIDGET_HEIGHT - margin_bottom,
{
    let x: i32 = if screen_w >= WIDGET_WIDTH {
        ((screen_w - WIDGET_WIDTH) / 2) as i32
    } else {
        -(((WIDGET_WIDTH - screen_w) / 2) as i32)
    };
    let y: i32 = screen_h as i32 - WIDGET_HEIGHT as i32 - margin_bottom as i32;
    (x, y)
}

} // verus!
