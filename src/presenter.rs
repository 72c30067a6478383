use vstd::prelude::*;

use crate::badge::Transition;
use crate::geometry::{
    compute_geometry, fixed_anchor, geometry_of, move_window_to_fixed, DisplayBounds,
    DisplayMode, Position, Size, WindowConfig,
};
use crate::ime::ImeState;

verus! {

/// Presentation settings shared by the command surface and the monitor.
#[derive(Debug, Clone, Copy, PartialEq, Eq, Structural)]
pub struct Settings {
    pub window: WindowConfig,
    pub mode: DisplayMode,
    /// The badge has a position of its own (persisted or moved by the user).
    pub position_set: bool,
}

impl Settings {
    pub fn new() -> (r: Settings)
        ensures
            r.window.width == 260,
            r.window.height == 120,
            r.mode == DisplayMode::Badge,
            !r.position_set,
    {
        Settings { window: WindowConfig::new(), mode: DisplayMode::Badge, position_set: false }
    }

    /// Records that the badge now has a position of its own.
    pub fn mark_position_set(&mut self)
        ensures
            final(self).position_set,
            final(self).window == old(self).window,
            final(self).mode == old(self).mode,
    {
        self.position_set = true;
    }
}

/// Window changes to carry out; `None` leaves that aspect as it is.
#[derive(Debug, Clone, Copy, PartialEq, Eq, Structural)]
pub struct WindowPlan {
    pub show: bool,
    pub resize: Option<Size>,
    pub position: Option<Position>,
}

/// The notification sent to the UI layer.
#[derive(Debug, Clone, PartialEq, Eq)]
pub struct BadgeEvent {
    pub visible: bool,
    pub state: ImeState,
    pub reason: String,
}

pub open spec fn config_size(c: WindowConfig) -> Size {
    Size { width: c.width, height: c.height }
}

/// Bar-mode changes; nothing in badge mode or without display bounds.
pub open spec fn mode_plan(mode: DisplayMode, bounds: Option<DisplayBounds>, config: WindowConfig) -> WindowPlan {
    match bounds {
        Some(b) if mode != DisplayMode::Badge => WindowPlan {
            show: false,
            resize: Some(geometry_of(b, mode, config).size),
            position: geometry_of(b, mode, config).position,
        },
        _ => WindowPlan { show: false, resize: None, position: None },
    }
}

/// Changes that accompany a badge notification.
pub open spec fn presentation(settings: Settings, visible: bool, bounds: Option<DisplayBounds>) -> WindowPlan {
    if settings.mode == DisplayMode::Badge {
        WindowPlan {
            show: true,
            resize: Some(config_size(settings.window)),
            position: match bounds {
                Some(b) if visible && !settings.position_set => Some(fixed_anchor(b, settings.window)),
                _ => None,
            },
        }
    } else {
        WindowPlan { show: true, ..mode_plan(settings.mode, bounds, settings.window) }
    }
}

/// Window changes that put the window into a presentation mode. Badge mode
/// changes nothing here; without display bounds nothing is changed either.
pub fn apply_display_mode(mode: DisplayMode, bounds: Option<DisplayBounds>, config: WindowConfig) -> (r: WindowPlan)
    ensures
        r == mode_plan(mode, bounds, config),
{
    match bounds {
        Some(b) => {
            if mode == DisplayMode::Badge {
                WindowPlan { show: false, resize: None, position: None }
            } else {
                let g = compute_geometry(b, mode, config);
                WindowPlan { show: false, resize: Some(g.size), position: g.position }
            }
        },
        None => WindowPlan { show: false, resize: None, position: None },
    }
}

/// Stores a new badge size and returns the size to give the window.
pub fn set_window_size(settings: &mut Settings, width: u32, height: u32) -> (r: Size)
    ensures
        final(settings).window == (WindowConfig { width, height }),
        final(settings).mode == old(settings).mode,
        final(settings).position_set == old(settings).position_set,
        r == (Size { width, height }),
{
    settings.window = WindowConfig { width, height };
    Size { width, height }
}

fn text_is(s: &str, lit: &str) -> (r: bool)
    ensures
        r == (s@ == lit@),
{
    s.to_owned() == lit.to_owned()
}

/// The mode named by the settings UI: "bar" with a side ("left", "top",
/// "bottom", anything else meaning right), or the badge otherwise.
pub open spec fn mode_named(mode: Seq<char>, bar_position: Seq<char>) -> DisplayMode {
    if mode != "bar"@ {
        DisplayMode::Badge
    } else if bar_position == "left"@ {
        DisplayMode::BarLeft
    } else if bar_position == "top"@ {
        DisplayMode::BarTop
    } else if bar_position == "bottom"@ {
        DisplayMode::BarBottom
    } else {
        DisplayMode::BarRight
    }
}

pub fn parse_display_mode(mode: &str, bar_position: &str) -> (r: DisplayMode)
    ensures
        r == mode_named(mode@, bar_position@),
{
    if !text_is(mode, "bar") {
        DisplayMode::Badge
    } else if text_is(bar_position, "left") {
        DisplayMode::BarLeft
    } else if text_is(bar_position, "top") {
        DisplayMode::BarTop
    } else if text_is(bar_position, "bottom") {
        DisplayMode::BarBottom
    } else {
        DisplayMode::BarRight
    }
}

/// Whether a bar side is one of the four names the settings UI uses.
pub open spec fn side_named(bar_position: Seq<char>) -> bool {
    bar_position == "left"@ || bar_position == "right"@ || bar_position == "top"@
        || bar_position == "bottom"@
}

/// The mode put into effect at once by a settings change: the named bar
/// mode where the side is named exactly, the badge otherwise.
pub open spec fn mode_applied(mode: Seq<char>, bar_position: Seq<char>) -> DisplayMode {
    if mode == "bar"@ && side_named(bar_position) {
        mode_named(mode, bar_position)
    } else {
        DisplayMode::Badge
    }
}

/// Stores the mode named by the settings UI and returns the window changes
/// to make at once. An unrecognised bar side is stored as the right side,
/// but changes the window only once a notification presents it.
pub fn set_display_mode(
    settings: &mut Settings,
    mode: &str,
    bar_position: &str,
    bounds: Option<DisplayBounds>,
) -> (r: WindowPlan)
    ensures
        final(settings).mode == mode_named(mode@, bar_position@),
        final(settings).window == old(settings).window,
        final(settings).position_set == old(settings).position_set,
        r == mode_plan(mode_applied(mode@, bar_position@), bounds, old(settings).window),
{
    let m = parse_display_mode(mode, bar_position);
    settings.mode = m;
    let named = text_is(bar_position, "left") || text_is(bar_position, "right") || text_is(
        bar_position,
        "top",
    ) || text_is(bar_position, "bottom");
    let applied = if text_is(mode, "bar") && named {
        m
    } else {
        DisplayMode::Badge
    };
    apply_display_mode(applied, bounds, settings.window)
}

/// The notification for the UI layer and the window changes that go with it.
pub fn emit_badge(
    settings: &Settings,
    visible: bool,
    state: ImeState,
    reason: &str,
    bounds: Option<DisplayBounds>,
) -> (r: (BadgeEvent, WindowPlan))
    ensures
        r.0.visible == visible,
        r.0.state == state,
        r.0.reason@ == reason@,
        r.1 == presentation(*settings, visible, bounds),
{
    let event = BadgeEvent { visible, state, reason: reason.to_owned() };
    let plan = if settings.mode == DisplayMode::Badge {
        let position = match bounds {
            Some(b) => {
                if visible && !settings.position_set {
                    Some(move_window_to_fixed(b, settings.window))
                } else {
                    None
                }
            },
            None => None,
        };
        WindowPlan {
            show: true,
            resize: Some(Size { width: settings.window.width, height: settings.window.height }),
            position,
        }
    } else {
        let p = apply_display_mode(settings.mode, bounds, settings.window);
        WindowPlan { show: true, resize: p.resize, position: p.position }
    };
    (event, plan)
}

/// What a transition makes visible: a visible badge notification for the
/// new state with reason "ime", and the window changes that go with it (in
/// badge mode the window is sized back to the configured badge size).
pub fn on_transition(settings: &Settings, t: Transition, bounds: Option<DisplayBounds>) -> (r: (BadgeEvent, WindowPlan))
    ensures
        r.0.visible,
        r.0.state == t.state,
        r.0.reason@ == "ime"@,
        r.1 == presentation(*settings, true, bounds),
        settings.mode == DisplayMode::Badge ==> r.1.resize == Some(config_size(settings.window)),
{
    emit_badge(settings, true, t.state, "ime", bounds)
}

} // verus!
