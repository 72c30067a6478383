use vstd::prelude::*;

verus! {

/// Inset of the badge's fixed anchor from the display's top-right corner.
pub const WINDOW_MARGIN: u32 = 24;

/// Thickness of the indicator in every bar mode.
pub const BAR_THICKNESS: u32 = 10;

/// How the indicator window is presented.
#[derive(Debug, Clone, Copy, PartialEq, Eq, Structural)]
pub enum DisplayMode {
    Badge,
    BarRight,
    BarLeft,
    BarTop,
    BarBottom,
}

/// Pixel size of the active display.
#[derive(Debug, Clone, Copy, PartialEq, Eq, Structural)]
pub struct DisplayBounds {
    pub width: u32,
    pub height: u32,
}

/// Requested size of the badge window, in device pixels.
#[derive(Debug, Clone, Copy, PartialEq, Eq, Structural)]
pub struct WindowConfig {
    pub width: u32,
    pub height: u32,
}

impl WindowConfig {
    pub fn new() -> (r: WindowConfig)
        ensures
            r.width == 260,
            r.height == 120,
    {
        WindowConfig { width: 260, height: 120 }
    }
}

/// A window size.
#[derive(Debug, Clone, Copy, PartialEq, Eq, Structural)]
pub struct Size {
    pub width: u32,
    pub height: u32,
}

/// A window position; always non-negative.
#[derive(Debug, Clone, Copy, PartialEq, Eq, Structural)]
pub struct Position {
    pub x: u32,
    pub y: u32,
}

/// Target size and, except in badge mode, position.
#[derive(Debug, Clone, Copy, PartialEq, Eq, Structural)]
pub struct Geometry {
    pub size: Size,
    pub position: Option<Position>,
}

/// `a - b`, clamped to zero.
pub open spec fn sub_clamped(a: int, b: int) -> int {
    if a >= b {
        a - b
    } else {
        0
    }
}

pub open spec fn bar_position(bounds: DisplayBounds, mode: DisplayMode) -> (int, int) {
    match mode {
        DisplayMode::BarRight => (sub_clamped(bounds.width as int, BAR_THICKNESS as int), 0),
        DisplayMode::BarBottom => (0, sub_clamped(bounds.height as int, BAR_THICKNESS as int)),
        _ => (0, 0),
    }
}

pub open spec fn geometry_of(bounds: DisplayBounds, mode: DisplayMode, config: WindowConfig) -> Geometry {
    match mode {
        DisplayMode::Badge => Geometry {
            size: Size { width: config.width, height: config.height },
            position: None,
        },
        DisplayMode::BarRight | DisplayMode::BarLeft => Geometry {
            size: Size { width: BAR_THICKNESS, height: bounds.height },
            position: Some(Position {
                x: bar_position(bounds, mode).0 as u32,
                y: bar_position(bounds, mode).1 as u32,
            }),
        },
        DisplayMode::BarTop | DisplayMode::BarBottom => Geometry {
            size: Size { width: bounds.width, height: BAR_THICKNESS },
            position: Some(Position {
                x: bar_position(bounds, mode).0 as u32,
                y: bar_position(bounds, mode).1 as u32,
            }),
        },
    }
}

/// The badge's fixed anchor: top-right corner, inset by the margin.
pub open spec fn fixed_anchor(bounds: DisplayBounds, config: WindowConfig) -> Position {
    Position {
        x: sub_clamped(bounds.width as int, config.width as int + WINDOW_MARGIN as int) as u32,
        y: WINDOW_MARGIN,
    }
}

fn sub_or_zero(a: u32, b: u32) -> (r: u32)
    ensures
        r as int == sub_clamped(a as int, b as int),
{
    if a >= b {
        a - b
    } else {
        0
    }
}

/// Size and position of the window for a presentation mode on a display.
/// Badge mode only sizes the window; its placement is `badge_position`.
pub fn compute_geometry(bounds: DisplayBounds, mode: DisplayMode, config: WindowConfig) -> (r: Geometry)
    ensures
        r == geometry_of(bounds, mode, config),
{
    match mode {
        DisplayMode::Badge => Geometry {
            size: Size { width: config.width, height: config.height },
            position: None,
        },
        DisplayMode::BarRight => Geometry {
            size: Size { width: BAR_THICKNESS, height: bounds.height },
            position: Some(Position { x: sub_or_zero(bounds.width, BAR_THICKNESS), y: 0 }),
        },
        DisplayMode::BarLeft => Geometry {
            size: Size { width: BAR_THICKNESS, height: bounds.height },
            position: Some(Position { x: 0, y: 0 }),
        },
        DisplayMode::BarTop => Geometry {
            size: Size { width: bounds.width, height: BAR_THICKNESS },
            position: Some(Position { x: 0, y: 0 }),
        },
        DisplayMode::BarBottom => Geometry {
            size: Size { width: bounds.width, height: BAR_THICKNESS },
            position: Some(Position { x: 0, y: sub_or_zero(bounds.height, BAR_THICKNESS) }),
        },
    }
}

/// The badge's fixed anchor position on a display.
pub fn move_window_to_fixed(bounds: DisplayBounds, config: WindowConfig) -> (r: Position)
    ensures
        r == fixed_anchor(bounds, config),
{
    let x: u32 = if (bounds.width as u64) >= (config.width as u64) + (WINDOW_MARGIN as u64) {
        bounds.width - config.width - WINDOW_MARGIN
    } else {
        0
    };
    Position { x, y: WINDOW_MARGIN }
}

/// Where the badge goes: a persisted position wins over the fixed anchor.
pub fn badge_position(bounds: DisplayBounds, config: WindowConfig, persisted: Option<Position>) -> (r: Position)
    ensures
        r == match persisted {
            Some(p) => p,
            None => fixed_anchor(bounds, config),
        },
{
    match persisted {
        Some(p) => p,
        None => move_window_to_fixed(bounds, config),
    }
}

/// Geometry depends on its arguments alone: two computations from the same
/// bounds, mode and window size agree.
pub proof fn lemma_geometry_deterministic(
    bounds: DisplayBounds,
    mode: DisplayMode,
    config: WindowConfig,
    g1: Geometry,
    g2: Geometry,
)
    requires
        g1 == geometry_of(bounds, mode, config),
        g2 == geometry_of(bounds, mode, config),
    ensures
        g1 == g2,
{
}

/// In every bar mode both position components are non-negative: each is the
/// display extent less the bar thickness where the display is large enough,
/// and zero otherwise.
pub proof fn lemma_bar_position_nonnegative(bounds: DisplayBounds, mode: DisplayMode, config: WindowConfig)
    requires
        mode != DisplayMode::Badge,
    ensures
        geometry_of(bounds, mode, config).position is Some,
        ({
            let p = geometry_of(bounds, mode, config).position.unwrap();
            &&& p.x as int == bar_position(bounds, mode).0
            &&& p.y as int == bar_position(bounds, mode).1
            &&& bar_position(bounds, mode).0 >= 0
            &&& bar_position(bounds, mode).1 >= 0
            &&& (mode == DisplayMode::BarRight ==> p.x as int == if bounds.width >= BAR_THICKNESS {
                bounds.width - BAR_THICKNESS
            } else {
                0
            })
            &&& (mode == DisplayMode::BarBottom ==> p.y as int == if bounds.height >= BAR_THICKNESS {
                bounds.height - BAR_THICKNESS
            } else {
                0
            })
        }),
{
}

} // verus!
