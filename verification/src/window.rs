//! Windows: their layers, decorations and positioning modes, the cursors they show, the
//! events they receive, and the geometry and limits that X-Plane is given for them.
pub mod cursor;
pub mod events;

pub use cursor::{Cursor, CursorIcon};
pub use events::{KeyEvent, KeyFlags, MouseAction, MouseEvent, ScrollEvent};

use crate::geometry::{fits_i32, Rect, ScreenRect, WindowRect};
use vstd::prelude::*;

verus! {

/// Defines what layer the window should be positioned in.
/// The default is to create a floating window.
#[derive(Debug, Clone, Copy, PartialEq, Eq, Hash, Structural)]
pub enum WindowLayer {
    FlightOverlay,
    FloatingWindows,
    Modal,
    GrowlNotifications,
}

impl Default for WindowLayer {
    fn default() -> (l: Self)
        ensures
            l == WindowLayer::FloatingWindows,
    {
        WindowLayer::FloatingWindows
    }
}

impl WindowLayer {
    /// The `XPLMWindowLayer` code of this layer.
    pub open spec fn to_xplm_spec(self) -> i32 {
        match self {
            WindowLayer::FlightOverlay => 0i32,
            WindowLayer::FloatingWindows => 1i32,
            WindowLayer::Modal => 2i32,
            WindowLayer::GrowlNotifications => 3i32,
        }
    }

    /// The `XPLMWindowLayer` code of this layer.
    pub fn to_xplm(self) -> (code: i32)
        ensures
            code == self.to_xplm_spec(),
    {
        match self {
            WindowLayer::FlightOverlay => 0,
            WindowLayer::FloatingWindows => 1,
            WindowLayer::Modal => 2,
            WindowLayer::GrowlNotifications => 3,
        }
    }
}

/// Defines what decorations should be applied to the window.
/// The default is to use X-Plane's native rounded window title bar.
#[derive(Debug, Clone, Copy, PartialEq, Eq, Hash, Structural)]
pub enum WindowDecorations {
    /// No decorations at all.
    NoDecorations,
    RoundRectangle,
    SelfDecorated,
    SelfDecoratedResizable,
}

impl Default for WindowDecorations {
    fn default() -> (d: Self)
        ensures
            d == WindowDecorations::RoundRectangle,
    {
        WindowDecorations::RoundRectangle
    }
}

impl WindowDecorations {
    /// The `XPLMWindowDecoration` code of these decorations.
    pub open spec fn to_xplm_spec(self) -> i32 {
        match self {
            WindowDecorations::NoDecorations => 0i32,
            WindowDecorations::RoundRectangle => 1i32,
            WindowDecorations::SelfDecorated => 2i32,
            WindowDecorations::SelfDecoratedResizable => 3i32,
        }
    }

    /// The `XPLMWindowDecoration` code of these decorations.
    pub fn to_xplm(self) -> (code: i32)
        ensures
            code == self.to_xplm_spec(),
    {
        match self {
            WindowDecorations::NoDecorations => 0,
            WindowDecorations::RoundRectangle => 1,
            WindowDecorations::SelfDecorated => 2,
            WindowDecorations::SelfDecoratedResizable => 3,
        }
    }
}

/// How X-Plane positions a window.
#[derive(Debug, Clone, Copy, PartialEq, Eq, Hash, Structural)]
pub enum WindowPositioningMode {
    Free,
    CenterOnMonitor,
    FullScreenOnMonitor,
    FullScreenOnAllMonitors,
    PopOut,
    Vr,
}

impl Default for WindowPositioningMode {
    fn default() -> (m: Self)
        ensures
            m == WindowPositioningMode::Free,
    {
        WindowPositioningMode::Free
    }
}

impl WindowPositioningMode {
    /// The `XPLMWindowPositioningMode` code of this mode.
    pub fn to_xplm(self) -> (code: i32)
        ensures
            code == match self {
                WindowPositioningMode::Free => 0i32,
                WindowPositioningMode::CenterOnMonitor => 1i32,
                WindowPositioningMode::FullScreenOnMonitor => 2i32,
                WindowPositioningMode::FullScreenOnAllMonitors => 3i32,
                WindowPositioningMode::PopOut => 4i32,
                WindowPositioningMode::Vr => 5i32,
            },
    {
        match self {
            WindowPositioningMode::Free => 0,
            WindowPositioningMode::CenterOnMonitor => 1,
            WindowPositioningMode::FullScreenOnMonitor => 2,
            WindowPositioningMode::FullScreenOnAllMonitors => 3,
            WindowPositioningMode::PopOut => 4,
            WindowPositioningMode::Vr => 5,
        }
    }
}

/// The fields of `XPLMCreateWindow_t` that a new window is created with, besides its
/// callbacks: its edges, its visibility, its decorations and its layer.
#[derive(Debug, Clone, Copy, PartialEq, Eq, Structural)]
pub struct WindowCreateInfo {
    pub left: i32,
    pub top: i32,
    pub right: i32,
    pub bottom: i32,
    pub visible: i32,
    pub decorate_as_floating_window: i32,
    pub layer: i32,
}

/// The creation record of a window with `geometry`, `layer` and `decorations`: the edges
/// of the geometry, initially not visible.
pub fn window_create_info(
    geometry: &ScreenRect,
    layer: WindowLayer,
    decorations: WindowDecorations,
) -> (info: WindowCreateInfo)
    requires
        geometry.edges_fit(),
    ensures
        info.left == geometry.left_spec(),
        info.top == geometry.top_spec(),
        info.right == geometry.right_spec(),
        info.bottom == geometry.bottom_spec(),
        info.visible == 0,
        info.decorate_as_floating_window == decorations.to_xplm_spec(),
        info.layer == layer.to_xplm_spec(),
{
    WindowCreateInfo {
        left: geometry.left(),
        top: geometry.top(),
        right: geometry.right(),
        bottom: geometry.bottom(),
        visible: 0,
        decorate_as_floating_window: decorations.to_xplm(),
        layer: layer.to_xplm(),
    }
}

/// The padding that X-Plane's round-rectangle decoration adds on each side of a window.
pub const ROUND_RECTANGLE_PADDING: i32 = 10;

/// The screen geometry of a window, from the edges that `XPLMGetWindowGeometry` reports.
/// With round-rectangle decorations X-Plane reports the area inside its padding, so the
/// rectangle is grown by the padding on every side; otherwise the edges are taken as they are.
pub open spec fn screen_geometry_spec(
    left: i32,
    top: i32,
    right: i32,
    bottom: i32,
    decorations: WindowDecorations,
) -> ScreenRect {
    let rect = Rect::<crate::geometry::XPScreenSpace>::from_edges(left, top, right, bottom);
    if decorations == WindowDecorations::RoundRectangle {
        Rect {
            origin: crate::geometry::Point2D {
                x: (left - ROUND_RECTANGLE_PADDING) as i32,
                y: (bottom - ROUND_RECTANGLE_PADDING) as i32,
                unit: core::marker::PhantomData,
            },
            size: crate::geometry::Size2D {
                width: (right - left + 2 * ROUND_RECTANGLE_PADDING) as i32,
                height: (top - bottom + 2 * ROUND_RECTANGLE_PADDING) as i32,
                unit: core::marker::PhantomData,
            },
        }
    } else {
        rect
    }
}

/// The reported edges can be turned into a screen geometry without overflow: the size
/// fits, and for a round-rectangle window the size and origin with the padding fit too.
pub open spec fn screen_geometry_fits(
    left: i32,
    top: i32,
    right: i32,
    bottom: i32,
    decorations: WindowDecorations,
) -> bool {
    &&& fits_i32(right - left)
    &&& fits_i32(top - bottom)
    &&& decorations == WindowDecorations::RoundRectangle ==> {
        &&& fits_i32(right - left + 2 * ROUND_RECTANGLE_PADDING)
        &&& fits_i32(top - bottom + 2 * ROUND_RECTANGLE_PADDING)
        &&& fits_i32(left - ROUND_RECTANGLE_PADDING)
        &&& fits_i32(bottom - ROUND_RECTANGLE_PADDING)
    }
}

/// A window without round-rectangle decorations reads back the geometry that was set: the
/// edges of `g`, as handed to `XPLMSetWindowGeometry` and reported unchanged, can be turned
/// into a screen geometry without overflow, and that geometry is `g`.
pub proof fn lemma_set_geometry_round_trip(g: ScreenRect, decorations: WindowDecorations)
    requires
        g.edges_fit(),
        decorations != WindowDecorations::RoundRectangle,
    ensures
        screen_geometry_fits(
            g.left_spec() as i32,
            g.top_spec() as i32,
            g.right_spec() as i32,
            g.bottom_spec() as i32,
            decorations,
        ),
        screen_geometry_spec(
            g.left_spec() as i32,
            g.top_spec() as i32,
            g.right_spec() as i32,
            g.bottom_spec() as i32,
            decorations,
        ) == g,
{
    crate::geometry::lemma_edges_round_trip(
        g.left_spec() as i32,
        g.top_spec() as i32,
        g.right_spec() as i32,
        g.bottom_spec() as i32,
        g,
    );
}

/// Turns the edges that `XPLMGetWindowGeometry` reports into the window's screen geometry
/// (see `screen_geometry_spec`).
pub fn screen_geometry_from_xplm(
    left: i32,
    top: i32,
    right: i32,
    bottom: i32,
    decorations: WindowDecorations,
) -> (r: ScreenRect)
    requires
        screen_geometry_fits(left, top, right, bottom, decorations),
    ensures
        r == screen_geometry_spec(left, top, right, bottom, decorations),
{
    let rect = Rect::from_left_top_right_bottom(left, top, right, bottom);
    if decorations == WindowDecorations::RoundRectangle {
        rect.inflate(ROUND_RECTANGLE_PADDING, ROUND_RECTANGLE_PADDING)
    } else {
        rect
    }
}

/// The geometry of a window's OpenGL viewport: its screen geometry (see
/// `screen_geometry_from_xplm`) converted to window space with the global screen bounds.
pub fn window_geometry_from_xplm(
    left: i32,
    top: i32,
    right: i32,
    bottom: i32,
    decorations: WindowDecorations,
    screen_bounds: &ScreenRect,
) -> (r: WindowRect)
    requires
        screen_geometry_fits(left, top, right, bottom, decorations),
        crate::geometry::window_shift_fits(
            screen_geometry_spec(left, top, right, bottom, decorations).origin.x,
            screen_geometry_spec(left, top, right, bottom, decorations).origin.y,
            *screen_bounds,
        ),
    ensures
        ({
            let s = screen_geometry_spec(left, top, right, bottom, decorations);
            let shift = crate::geometry::window_shift(s.origin.x, *screen_bounds);
            &&& r.origin.x == s.origin.x + shift.0
            &&& r.origin.y == s.origin.y + shift.1
            &&& r.size.width == s.size.width
            &&& r.size.height == s.size.height
        }),
{
    let screen = screen_geometry_from_xplm(left, top, right, bottom, decorations);
    screen.to_window_space(screen_bounds)
}

/// The largest size X-Plane accepts as a resizing limit.
pub const MAX_RESIZING_LIMIT: i32 = 32767;

/// `v` brought into `[lo, hi]`.
pub open spec fn clamp_spec(v: int, lo: int, hi: int) -> int {
    if v < lo {
        lo
    } else if v > hi {
        hi
    } else {
        v
    }
}

/// The four limits handed to `XPLMSetWindowResizingLimits`.
#[derive(Debug, Clone, Copy, PartialEq, Eq, Structural)]
pub struct ResizingLimits {
    pub min_width: i32,
    pub min_height: i32,
    pub max_width: i32,
    pub max_height: i32,
}

fn clamp_limit(v: i32) -> (r: i32)
    ensures
        r == clamp_spec(v as int, 0, MAX_RESIZING_LIMIT as int),
{
    if v < 0 {
        0
    } else if v > MAX_RESIZING_LIMIT {
        MAX_RESIZING_LIMIT
    } else {
        v
    }
}

/// The resizing limits of a window: a missing minimum is 0, a missing maximum is unbounded,
/// and every limit is brought into `[0, MAX_RESIZING_LIMIT]`.
pub fn resizing_limits(
    min_w: Option<i32>,
    min_h: Option<i32>,
    max_w: Option<i32>,
    max_h: Option<i32>,
) -> (r: ResizingLimits)
    ensures
        r.min_width == clamp_spec(
            match min_w {
                Some(v) => v as int,
                None => 0,
            },
            0,
            MAX_RESIZING_LIMIT as int,
        ),
        r.min_height == clamp_spec(
            match min_h {
                Some(v) => v as int,
                None => 0,
            },
            0,
            MAX_RESIZING_LIMIT as int,
        ),
        r.max_width == clamp_spec(
            match max_w {
                Some(v) => v as int,
                None => i32::MAX as int,
            },
            0,
            MAX_RESIZING_LIMIT as int,
        ),
        r.max_height == clamp_spec(
            match max_h {
                Some(v) => v as int,
                None => i32::MAX as int,
            },
            0,
            MAX_RESIZING_LIMIT as int,
        ),
{
    let min_width = clamp_limit(
        match min_w {
            Some(v) => v,
            None => 0,
        },
    );
    let max_width = clamp_limit(
        match max_w {
            Some(v) => v,
            None => i32::MAX,
        },
    );
    let min_height = clamp_limit(
        match min_h {
            Some(v) => v,
            None => 0,
        },
    );
    let max_height = clamp_limit(
        match max_h {
            Some(v) => v,
            None => i32::MAX,
        },
    );
    ResizingLimits { min_width, min_height, max_width, max_height }
}

/// Every resizing limit lies in `[0, MAX_RESIZING_LIMIT]`; a missing maximum allows the
/// largest size, and a minimum that is at most its maximum stays so after clamping.
pub proof fn lemma_resizing_limits_in_range(min: Option<i32>, max: Option<i32>)
    ensures
        ({
            let lo = clamp_spec(
                match min {
                    Some(v) => v as int,
                    None => 0,
                },
                0,
                MAX_RESIZING_LIMIT as int,
            );
            let hi = clamp_spec(
                match max {
                    Some(v) => v as int,
                    None => i32::MAX as int,
                },
                0,
                MAX_RESIZING_LIMIT as int,
            );
            &&& 0 <= lo <= MAX_RESIZING_LIMIT
            &&& 0 <= hi <= MAX_RESIZING_LIMIT
            &&& max is None ==> hi == MAX_RESIZING_LIMIT
            &&& min is None ==> lo == 0
            &&& (match (min, max) {
                (Some(a), Some(b)) => a <= b,
                (None, _) => true,
                (_, None) => true,
            }) ==> lo <= hi
        }),
{
}

} // verus!
