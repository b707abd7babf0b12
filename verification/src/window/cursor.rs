//! The cursors X-Plane shows, and the one it shows for each egui cursor icon.
use vstd::prelude::*;

verus! {

/// The cursors X-Plane can show over a window.
#[derive(Debug, Clone, Copy, PartialEq, Eq, Hash, Structural)]
pub enum Cursor {
    /// X-Plane manages the cursor normally, plugin does not affect the cursor.
    Default,
    /// X-Plane hides the cursor.
    Hidden,
    /// X-Plane shows the cursor as the default arrow.
    Arrow,
    /// X-Plane shows the cursor but lets you select an OS cursor.
    Custom,
    /// X-Plane shows a small bi-directional knob-rotating cursor.
    RotateSmall,
    /// X-Plane shows a small counter-clockwise knob-rotating cursor.
    RotateSmallLeft,
    /// X-Plane shows a small clockwise knob-rotating cursor.
    RotateSmallRight,
    /// X-Plane shows a medium bi-directional knob-rotating cursor.
    RotateMedium,
    /// X-Plane shows a medium counter-clockwise knob-rotating cursor.
    RotateMediumLeft,
    /// X-Plane shows a medium clockwise knob-rotating cursor.
    RotateMediumRight,
    /// X-Plane shows a large bi-directional knob-rotating cursor.
    RotateLarge,
    /// X-Plane shows a large counter-clockwise knob-rotating cursor.
    RotateLargeLeft,
    /// X-Plane shows a large clockwise knob-rotating cursor.
    RotateLargeRight,
    /// X-Plane shows an up-and-down arrows cursor.
    UpDown,
    /// X-Plane shows a down arrow
    Down,
    /// X-Plane shows an up arrow cursor.
    Up,
    /// X-Plane shows a left-right arrow cursor.
    LeftRight,
    /// X-Plane shows a left arrow cursor.
    Left,
    /// X-Plane shows a right arrow cursor.
    Right,
    /// X-Plane shows a button-pushing cursor.
    Button,
    /// X-Plane shows a handle-grabbing cursor.
    Handle,
    /// X-Plane shows a four-arrows cursor.
    FourArrows,
    /// X-Plane shows a cursor to drag a horizontal splitter bar.
    SplitterH,
    /// X-Plane shows a cursor to drag a vertical splitter bar.
    SplitterV,
    /// X-Plane shows an I-Beam cursor for text editing.
    Text,
}

/// The `XPLMCursorStatus` code of each cursor, in the order the X-Plane SDK numbers them.
/// The first four codes are in every SDK; the knob, arrow, button, handle, splitter and
/// text cursors are the codes that follow them in newer SDK headers.
pub open spec fn cursor_code(c: Cursor) -> i32 {
    match c {
        Cursor::Default => 0,
        Cursor::Hidden => 1,
        Cursor::Arrow => 2,
        Cursor::Custom => 3,
        Cursor::RotateSmall => 4,
        Cursor::RotateSmallLeft => 5,
        Cursor::RotateSmallRight => 6,
        Cursor::RotateMedium => 7,
        Cursor::RotateMediumLeft => 8,
        Cursor::RotateMediumRight => 9,
        Cursor::RotateLarge => 10,
        Cursor::RotateLargeLeft => 11,
        Cursor::RotateLargeRight => 12,
        Cursor::UpDown => 13,
        Cursor::Down => 14,
        Cursor::Up => 15,
        Cursor::LeftRight => 16,
        Cursor::Left => 17,
        Cursor::Right => 18,
        Cursor::Button => 19,
        Cursor::Handle => 20,
        Cursor::FourArrows => 21,
        Cursor::SplitterH => 22,
        Cursor::SplitterV => 23,
        Cursor::Text => 24,
    }
}

impl Default for Cursor {
    fn default() -> (c: Self)
        ensures
            c == Cursor::Default,
    {
        Cursor::Default
    }
}

impl Cursor {
    /// The `XPLMCursorStatus` that a cursor callback returns to X-Plane for this cursor.
    pub fn to_xplm(self) -> (code: i32)
        ensures
            code == cursor_code(self),
    {
        match self {
            Cursor::Default => 0,
            Cursor::Hidden => 1,
            Cursor::Arrow => 2,
            Cursor::Custom => 3,
            Cursor::RotateSmall => 4,
            Cursor::RotateSmallLeft => 5,
            Cursor::RotateSmallRight => 6,
            Cursor::RotateMedium => 7,
            Cursor::RotateMediumLeft => 8,
            Cursor::RotateMediumRight => 9,
            Cursor::RotateLarge => 10,
            Cursor::RotateLargeLeft => 11,
            Cursor::RotateLargeRight => 12,
            Cursor::UpDown => 13,
            Cursor::Down => 14,
            Cursor::Up => 15,
            Cursor::LeftRight => 16,
            Cursor::Left => 17,
            Cursor::Right => 18,
            Cursor::Button => 19,
            Cursor::Handle => 20,
            Cursor::FourArrows => 21,
            Cursor::SplitterH => 22,
            Cursor::SplitterV => 23,
            Cursor::Text => 24,
        }
    }
}

/// Distinct cursors are reported to X-Plane with distinct codes, and every code lies in
/// the SDK's range of cursor statuses.
pub proof fn lemma_cursor_code_injective(a: Cursor, b: Cursor)
    ensures
        cursor_code(a) == cursor_code(b) <==> a == b,
        0 <= cursor_code(a) <= 24,
{
}

/// The mouse cursor icons that egui asks for.
#[derive(Debug, Clone, Copy, PartialEq, Eq, Hash, Structural)]
pub enum CursorIcon {
    Default,
    /// Shows no cursor.
    NoCursor,
    ContextMenu,
    Help,
    PointingHand,
    Progress,
    Wait,
    Cell,
    Crosshair,
    Text,
    VerticalText,
    Alias,
    Copy,
    Move,
    NoDrop,
    NotAllowed,
    Grab,
    Grabbing,
    AllScroll,
    ResizeHorizontal,
    ResizeNeSw,
    ResizeNwSe,
    ResizeVertical,
    ResizeEast,
    ResizeSouthEast,
    ResizeSouth,
    ResizeSouthWest,
    ResizeWest,
    ResizeNorthWest,
    ResizeNorth,
    ResizeNorthEast,
    ResizeColumn,
    ResizeRow,
    ZoomIn,
    ZoomOut,
}

/// The X-Plane cursor that stands in for each egui cursor icon.
pub open spec fn cursor_for_icon(icon: CursorIcon) -> Cursor {
    match icon {
        CursorIcon::Default => Cursor::Default,
        CursorIcon::NoCursor => Cursor::Hidden,
        CursorIcon::ContextMenu => Cursor::Arrow,
        CursorIcon::Help => Cursor::Arrow,
        CursorIcon::PointingHand => Cursor::Button,
        CursorIcon::Progress => Cursor::Arrow,
        CursorIcon::Wait => Cursor::Arrow,
        CursorIcon::Cell => Cursor::Arrow,
        CursorIcon::Crosshair => Cursor::Default,
        CursorIcon::Text => Cursor::Text,
        CursorIcon::VerticalText => Cursor::Text,
        CursorIcon::Alias => Cursor::Arrow,
        CursorIcon::Copy => Cursor::Arrow,
        CursorIcon::Move => Cursor::FourArrows,
        CursorIcon::NoDrop => Cursor::Arrow,
        CursorIcon::NotAllowed => Cursor::Arrow,
        CursorIcon::Grab => Cursor::Handle,
        CursorIcon::Grabbing => Cursor::Handle,
        CursorIcon::AllScroll => Cursor::FourArrows,
        CursorIcon::ResizeHorizontal => Cursor::LeftRight,
        CursorIcon::ResizeNeSw => Cursor::UpDown,
        CursorIcon::ResizeNwSe => Cursor::UpDown,
        CursorIcon::ResizeVertical => Cursor::UpDown,
        CursorIcon::ResizeEast => Cursor::Right,
        CursorIcon::ResizeSouthEast => Cursor::Down,
        CursorIcon::ResizeSouth => Cursor::Down,
        CursorIcon::ResizeSouthWest => Cursor::Down,
        CursorIcon::ResizeWest => Cursor::Left,
        CursorIcon::ResizeNorthWest => Cursor::Up,
        CursorIcon::ResizeNorth => Cursor::Up,
        CursorIcon::ResizeNorthEast => Cursor::Up,
        CursorIcon::ResizeColumn => Cursor::LeftRight,
        CursorIcon::ResizeRow => Cursor::UpDown,
        CursorIcon::ZoomIn => Cursor::Arrow,
        CursorIcon::ZoomOut => Cursor::Arrow,
    }
}

impl From<CursorIcon> for Cursor {
    fn from(icon: CursorIcon) -> (c: Self) {
        match icon {
            CursorIcon::Default => Cursor::Default,
            CursorIcon::NoCursor => Cursor::Hidden,
            CursorIcon::ContextMenu => Cursor::Arrow,
            CursorIcon::Help => Cursor::Arrow,
            CursorIcon::PointingHand => Cursor::Button,
            CursorIcon::Progress => Cursor::Arrow,
            CursorIcon::Wait => Cursor::Arrow,
            CursorIcon::Cell => Cursor::Arrow,
            CursorIcon::Crosshair => Cursor::Default,
            CursorIcon::Text => Cursor::Text,
            CursorIcon::VerticalText => Cursor::Text,
            CursorIcon::Alias => Cursor::Arrow,
            CursorIcon::Copy => Cursor::Arrow,
            CursorIcon::Move => Cursor::FourArrows,
            CursorIcon::NoDrop => Cursor::Arrow,
            CursorIcon::NotAllowed => Cursor::Arrow,
            CursorIcon::Grab => Cursor::Handle,
            CursorIcon::Grabbing => Cursor::Handle,
            CursorIcon::AllScroll => Cursor::FourArrows,
            CursorIcon::ResizeHorizontal => Cursor::LeftRight,
            CursorIcon::ResizeNeSw => Cursor::UpDown,
            CursorIcon::ResizeNwSe => Cursor::UpDown,
            CursorIcon::ResizeVertical => Cursor::UpDown,
            CursorIcon::ResizeEast => Cursor::Right,
            CursorIcon::ResizeSouthEast => Cursor::Down,
            CursorIcon::ResizeSouth => Cursor::Down,
            CursorIcon::ResizeSouthWest => Cursor::Down,
            CursorIcon::ResizeWest => Cursor::Left,
            CursorIcon::ResizeNorthWest => Cursor::Up,
            CursorIcon::ResizeNorth => Cursor::Up,
            CursorIcon::ResizeNorthEast => Cursor::Up,
            CursorIcon::ResizeColumn => Cursor::LeftRight,
            CursorIcon::ResizeRow => Cursor::UpDown,
            CursorIcon::ZoomIn => Cursor::Arrow,
            CursorIcon::ZoomOut => Cursor::Arrow,
        }
    }
}

impl vstd::std_specs::convert::FromSpecImpl<CursorIcon> for Cursor {
    open spec fn obeys_from_spec() -> bool {
        true
    }

    open spec fn from_spec(icon: CursorIcon) -> Cursor {
        cursor_for_icon(icon)
    }
}

} // verus!
