use xplm_egui::geometry::{ScreenRect, POP_OUT_OFFSET};
use xplm_egui::window::{
    resizing_limits, screen_geometry_from_xplm, window_create_info, window_geometry_from_xplm,
    Cursor, CursorIcon, ResizingLimits, WindowDecorations, WindowLayer, WindowPositioningMode,
    MAX_RESIZING_LIMIT,
};

#[test]
fn window_enum_codes() {
    assert_eq!(WindowLayer::FlightOverlay.to_xplm(), 0);
    assert_eq!(WindowLayer::FloatingWindows.to_xplm(), 1);
    assert_eq!(WindowLayer::Modal.to_xplm(), 2);
    assert_eq!(WindowLayer::GrowlNotifications.to_xplm(), 3);
    assert_eq!(WindowDecorations::NoDecorations.to_xplm(), 0);
    assert_eq!(WindowDecorations::RoundRectangle.to_xplm(), 1);
    assert_eq!(WindowDecorations::SelfDecorated.to_xplm(), 2);
    assert_eq!(WindowDecorations::SelfDecoratedResizable.to_xplm(), 3);
    assert_eq!(WindowPositioningMode::Free.to_xplm(), 0);
    assert_eq!(WindowPositioningMode::CenterOnMonitor.to_xplm(), 1);
    assert_eq!(WindowPositioningMode::FullScreenOnMonitor.to_xplm(), 2);
    assert_eq!(WindowPositioningMode::FullScreenOnAllMonitors.to_xplm(), 3);
    assert_eq!(WindowPositioningMode::PopOut.to_xplm(), 4);
    assert_eq!(WindowPositioningMode::Vr.to_xplm(), 5);
}

#[test]
fn window_enum_defaults() {
    assert_eq!(WindowLayer::default(), WindowLayer::FloatingWindows);
    assert_eq!(WindowDecorations::default(), WindowDecorations::RoundRectangle);
    assert_eq!(WindowPositioningMode::default(), WindowPositioningMode::Free);
    assert_eq!(Cursor::default(), Cursor::Default);
}

#[test]
fn round_rectangle_geometry_adds_padding() {
    let g = screen_geometry_from_xplm(10, 50, 30, 20, WindowDecorations::RoundRectangle);
    assert_eq!((g.left(), g.top(), g.right(), g.bottom()), (0, 60, 40, 10));
    let plain = screen_geometry_from_xplm(10, 50, 30, 20, WindowDecorations::NoDecorations);
    assert_eq!((plain.left(), plain.top(), plain.right(), plain.bottom()), (10, 50, 30, 20));
    let own = screen_geometry_from_xplm(10, 50, 30, 20, WindowDecorations::SelfDecorated);
    assert_eq!(own, plain);
}

#[test]
fn window_geometry_uses_screen_bounds() {
    let bounds = ScreenRect::from_left_top_right_bottom(-100, 900, 1500, 0);
    let g = window_geometry_from_xplm(10, 50, 30, 20, WindowDecorations::NoDecorations, &bounds);
    assert_eq!((g.left(), g.bottom(), g.width(), g.height()), (110, 20, 20, 30));
    let p = window_geometry_from_xplm(
        POP_OUT_OFFSET + 10,
        60,
        POP_OUT_OFFSET + 110,
        10,
        WindowDecorations::RoundRectangle,
        &bounds,
    );
    assert_eq!((p.left(), p.bottom(), p.width(), p.height()), (0, 0, 120, 70));
}

#[test]
fn resizing_limits_defaults_and_clamps() {
    assert_eq!(
        resizing_limits(Some(100), Some(100), None, None),
        ResizingLimits { min_width: 100, min_height: 100, max_width: MAX_RESIZING_LIMIT, max_height: MAX_RESIZING_LIMIT }
    );
    assert_eq!(
        resizing_limits(None, Some(-5), Some(40000), Some(300)),
        ResizingLimits { min_width: 0, min_height: 0, max_width: 32767, max_height: 300 }
    );
    assert_eq!(
        resizing_limits(Some(i32::MIN), Some(i32::MAX), Some(-1), Some(0)),
        ResizingLimits { min_width: 0, min_height: 32767, max_width: 0, max_height: 0 }
    );
}

#[test]
fn resizing_limits_keep_order() {
    for (lo, hi) in [(-10, 5), (5, 40000), (100, 200), (40000, 50000)] {
        let l = resizing_limits(Some(lo), Some(lo), Some(hi), Some(hi));
        assert!(0 <= l.min_width && l.min_width <= l.max_width && l.max_width <= MAX_RESIZING_LIMIT);
    }
}

#[test]
fn create_info_copies_edges_and_codes() {
    let g = ScreenRect::from_left_top_right_bottom(10, 50, 30, 20);
    let info = window_create_info(&g, WindowLayer::Modal, WindowDecorations::SelfDecorated);
    assert_eq!((info.left, info.top, info.right, info.bottom), (10, 50, 30, 20));
    assert_eq!(info.visible, 0);
    assert_eq!(info.decorate_as_floating_window, 2);
    assert_eq!(info.layer, 2);
}

#[test]
fn cursor_codes_are_sequential() {
    let all = [
        Cursor::Default,
        Cursor::Hidden,
        Cursor::Arrow,
        Cursor::Custom,
        Cursor::RotateSmall,
        Cursor::RotateSmallLeft,
        Cursor::RotateSmallRight,
        Cursor::RotateMedium,
        Cursor::RotateMediumLeft,
        Cursor::RotateMediumRight,
        Cursor::RotateLarge,
        Cursor::RotateLargeLeft,
        Cursor::RotateLargeRight,
        Cursor::UpDown,
        Cursor::Down,
        Cursor::Up,
        Cursor::LeftRight,
        Cursor::Left,
        Cursor::Right,
        Cursor::Button,
        Cursor::Handle,
        Cursor::FourArrows,
        Cursor::SplitterH,
        Cursor::SplitterV,
        Cursor::Text,
    ];
    for (i, c) in all.iter().enumerate() {
        assert_eq!(c.to_xplm(), i as i32);
    }
}

#[test]
fn cursor_from_icon_table() {
    let cases = [
        (CursorIcon::Default, Cursor::Default),
        (CursorIcon::NoCursor, Cursor::Hidden),
        (CursorIcon::ContextMenu, Cursor::Arrow),
        (CursorIcon::Help, Cursor::Arrow),
        (CursorIcon::PointingHand, Cursor::Button),
        (CursorIcon::Progress, Cursor::Arrow),
        (CursorIcon::Wait, Cursor::Arrow),
        (CursorIcon::Cell, Cursor::Arrow),
        (CursorIcon::Crosshair, Cursor::Default),
        (CursorIcon::Text, Cursor::Text),
        (CursorIcon::VerticalText, Cursor::Text),
        (CursorIcon::Alias, Cursor::Arrow),
        (CursorIcon::Copy, Cursor::Arrow),
        (CursorIcon::Move, Cursor::FourArrows),
        (CursorIcon::NoDrop, Cursor::Arrow),
        (CursorIcon::NotAllowed, Cursor::Arrow),
        (CursorIcon::Grab, Cursor::Handle),
        (CursorIcon::Grabbing, Cursor::Handle),
        (CursorIcon::AllScroll, Cursor::FourArrows),
        (CursorIcon::ResizeHorizontal, Cursor::LeftRight),
        (CursorIcon::ResizeNeSw, Cursor::UpDown),
        (CursorIcon::ResizeNwSe, Cursor::UpDown),
        (CursorIcon::ResizeVertical, Cursor::UpDown),
        (CursorIcon::ResizeEast, Cursor::Right),
        (CursorIcon::ResizeSouthEast, Cursor::Down),
        (CursorIcon::ResizeSouth, Cursor::Down),
        (CursorIcon::ResizeSouthWest, Cursor::Down),
        (CursorIcon::ResizeWest, Cursor::Left),
        (CursorIcon::ResizeNorthWest, Cursor::Up),
        (CursorIcon::ResizeNorth, Cursor::Up),
        (CursorIcon::ResizeNorthEast, Cursor::Up),
        (CursorIcon::ResizeColumn, Cursor::LeftRight),
        (CursorIcon::ResizeRow, Cursor::UpDown),
        (CursorIcon::ZoomIn, Cursor::Arrow),
        (CursorIcon::ZoomOut, Cursor::Arrow),
    ];
    for (icon, cursor) in cases {
        assert_eq!(Cursor::from(icon), cursor);
    }
}

#[test]
fn undecorated_geometry_reads_back_as_set() {
    let g = ScreenRect::from_left_top_right_bottom(i32::MIN, -5, i32::MIN + 10, i32::MIN);
    let back = screen_geometry_from_xplm(
        g.left(),
        g.top(),
        g.right(),
        g.bottom(),
        WindowDecorations::NoDecorations,
    );
    assert_eq!(back, g);
    let own = screen_geometry_from_xplm(3, 40, 25, 7, WindowDecorations::SelfDecoratedResizable);
    assert_eq!((own.left(), own.top(), own.right(), own.bottom()), (3, 40, 25, 7));
}
