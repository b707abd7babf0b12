use xplm_egui::geometry::{
    Point2D, Rect, ScreenPoint, ScreenRect, Size2D, WindowPoint, WindowRect, XPScreenSpace,
    POP_OUT_OFFSET,
};

fn screen_bounds() -> ScreenRect {
    // A global desktop whose bottom left corner is at (-200, 50).
    ScreenRect::from_left_top_right_bottom(-200, 1130, 1720, 50)
}

#[test]
fn rect_from_edges_round_trip() {
    let r = ScreenRect::from_left_top_right_bottom(10, 50, 30, 20);
    assert_eq!((r.left(), r.top(), r.right(), r.bottom()), (10, 50, 30, 20));
    assert_eq!((r.width(), r.height()), (20, 30));
    assert_eq!(r.origin, ScreenPoint::new(10, 20));
    assert_eq!(r.size, Size2D::new(20, 30));
    let again = ScreenRect::from_left_top_right_bottom(r.left(), r.top(), r.right(), r.bottom());
    assert_eq!(again, r);
}

#[test]
fn rect_with_negative_size_keeps_edges() {
    let r = ScreenRect::from_left_top_right_bottom(30, 20, 10, 50);
    assert_eq!((r.width(), r.height()), (-20, -30));
    assert_eq!((r.left(), r.top(), r.right(), r.bottom()), (30, 20, 10, 50));
}

#[test]
fn rect_translate_and_inflate() {
    let r = ScreenRect::new(ScreenPoint::new(1, 2), Size2D::new(3, 4));
    let t = r.translate(10, -20);
    assert_eq!(t.origin, ScreenPoint::new(11, -18));
    assert_eq!(t.size, r.size);
    let i = r.inflate(10, 5);
    assert_eq!(i.origin, ScreenPoint::new(-9, -3));
    assert_eq!(i.size, Size2D::new(23, 14));
}

#[test]
fn rect_contains_half_open() {
    let r = WindowRect::from_left_top_right_bottom(0, 10, 10, 0);
    assert!(r.contains(WindowPoint::new(0, 0)));
    assert!(r.contains(WindowPoint::new(9, 9)));
    assert!(!r.contains(WindowPoint::new(10, 5)));
    assert!(!r.contains(WindowPoint::new(5, 10)));
    assert!(!r.contains(WindowPoint::new(-1, 5)));
}

#[test]
fn cast_unit_keeps_coordinates() {
    let r = ScreenRect::from_left_top_right_bottom(1, 4, 3, 2);
    let w: WindowRect = r.cast_unit();
    assert_eq!((w.left(), w.top(), w.right(), w.bottom()), (1, 4, 3, 2));
    let p: Point2D<XPScreenSpace> = WindowPoint::new(7, 8).cast_unit();
    assert_eq!((p.x, p.y), (7, 8));
}

#[test]
fn screen_rect_to_window_space_relative_to_screen_origin() {
    let r = ScreenRect::from_left_top_right_bottom(100, 300, 400, 150);
    let w = r.to_window_space(&screen_bounds());
    assert_eq!((w.left(), w.bottom()), (300, 100));
    assert_eq!((w.width(), w.height()), (300, 150));
}

#[test]
fn screen_rect_to_window_space_pop_out() {
    let r = ScreenRect::from_left_top_right_bottom(POP_OUT_OFFSET + 5, 300, POP_OUT_OFFSET + 105, 150);
    let w = r.to_window_space(&screen_bounds());
    assert_eq!((w.left(), w.bottom()), (5, 150));
    assert_eq!((w.width(), w.height()), (100, 150));
}

#[test]
fn screen_point_to_window_space_both_spaces() {
    let b = screen_bounds();
    let p = ScreenPoint::new(100, 150).to_window_space(&b);
    assert_eq!((p.x, p.y), (300, 100));
    let q = ScreenPoint::new(POP_OUT_OFFSET, 7).to_window_space(&b);
    assert_eq!((q.x, q.y), (0, 7));
}

#[test]
fn window_point_to_window_space_is_identity() {
    let p = WindowPoint::new(-3, 4);
    assert_eq!(p.to_window_space(), p);
}

#[test]
fn window_point_to_egui_flips_y() {
    let r = WindowRect::from_left_top_right_bottom(0, 100, 200, 0);
    assert_eq!(WindowPoint::new(0, 100).to_egui(&r), (0, 0));
    assert_eq!(WindowPoint::new(50, 25).to_egui(&r), (50, 75));
    assert_eq!(WindowPoint::new(0, 0).to_egui(&r), (0, 100));
}

#[test]
fn egui_position_of_viewport_corner_is_origin() {
    let r = WindowRect::from_left_top_right_bottom(20, 70, 120, 30);
    assert_eq!(WindowPoint::new(r.left(), r.top()).to_egui(&r), (0, 0));
    for (x, y) in [(20, 30), (119, 69), (60, 50)] {
        let (ex, ey) = WindowPoint::new(x, y).to_egui(&r);
        assert!(0 <= ex && ex < r.width());
        assert!(0 < ey && ey <= r.height());
    }
}

#[test]
fn screen_point_to_egui_goes_through_window_space() {
    let b = screen_bounds();
    let rect = ScreenRect::from_left_top_right_bottom(100, 300, 400, 150);
    let p = ScreenPoint::new(110, 290);
    assert_eq!(p.to_egui(&rect, &b), (10, 10));
}

#[test]
fn window_space_keeps_containment_on_examples() {
    let b = screen_bounds();
    let rect = ScreenRect::from_left_top_right_bottom(100, 300, 400, 150);
    let w = rect.to_window_space(&b);
    for (x, y) in [(100, 150), (399, 299), (400, 200), (50, 200), (200, 300)] {
        let p = ScreenPoint::new(x, y);
        assert_eq!(rect.contains(p), w.contains(p.to_window_space(&b)));
    }
    let pop = Rect::<XPScreenSpace>::from_left_top_right_bottom(POP_OUT_OFFSET, 100, POP_OUT_OFFSET + 50, 0);
    let wp = pop.to_window_space(&b);
    for (x, y) in [(POP_OUT_OFFSET, 0), (POP_OUT_OFFSET + 49, 99), (POP_OUT_OFFSET + 50, 0)] {
        let p = ScreenPoint::new(x, y);
        assert_eq!(pop.contains(p), wp.contains(p.to_window_space(&b)));
    }
}

#[test]
fn screen_point_to_window_space_with_lowest_origin() {
    let b = ScreenRect::from_left_top_right_bottom(i32::MIN, 0, i32::MIN + 100, i32::MIN);
    let p = ScreenPoint::new(i32::MIN + 5, i32::MIN + 7).to_window_space(&b);
    assert_eq!((p.x, p.y), (5, 7));
}
