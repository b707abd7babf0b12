//! Points, sizes and rectangles in X-Plane's screen and window spaces, and their conversion
//! between those spaces and to egui's coordinates.
use core::marker::PhantomData;
use vstd::prelude::*;

verus! {

/// X-Plane screen space in pixels.
/// The origin is the bottom left corner of the main X-Plane OpenGL window at (0, 0).
///
/// Shouldn't be used when working with windows, since pop-out windows are special.
#[derive(Clone, Copy, Debug, PartialEq, Eq, Structural)]
pub struct XPScreenSpace;

/// X-Plane window space in pixels.
/// The origin is the bottom left corner of the window's drawable area at (0, 0).
#[derive(Clone, Copy, Debug, PartialEq, Eq, Structural)]
pub struct XPWindowSpace;

/// X-Plane reports pop-out windows with this offset added to their horizontal coordinates.
pub const POP_OUT_OFFSET: i32 = 100_000;

/// Whether the mathematical integer `v` is also an `i32`.
pub open spec fn fits_i32(v: int) -> bool {
    i32::MIN <= v <= i32::MAX
}

/// A point with integer pixel coordinates, tagged with its coordinate space `U`.
#[derive(Debug, PartialEq, Eq)]
pub struct Point2D<U> {
    pub x: i32,
    pub y: i32,
    pub unit: PhantomData<U>,
}

/// A size in pixels, tagged with its coordinate space `U`.
#[derive(Debug, PartialEq, Eq)]
pub struct Size2D<U> {
    pub width: i32,
    pub height: i32,
    pub unit: PhantomData<U>,
}

/// A rectangle given by its bottom left corner and its size, tagged with its coordinate space `U`.
///
/// Its left edge is `origin.x`, its bottom edge `origin.y`, its right edge
/// `origin.x + size.width` and its top edge `origin.y + size.height`.
#[derive(Debug, PartialEq, Eq)]
pub struct Rect<U> {
    pub origin: Point2D<U>,
    pub size: Size2D<U>,
}

impl<U> Clone for Point2D<U> {
    fn clone(&self) -> (p: Self)
        ensures
            p == *self,
    {
        Point2D { x: self.x, y: self.y, unit: PhantomData }
    }
}

impl<U> Copy for Point2D<U> {

}

impl<U> Clone for Size2D<U> {
    fn clone(&self) -> (s: Self)
        ensures
            s == *self,
    {
        Size2D { width: self.width, height: self.height, unit: PhantomData }
    }
}

impl<U> Copy for Size2D<U> {

}

impl<U> Clone for Rect<U> {
    fn clone(&self) -> (r: Self)
        ensures
            r == *self,
    {
        Rect { origin: self.origin, size: self.size }
    }
}

impl<U> Copy for Rect<U> {

}

pub type ScreenRect = Rect<XPScreenSpace>;

/// Size is the same for screen, window and egui coordinate spaces. This is just for convenience.
pub type ScreenSize = Size2D<XPScreenSpace>;

pub type ScreenPoint = Point2D<XPScreenSpace>;

pub type WindowRect = Rect<XPWindowSpace>;

pub type WindowPoint = Point2D<XPWindowSpace>;

impl<U> Point2D<U> {
    pub fn new(x: i32, y: i32) -> (p: Self)
        ensures
            p.x == x,
            p.y == y,
    {
        Point2D { x, y, unit: PhantomData }
    }

    /// The same point, read in the coordinate space `V`.
    pub fn cast_unit<V>(&self) -> (p: Point2D<V>)
        ensures
            p.x == self.x,
            p.y == self.y,
    {
        Point2D { x: self.x, y: self.y, unit: PhantomData }
    }
}

impl<U> Size2D<U> {
    pub fn new(width: i32, height: i32) -> (s: Self)
        ensures
            s.width == width,
            s.height == height,
    {
        Size2D { width, height, unit: PhantomData }
    }
}

impl<U> Rect<U> {
    /// The left edge.
    pub open spec fn left_spec(self) -> int {
        self.origin.x as int
    }

    /// The right edge.
    pub open spec fn right_spec(self) -> int {
        self.origin.x + self.size.width
    }

    /// The bottom edge.
    pub open spec fn bottom_spec(self) -> int {
        self.origin.y as int
    }

    /// The top edge.
    pub open spec fn top_spec(self) -> int {
        self.origin.y + self.size.height
    }

    /// The right and top edges can be computed without overflow.
    pub open spec fn edges_fit(self) -> bool {
        fits_i32(self.right_spec()) && fits_i32(self.top_spec())
    }

    /// Whether `p` lies in the rectangle, including its left and bottom edges but not its
    /// right and top edges.
    pub open spec fn contains_spec(self, p: Point2D<U>) -> bool {
        self.left_spec() <= p.x < self.right_spec() && self.bottom_spec() <= p.y < self.top_spec()
    }

    pub fn new(origin: Point2D<U>, size: Size2D<U>) -> (r: Self)
        ensures
            r.origin == origin,
            r.size == size,
    {
        Rect { origin, size }
    }

    /// The rectangle with the given edges.
    pub open spec fn from_edges(left: i32, top: i32, right: i32, bottom: i32) -> Self {
        Rect {
            origin: Point2D { x: left, y: bottom, unit: PhantomData },
            size: Size2D {
                width: (right - left) as i32,
                height: (top - bottom) as i32,
                unit: PhantomData,
            },
        }
    }

    /// Builds a rectangle from its four edges.
    pub fn from_left_top_right_bottom(left: i32, top: i32, right: i32, bottom: i32) -> (r: Self)
        requires
            fits_i32(right - left),
            fits_i32(top - bottom),
        ensures
            r == Self::from_edges(left, top, right, bottom),
            r.size.width == right - left,
            r.size.height == top - bottom,
    {
        Rect::new(Point2D::new(left, bottom), Size2D::new(right - left, top - bottom))
    }

    pub fn left(&self) -> (v: i32)
        ensures
            v == self.left_spec(),
    {
        self.origin.x
    }

    pub fn top(&self) -> (v: i32)
        requires
            fits_i32(self.top_spec()),
        ensures
            v == self.top_spec(),
    {
        self.origin.y + self.size.height
    }

    pub fn right(&self) -> (v: i32)
        requires
            fits_i32(self.right_spec()),
        ensures
            v == self.right_spec(),
    {
        self.origin.x + self.size.width
    }

    pub fn bottom(&self) -> (v: i32)
        ensures
            v == self.bottom_spec(),
    {
        self.origin.y
    }

    pub fn width(&self) -> (v: i32)
        ensures
            v == self.size.width,
    {
        self.size.width
    }

    pub fn height(&self) -> (v: i32)
        ensures
            v == self.size.height,
    {
        self.size.height
    }

    /// The same rectangle, read in the coordinate space `V`.
    pub fn cast_unit<V>(&self) -> (r: Rect<V>)
        ensures
            r.origin.x == self.origin.x,
            r.origin.y == self.origin.y,
            r.size.width == self.size.width,
            r.size.height == self.size.height,
    {
        Rect { origin: self.origin.cast_unit(), size: Size2D::new(self.size.width, self.size.height) }
    }

    /// Moves the rectangle by `(dx, dy)`; its size stays the same.
    pub fn translate(&self, dx: i32, dy: i32) -> (r: Self)
        requires
            fits_i32(self.origin.x + dx),
            fits_i32(self.origin.y + dy),
        ensures
            r.origin.x == self.origin.x + dx,
            r.origin.y == self.origin.y + dy,
            r.size == self.size,
    {
        Rect::new(Point2D::new(self.origin.x + dx, self.origin.y + dy), self.size)
    }

    /// Grows the rectangle by `width` on its left and right and by `height` on its bottom and top.
    pub fn inflate(&self, width: i32, height: i32) -> (r: Self)
        requires
            fits_i32(self.origin.x - width),
            fits_i32(self.origin.y - height),
            fits_i32(self.size.width + width),
            fits_i32(self.size.width + width + width),
            fits_i32(self.size.height + height),
            fits_i32(self.size.height + height + height),
        ensures
            r.origin.x == self.origin.x - width,
            r.origin.y == self.origin.y - height,
            r.size.width == self.size.width + 2 * width,
            r.size.height == self.size.height + 2 * height,
    {
        Rect::new(
            Point2D::new(self.origin.x - width, self.origin.y - height),
            Size2D::new(self.size.width + width + width, self.size.height + height + height),
        )
    }

    /// Whether `p` lies in the rectangle (see `contains_spec`).
    pub fn contains(&self, p: Point2D<U>) -> (b: bool)
        requires
            self.edges_fit(),
        ensures
            b == self.contains_spec(p),
    {
        self.origin.x <= p.x && p.x < self.origin.x + self.size.width && self.origin.y <= p.y
            && p.y < self.origin.y + self.size.height
    }
}

/// Building a rectangle from four edges and reading them back gives the same edges, and
/// building a rectangle from the edges of another gives that rectangle back.
pub proof fn lemma_edges_round_trip<U>(left: i32, top: i32, right: i32, bottom: i32, rect: Rect<U>)
    requires
        fits_i32(right - left),
        fits_i32(top - bottom),
        rect.edges_fit(),
    ensures
        Rect::<U>::from_edges(left, top, right, bottom).left_spec() == left,
        Rect::<U>::from_edges(left, top, right, bottom).top_spec() == top,
        Rect::<U>::from_edges(left, top, right, bottom).right_spec() == right,
        Rect::<U>::from_edges(left, top, right, bottom).bottom_spec() == bottom,
        Rect::<U>::from_edges(
            rect.left_spec() as i32,
            rect.top_spec() as i32,
            rect.right_spec() as i32,
            rect.bottom_spec() as i32,
        ) == rect,
{
}

/// The amount by which a screen-space position with horizontal coordinate `x` moves when it
/// is converted to window space: pop-out windows (at or beyond `POP_OUT_OFFSET`) lose that
/// offset, everything else is taken relative to the origin of the global screen bounds.
pub open spec fn window_shift(x: i32, screen_bounds: ScreenRect) -> (int, int) {
    if x >= POP_OUT_OFFSET {
        (-POP_OUT_OFFSET, 0)
    } else {
        (-screen_bounds.origin.x, -screen_bounds.origin.y)
    }
}

/// The conversion of a screen-space position with horizontal coordinate `x` to window space
/// stays in the range of `i32`, for a point `(x, y)`.
pub open spec fn window_shift_fits(x: i32, y: i32, screen_bounds: ScreenRect) -> bool {
    x >= POP_OUT_OFFSET || (screen_bounds.origin.x > i32::MIN && screen_bounds.origin.y > i32::MIN
        && fits_i32(x - screen_bounds.origin.x) && fits_i32(y - screen_bounds.origin.y))
}

/// The conversion of a screen-space point `(x, y)` to window space stays in the range of
/// `i32`: a point is moved by subtracting the origin of the screen bounds, which needs no
/// negation of that origin.
pub open spec fn point_shift_fits(x: i32, y: i32, screen_bounds: ScreenRect) -> bool {
    x >= POP_OUT_OFFSET || (fits_i32(x - screen_bounds.origin.x) && fits_i32(
        y - screen_bounds.origin.y,
    ))
}

impl Rect<XPScreenSpace> {
    /// Converts a screen-space rectangle to window space, given the global screen bounds
    /// that X-Plane reports. A rectangle of a pop-out window (left edge at or beyond
    /// `POP_OUT_OFFSET`) loses that offset; any other is taken relative to the origin of the
    /// screen bounds. The size stays the same.
    pub fn to_window_space(&self, screen_bounds: &ScreenRect) -> (r: WindowRect)
        requires
            window_shift_fits(self.origin.x, self.origin.y, *screen_bounds),
        ensures
            r.origin.x == self.origin.x + window_shift(self.origin.x, *screen_bounds).0,
            r.origin.y == self.origin.y + window_shift(self.origin.x, *screen_bounds).1,
            r.size.width == self.size.width,
            r.size.height == self.size.height,
    {
        if self.left() >= POP_OUT_OFFSET {
            self.translate(-POP_OUT_OFFSET, 0).cast_unit()
        } else {
            let dx = -screen_bounds.origin.x;
            let dy = -screen_bounds.origin.y;
            self.cast_unit().translate(dx, dy)
        }
    }
}

impl Point2D<XPScreenSpace> {
    /// Converts a screen-space point to window space, given the global screen bounds that
    /// X-Plane reports, in the same way as a rectangle whose corner is at this point.
    pub fn to_window_space(&self, screen_bounds: &ScreenRect) -> (p: WindowPoint)
        requires
            point_shift_fits(self.x, self.y, *screen_bounds),
        ensures
            p.x == self.x + window_shift(self.x, *screen_bounds).0,
            p.y == self.y + window_shift(self.x, *screen_bounds).1,
    {
        if self.x >= POP_OUT_OFFSET {
            Point2D::new(self.x - POP_OUT_OFFSET, self.y)
        } else {
            Point2D::new(self.x - screen_bounds.origin.x, self.y - screen_bounds.origin.y)
        }
    }

    /// The position of this point in the egui coordinates of `rect` (see
    /// `WindowPoint::to_egui`), both converted to window space first.
    pub fn to_egui(&self, rect: &ScreenRect, screen_bounds: &ScreenRect) -> (pos: (i32, i32))
        requires
            point_shift_fits(self.x, self.y, *screen_bounds),
            window_shift_fits(rect.origin.x, rect.origin.y, *screen_bounds),
            fits_i32(
                (self.x + window_shift(self.x, *screen_bounds).0) - (rect.origin.x + window_shift(
                    rect.origin.x,
                    *screen_bounds,
                ).0),
            ),
            fits_i32(
                (self.y + window_shift(self.x, *screen_bounds).1) - (rect.origin.y + window_shift(
                    rect.origin.x,
                    *screen_bounds,
                ).1),
            ),
            fits_i32(
                rect.size.height - ((self.y + window_shift(self.x, *screen_bounds).1) - (
                rect.origin.y + window_shift(rect.origin.x, *screen_bounds).1)),
            ),
        ensures
            pos.0 == (self.x + window_shift(self.x, *screen_bounds).0) - (rect.origin.x
                + window_shift(rect.origin.x, *screen_bounds).0),
            pos.1 == rect.size.height - ((self.y + window_shift(self.x, *screen_bounds).1) - (
            rect.origin.y + window_shift(rect.origin.x, *screen_bounds).1)),
    {
        let p = self.to_window_space(screen_bounds);
        let r = rect.to_window_space(screen_bounds);
        p.to_egui(&r)
    }
}

/// The egui position of a window-space point relative to `rect`: egui measures from the
/// top left corner of the viewport, with the vertical axis pointing down.
pub open spec fn egui_position(p: WindowPoint, rect: WindowRect) -> (int, int) {
    (p.x - rect.origin.x, rect.size.height - (p.y - rect.origin.y))
}

impl Point2D<XPWindowSpace> {
    /// A window-space point is already in window space.
    pub fn to_window_space(&self) -> (p: WindowPoint)
        ensures
            p == *self,
    {
        *self
    }

    /// The egui position of this point relative to the viewport `rect`, in whole pixels.
    pub fn to_egui(&self, rect: &WindowRect) -> (pos: (i32, i32))
        requires
            fits_i32(self.x - rect.origin.x),
            fits_i32(self.y - rect.origin.y),
            fits_i32(rect.size.height - (self.y - rect.origin.y)),
        ensures
            pos.0 == egui_position(*self, *rect).0,
            pos.1 == egui_position(*self, *rect).1,
    {
        let x = self.x - rect.left();
        let y = self.y - rect.bottom();
        let y = rect.height() - y;
        (x, y)
    }
}

/// egui positions move with the point, unclamped: moving a window point by `(dx, dy)`
/// moves its egui position by `(dx, -dy)`, whether the point lies inside the viewport or
/// not, and the viewport's top left corner is egui's origin. So a point left of the viewport
/// has a negative egui `x`, and one above it a negative egui `y`.
pub proof fn lemma_egui_position_follows_point(p: WindowPoint, q: WindowPoint, rect: WindowRect)
    ensures
        egui_position(q, rect).0 - egui_position(p, rect).0 == q.x - p.x,
        egui_position(q, rect).1 - egui_position(p, rect).1 == p.y - q.y,
        (p.x == rect.origin.x && p.y == rect.origin.y + rect.size.height) ==> egui_position(
            p,
            rect,
        ) == (0int, 0int),
        p.x < rect.origin.x ==> egui_position(p, rect).0 < 0,
        p.y > rect.origin.y + rect.size.height ==> egui_position(p, rect).1 < 0,
{
}

/// Whether the window-space conversion of `p` lies in the window-space conversion of `rect`
/// (see `Rect::to_window_space` and `Point2D::to_window_space`).
pub open spec fn window_space_contains(rect: ScreenRect, p: ScreenPoint, screen_bounds: ScreenRect) -> bool {
    let rs = window_shift(rect.origin.x, screen_bounds);
    let ps = window_shift(p.x, screen_bounds);
    &&& rect.origin.x + rs.0 <= p.x + ps.0 < rect.origin.x + rs.0 + rect.size.width
    &&& rect.origin.y + rs.1 <= p.y + ps.1 < rect.origin.y + rs.1 + rect.size.height
}

/// A point and a rectangle that are converted to window space together keep their relation:
/// the point lies in the rectangle before the conversion exactly when it does after it, as
/// long as both are pop-out coordinates or both are not.
pub proof fn lemma_window_space_keeps_containment(
    rect: ScreenRect,
    p: ScreenPoint,
    screen_bounds: ScreenRect,
)
    requires
        (p.x >= POP_OUT_OFFSET) == (rect.origin.x >= POP_OUT_OFFSET),
    ensures
        rect.contains_spec(p) <==> window_space_contains(rect, p, screen_bounds),
{
}

/// Every point of a viewport has an egui position inside the viewport's size: the left and
/// bottom edges map to 0 and the height respectively, and the top left corner maps to the
/// egui origin.
pub proof fn lemma_egui_position_in_viewport(p: WindowPoint, rect: WindowRect)
    requires
        rect.edges_fit(),
    ensures
        rect.contains_spec(p) ==> 0 <= egui_position(p, rect).0 < rect.size.width && 0
            < egui_position(p, rect).1 <= rect.size.height,
        egui_position(
            Point2D { x: rect.origin.x, y: rect.top_spec() as i32, unit: PhantomData },
            rect,
        ) == (0int, 0int),
{
}

} // verus!
