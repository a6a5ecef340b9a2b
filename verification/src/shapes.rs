//! Clickable regions: axis-aligned rectangles and circles over integer screen
//! coordinates, each with a point-containment test.

use vstd::prelude::*;

verus! {

/// A position on the screen, in integer world coordinates.
#[derive(Clone, Copy, Debug, PartialEq, Eq, Structural)]
pub struct Point {
    pub x: i32,
    pub y: i32,
}

/// An axis-aligned rectangle, given by its top-left and bottom-right corners
/// (the y axis points up, so the top edge has the larger y).
#[derive(Clone, Copy, Debug, PartialEq, Eq, Structural)]
pub struct Rectangle {
    pub top_left: Point,
    pub bottom_right: Point,
}

/// A circle, given by its center and radius.
#[derive(Clone, Copy, Debug, PartialEq, Eq, Structural)]
pub struct Circle {
    pub center: Point,
    pub radius: i32,
}

/// A clickable region of either shape.
#[derive(Clone, Copy, Debug, PartialEq, Eq, Structural)]
pub enum ClickableShape {
    Rectangle(Rectangle),
    Circle(Circle),
}

/// Whether a point lies inside a rectangle, edges included.
pub open spec fn spec_rect_contains(r: Rectangle, p: Point) -> bool {
    &&& r.top_left.x <= p.x <= r.bottom_right.x
    &&& r.bottom_right.y <= p.y <= r.top_left.y
}

/// Whether a point lies inside a circle, boundary included: its squared
/// distance from the center is at most the squared radius.
pub open spec fn spec_circle_contains(c: Circle, p: Point) -> bool {
    (p.x - c.center.x) * (p.x - c.center.x) + (p.y - c.center.y) * (p.y - c.center.y) <= c.radius
        * c.radius
}

/// Whether a point lies inside a clickable region.
pub open spec fn spec_shape_contains(s: ClickableShape, p: Point) -> bool {
    match s {
        ClickableShape::Rectangle(r) => spec_rect_contains(r, p),
        ClickableShape::Circle(c) => spec_circle_contains(c, p),
    }
}

/// The rectangle of width `w` and height `h` centered (up to the half-unit a
/// centered odd extent cannot represent) on `(x, y)`: the left and bottom
/// edges sit half the extent below the center, and the full width and height
/// are preserved.
pub open spec fn spec_centered_rect(x: int, y: int, w: int, h: int) -> Rectangle {
    Rectangle {
        top_left: Point { x: (x - w / 2) as i32, y: (y - h / 2 + h) as i32 },
        bottom_right: Point { x: (x - w / 2 + w) as i32, y: (y - h / 2) as i32 },
    }
}

impl Rectangle {
    /// The rectangle of the given width and height centered (up to the
    /// half-unit a centered odd extent cannot represent) on `pos`.
    pub fn from_pos_width_height(pos: Point, width: i32, height: i32) -> (r: Rectangle)
        requires
            0 <= width <= 100_000,
            0 <= height <= 100_000,
            -1_000_000 <= pos.x <= 1_000_000,
            -1_000_000 <= pos.y <= 1_000_000,
        ensures
            r == spec_centered_rect(pos.x as int, pos.y as int, width as int, height as int),
    {
        let left = pos.x - width / 2;
        let right = left + width;
        let bottom = pos.y - height / 2;
        let top = bottom + height;
        Rectangle { top_left: Point { x: left, y: top }, bottom_right: Point { x: right, y: bottom } }
    }

    /// Whether a point lies inside this rectangle, edges included.
    pub fn contains(&self, pos: Point) -> (r: bool)
        ensures
            r == spec_rect_contains(*self, pos),
    {
        pos.x >= self.top_left.x && pos.x <= self.bottom_right.x && pos.y <= self.top_left.y
            && pos.y >= self.bottom_right.y
    }
}

impl Circle {
    /// Whether a point lies inside this circle, boundary included.
    pub fn contains(&self, pos: Point) -> (r: bool)
        ensures
            r == spec_circle_contains(*self, pos),
    {
        let dx = (pos.x as i128) - (self.center.x as i128);
        let dy = (pos.y as i128) - (self.center.y as i128);
        let rad = self.radius as i128;
        proof {
            assert forall|v: i128| -0x1_0000_0000_i128 <= v <= 0x1_0000_0000_i128 implies 0 <= #[trigger] (v * v)
                <= 0x1_0000_0000_0000_0000_i128 by {
                assert(0 <= v * v <= 0x1_0000_0000_0000_0000_i128) by (nonlinear_arith)
                    requires
                        -0x1_0000_0000_i128 <= v <= 0x1_0000_0000_i128,
                ;
            }
            assert(0 <= dx * dx <= 0x1_0000_0000_0000_0000_i128);
            assert(0 <= dy * dy <= 0x1_0000_0000_0000_0000_i128);
            assert(0 <= rad * rad <= 0x1_0000_0000_0000_0000_i128);
        }
        let rr = rad * rad;
        dx * dx + dy * dy <= rr
    }
}

impl ClickableShape {
    /// Whether a point lies inside this clickable region.
    pub fn contains(&self, pos: Point) -> (r: bool)
        ensures
            r == spec_shape_contains(*self, pos),
    {
        match self {
            ClickableShape::Rectangle(rect) => rect.contains(pos),
            ClickableShape::Circle(circle) => circle.contains(pos),
        }
    }
}

} // verus!
