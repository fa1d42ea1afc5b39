//! Points, sizes and rectangles on a grid of cells.

use crate::text::{push_signed_decimal, signed_decimal};
use vstd::prelude::*;
use vstd::string::StringExecFns;

verus! {

/// A cell of the grid, by column and row.
#[derive(Clone, Copy, Debug, Eq, Hash, PartialEq, Structural)]
pub struct Point {
    pub x: i32,
    pub y: i32,
}

/// `n`, or zero where `n` is negative.
pub open spec fn at_least_zero(n: int) -> int {
    if n >= 0 {
        n
    } else {
        0
    }
}

impl Point {
    /// The point at the given coordinates, each raised to zero where it is
    /// negative.
    pub fn new_safe(x: i32, y: i32) -> (point: Point)
        ensures
            point.x == at_least_zero(x as int),
            point.y == at_least_zero(y as int),
    {
        let x = if x >= 0 {
            x
        } else {
            0
        };
        let y = if y >= 0 {
            y
        } else {
            0
        };
        Point { x: x, y: y }
    }

    /// The point moved by `x` columns and `y` rows, and raised to zero in each
    /// coordinate that would be negative.
    pub fn add(&self, x: i32, y: i32) -> (point: Point)
        requires
            i32::MIN <= self.x + x <= i32::MAX,
            i32::MIN <= self.y + y <= i32::MAX,
        ensures
            point.x == at_least_zero(self.x + x),
            point.y == at_least_zero(self.y + y),
    {
        Point::new_safe(self.x + x, self.y + y)
    }

    /// The point at the given coordinates, neither of them negative.
    pub fn new(x: i32, y: i32) -> (point: Point)
        requires
            x >= 0,
            y >= 0,
        ensures
            point.x == x,
            point.y == y,
    {
        Point { x: x, y: y }
    }
}

/// A width and a height, in cells.
#[derive(Clone, Copy, Debug, Eq, Hash, PartialEq, Structural)]
pub struct Size {
    pub width: i32,
    pub height: i32,
}

impl Size {
    /// The size in text: the width, an "x", the height.
    pub open spec fn label(self) -> Seq<char> {
        signed_decimal(self.width as int) + "x"@ + signed_decimal(self.height as int)
    }

    /// The size of the given width and height, neither of them negative.
    pub fn new(width: i32, height: i32) -> (size: Size)
        requires
            width >= 0,
            height >= 0,
        ensures
            size.width == width,
            size.height == height,
    {
        Size { width: width, height: height }
    }

    /// Renders the size as width, "x", height.
    pub fn display(&self) -> (s: String)
        ensures
            s@ == self.label(),
    {
        let mut s = String::new();
        push_signed_decimal(&mut s, self.width as i64);
        s.append("x");
        push_signed_decimal(&mut s, self.height as i64);
        assert(s@ =~= self.label());
        s
    }
}

/// A rectangle: its four corners and its size.
#[derive(Clone, Copy, Debug, Eq, Hash, PartialEq, Structural)]
pub struct Rect {
    pub top_left: Point,
    pub top_right: Point,
    pub bottom_right: Point,
    pub bottom_left: Point,
    pub size: Size,
}

impl Rect {
    /// Whether the four corners and the size agree: the right corners lie the
    /// width to the right of the left ones, the bottom corners the height below
    /// the top ones, and nothing is negative.
    pub open spec fn well_formed(self) -> bool {
        &&& self.top_left.x >= 0
        &&& self.top_left.y >= 0
        &&& self.size.width >= 0
        &&& self.size.height >= 0
        &&& self.top_right.x == self.top_left.x + self.size.width
        &&& self.top_right.y == self.top_left.y
        &&& self.bottom_left.x == self.top_left.x
        &&& self.bottom_left.y == self.top_left.y + self.size.height
        &&& self.bottom_right.x == self.top_right.x
        &&& self.bottom_right.y == self.bottom_left.y
    }

    /// Whether a rectangle with this top-left corner and this size has all its
    /// corners on the grid.
    pub open spec fn fits(origin: Point, size: Size) -> bool {
        &&& origin.x >= 0
        &&& origin.y >= 0
        &&& 0 <= origin.x + size.width <= i32::MAX
        &&& 0 <= origin.y + size.height <= i32::MAX
    }

    /// The rectangle with the top-left corner `origin` and the size `size`.
    pub fn from_size(origin: Point, size: Size) -> (rect: Rect)
        requires
            Rect::fits(origin, size),
        ensures
            rect.top_left == origin,
            rect.size == size,
            rect.top_right.x == origin.x + size.width,
            rect.top_right.y == origin.y,
            rect.bottom_left.x == origin.x,
            rect.bottom_left.y == origin.y + size.height,
            rect.bottom_right.x == origin.x + size.width,
            rect.bottom_right.y == origin.y + size.height,
            size.width >= 0 && size.height >= 0 ==> rect.well_formed(),
    {
        let top_right = Point::new(origin.x + size.width, origin.y);
        let bottom_left = Point::new(origin.x, origin.y + size.height);
        let bottom_right = Point::new(top_right.x, bottom_left.y);

        Rect {
            top_left: origin,
            top_right: top_right,
            bottom_left: bottom_left,
            bottom_right: bottom_right,
            size: size,
        }
    }

    /// The rectangle between its top-left and its bottom-right corner.
    pub fn from_points(top_left: Point, bottom_right: Point) -> (rect: Rect)
        requires
            0 <= top_left.x <= bottom_right.x,
            0 <= top_left.y <= bottom_right.y,
        ensures
            rect.top_left == top_left,
            rect.bottom_right == bottom_right,
            rect.top_right.x == bottom_right.x,
            rect.top_right.y == top_left.y,
            rect.bottom_left.x == top_left.x,
            rect.bottom_left.y == bottom_right.y,
            rect.size.width == bottom_right.x - top_left.x,
            rect.size.height == bottom_right.y - top_left.y,
            rect.well_formed(),
    {
        let size = Size::new(bottom_right.x - top_left.x, bottom_right.y - top_left.y);
        Rect::from_size(top_left, size)
    }

    /// The rectangle with its top-left corner at (`x`, `y`) and the given width
    /// and height.
    pub fn from_values(x: i32, y: i32, width: i32, height: i32) -> (rect: Rect)
        requires
            x >= 0,
            y >= 0,
            width >= 0,
            height >= 0,
            x + width <= i32::MAX,
            y + height <= i32::MAX,
        ensures
            rect.top_left == (Point { x, y }),
            rect.size == (Size { width, height }),
            rect.top_right == (Point { x: (x + width) as i32, y }),
            rect.bottom_left == (Point { x, y: (y + height) as i32 }),
            rect.bottom_right == (Point { x: (x + width) as i32, y: (y + height) as i32 }),
            rect.well_formed(),
    {
        let origin = Point::new(x, y);
        let size = Size::new(width, height);
        Rect::from_size(origin, size)
    }

    /// The rectangle between the corners (`top_left_x`, `top_left_y`) and
    /// (`bottom_right_x`, `bottom_right_y`).
    pub fn from_point_values(
        top_left_x: i32,
        top_left_y: i32,
        bottom_right_x: i32,
        bottom_right_y: i32,
    ) -> (rect: Rect)
        requires
            0 <= top_left_x <= bottom_right_x,
            0 <= top_left_y <= bottom_right_y,
        ensures
            rect.top_left == (Point { x: top_left_x, y: top_left_y }),
            rect.bottom_right == (Point { x: bottom_right_x, y: bottom_right_y }),
            rect.top_right == (Point { x: bottom_right_x, y: top_left_y }),
            rect.bottom_left == (Point { x: top_left_x, y: bottom_right_y }),
            rect.size == (Size {
                width: (bottom_right_x - top_left_x) as i32,
                height: (bottom_right_y - top_left_y) as i32,
            }),
            rect.well_formed(),
    {
        let top_left = Point::new(top_left_x, top_left_y);
        let bottom_right = Point::new(bottom_right_x, bottom_right_y);
        Rect::from_points(top_left, bottom_right)
    }
}

} // verus!
