//! Points and rectangles of the game world, in whole world units.

use vstd::prelude::*;

verus! {

/// Furthest that a room may reach from the origin along either axis.
pub const WORLD_LIMIT: i32 = 1_000_000_000;

/// A place in the world, or a step between two places.
#[derive(Debug, Default, Clone, Copy, PartialEq, Eq, Structural)]
pub struct Point {
    pub x: i32,
    pub y: i32,
}

/// The square of the distance between two points.
pub open spec fn distance_squared(a: Point, b: Point) -> nat {
    ((a.x - b.x) * (a.x - b.x) + (a.y - b.y) * (a.y - b.y)) as nat
}

impl Point {
    /// Both coordinates lie within the world limit.
    pub open spec fn in_world(self) -> bool {
        &&& -WORLD_LIMIT <= self.x <= WORLD_LIMIT
        &&& -WORLD_LIMIT <= self.y <= WORLD_LIMIT
    }

    /// The square of the distance to `other`.
    pub fn distance_squared(self, other: Point) -> (squared: u128)
        ensures
            squared == distance_squared(self, other),
    {
        let dx: i128 = self.x as i128 - other.x as i128;
        let dy: i128 = self.y as i128 - other.y as i128;
        assert(0 <= dx * dx <= 0xffff_ffff * 0xffff_ffff) by (nonlinear_arith)
            requires
                -0xffff_ffff <= dx <= 0xffff_ffff,
        ;
        assert(0 <= dy * dy <= 0xffff_ffff * 0xffff_ffff) by (nonlinear_arith)
            requires
                -0xffff_ffff <= dy <= 0xffff_ffff,
        ;
        (dx * dx + dy * dy) as u128
    }
}

/// An axis-aligned rectangle, given by its lowest and its highest corner.
#[derive(Debug, Default, Clone, Copy, PartialEq, Eq, Structural)]
pub struct Rect {
    pub min: Point,
    pub max: Point,
}

impl Rect {
    /// The corners are in order and within the world limit.
    pub open spec fn wf(self) -> bool {
        &&& self.min.x <= self.max.x
        &&& self.min.y <= self.max.y
        &&& self.min.in_world()
        &&& self.max.in_world()
    }

    /// Whether the corners are in order and within the world limit.
    pub fn is_valid(&self) -> (valid: bool)
        ensures
            valid == self.wf(),
    {
        self.min.x <= self.max.x && self.min.y <= self.max.y && -WORLD_LIMIT <= self.min.x
            && self.max.x <= WORLD_LIMIT && -WORLD_LIMIT <= self.min.y && self.max.y
            <= WORLD_LIMIT
    }

    /// The rectangle spanned by two opposite corners, whichever they are.
    pub fn from_corners(a: Point, b: Point) -> (rect: Rect)
        ensures
            rect.min.x == if a.x <= b.x { a.x } else { b.x },
            rect.max.x == if a.x <= b.x { b.x } else { a.x },
            rect.min.y == if a.y <= b.y { a.y } else { b.y },
            rect.max.y == if a.y <= b.y { b.y } else { a.y },
    {
        let (min_x, max_x) = if a.x <= b.x { (a.x, b.x) } else { (b.x, a.x) };
        let (min_y, max_y) = if a.y <= b.y { (a.y, b.y) } else { (b.y, a.y) };
        Rect { min: Point { x: min_x, y: min_y }, max: Point { x: max_x, y: max_y } }
    }

    /// Half of the extent along each axis, rounded down.
    pub open spec fn spec_half_size(self) -> Point {
        Point {
            x: ((self.max.x - self.min.x) / 2) as i32,
            y: ((self.max.y - self.min.y) / 2) as i32,
        }
    }

    /// The middle: the lowest corner moved by the half size.
    pub open spec fn spec_center(self) -> Point {
        Point {
            x: (self.min.x + self.spec_half_size().x) as i32,
            y: (self.min.y + self.spec_half_size().y) as i32,
        }
    }

    /// Whether `point` lies in the rectangle, its border included.
    pub open spec fn spec_contains(self, point: Point) -> bool {
        &&& self.min.x <= point.x <= self.max.x
        &&& self.min.y <= point.y <= self.max.y
    }

    /// Half of the extent along each axis, rounded down.
    pub fn half_size(&self) -> (half: Point)
        requires
            self.wf(),
        ensures
            half == self.spec_half_size(),
            0 <= half.x <= WORLD_LIMIT,
            0 <= half.y <= WORLD_LIMIT,
    {
        Point { x: (self.max.x - self.min.x) / 2, y: (self.max.y - self.min.y) / 2 }
    }

    /// The middle of the rectangle.
    pub fn center(&self) -> (center: Point)
        requires
            self.wf(),
        ensures
            center == self.spec_center(),
            self.spec_contains(center),
    {
        let half: Point = self.half_size();
        Point { x: self.min.x + half.x, y: self.min.y + half.y }
    }

    /// Whether `point` lies in the rectangle, its border included.
    pub fn contains(&self, point: Point) -> (inside: bool)
        ensures
            inside == self.spec_contains(point),
    {
        self.min.x <= point.x && point.x <= self.max.x && self.min.y <= point.y && point.y
            <= self.max.y
    }

    /// The rectangle around the same middle whose half size is the given
    /// percentage of this one's, rounded down.
    pub open spec fn spec_scaled(self, percent: int) -> Rect {
        let center = self.spec_center();
        let half = self.spec_half_size();
        let half_x = half.x * percent / 100;
        let half_y = half.y * percent / 100;
        Rect {
            min: Point { x: (center.x - half_x) as i32, y: (center.y - half_y) as i32 },
            max: Point { x: (center.x + half_x) as i32, y: (center.y + half_y) as i32 },
        }
    }

    /// The rectangle around the same middle whose half size is `percent`
    /// hundredths of this one's, rounded down. It lies within this one.
    pub fn scaled(&self, percent: u8) -> (inner: Rect)
        requires
            self.wf(),
            percent <= 100,
        ensures
            inner == self.spec_scaled(percent as int),
            inner.wf(),
            self.spec_contains(inner.min),
            self.spec_contains(inner.max),
    {
        let center: Point = self.center();
        let half: Point = self.half_size();
        assert(0 <= half.x * percent <= half.x * 100 && 0 <= half.y * percent <= half.y * 100)
            by (nonlinear_arith)
            requires
                0 <= half.x,
                0 <= half.y,
                0 <= percent <= 100,
        ;
        let half_x: i64 = (half.x as i64) * (percent as i64) / 100;
        let half_y: i64 = (half.y as i64) * (percent as i64) / 100;
        Rect {
            min: Point { x: (center.x as i64 - half_x) as i32, y: (center.y as i64 - half_y) as i32 },
            max: Point { x: (center.x as i64 + half_x) as i32, y: (center.y as i64 + half_y) as i32 },
        }
    }
}

} // verus!
