//! Planar fixed-point geometry shared by the mechanism controllers.

use vstd::prelude::*;

verus! {

/// Coordinates are kept well inside `i64` so that sums and differences of any
/// two in-bounds vectors never overflow.
pub const COORD_LIMIT_MILLI: i64 = 0x4000_0000;

/// A planar vector in thousandths of a metre.
#[derive(Clone, Copy, Debug, PartialEq, Eq, Structural)]
pub struct Vec2Milli {
    pub x: i64,
    pub y: i64,
}

impl Vec2Milli {
    /// Both coordinates lie within the table's coordinate range.
    pub open spec fn in_bounds(self) -> bool {
        &&& -COORD_LIMIT_MILLI <= self.x <= COORD_LIMIT_MILLI
        &&& -COORD_LIMIT_MILLI <= self.y <= COORD_LIMIT_MILLI
    }

    pub open spec fn is_zero(self) -> bool {
        self.x == 0 && self.y == 0
    }

    pub open spec fn spec_sub(self, other: Self) -> Self {
        Vec2Milli { x: (self.x - other.x) as i64, y: (self.y - other.y) as i64 }
    }

    /// Cross product of two vectors, as an unbounded integer; zero exactly
    /// when the vectors are parallel.
    pub open spec fn cross(self, other: Self) -> int {
        self.x * other.y - self.y * other.x
    }

    /// Dot product of two vectors, as an unbounded integer.
    pub open spec fn dot(self, other: Self) -> int {
        self.x * other.x + self.y * other.y
    }

    pub fn zero() -> (v: Self)
        ensures
            v == (Vec2Milli { x: 0 as i64, y: 0 as i64 }),
            v.is_zero(),
    {
        Vec2Milli { x: 0, y: 0 }
    }

    pub fn sub(self, other: Self) -> (v: Self)
        requires
            self.in_bounds(),
            other.in_bounds(),
        ensures
            v == self.spec_sub(other),
    {
        Vec2Milli { x: self.x - other.x, y: self.y - other.y }
    }
}

} // verus!
