//! 2-component integer vectors for grid and texture coordinates.

use vstd::prelude::*;
use vstd::math::abs;
use vstd::string::StringExecFns;
use crate::strfmt::{dec_str_signed, i64_to_dec};

verus! {

/// The text form of a vector: its components in decimal.
pub open spec fn int_vector2_str(v: IntVector2) -> Seq<char> {
    "IntVector2(X="@ + dec_str_signed(v.x as int) + ", Y="@ + dec_str_signed(v.y as int) + ")"@
}

/// A 2-component integer vector.
#[derive(Debug, Clone, Copy, PartialEq, Eq, Structural, Hash)]
pub struct IntVector2 {
    pub x: i32,
    pub y: i32,
}

impl IntVector2 {
    /// Create a new vector from its components.
    pub fn new(x: i32, y: i32) -> (r: Self)
        ensures
            r == (IntVector2 { x, y }),
    {
        Self { x, y }
    }

    /// The squared magnitude; every intermediate product and the sum
    /// must fit the component range.
    pub fn size_squared(self) -> (r: i32)
        requires
            self.x * self.x <= i32::MAX,
            self.y * self.y <= i32::MAX,
            self.x * self.x + self.y * self.y <= i32::MAX,
        ensures
            r == self.x * self.x + self.y * self.y,
    {
        proof {
            assert(self.x * self.x >= 0 && self.y * self.y >= 0) by (nonlinear_arith);
        }
        self.x * self.x + self.y * self.y
    }

    /// Component-wise addition; each sum must fit the component range.
    pub fn add(self, other: IntVector2) -> (r: Self)
        requires
            i32::MIN <= self.x + other.x <= i32::MAX,
            i32::MIN <= self.y + other.y <= i32::MAX,
        ensures
            r.x == self.x + other.x,
            r.y == self.y + other.y,
    {
        Self::new(self.x + other.x, self.y + other.y)
    }

    /// Component-wise subtraction; each difference must fit the
    /// component range.
    pub fn sub(self, other: IntVector2) -> (r: Self)
        requires
            i32::MIN <= self.x - other.x <= i32::MAX,
            i32::MIN <= self.y - other.y <= i32::MAX,
        ensures
            r.x == self.x - other.x,
            r.y == self.y - other.y,
    {
        Self::new(self.x - other.x, self.y - other.y)
    }

    /// Scales both components by a factor; each product must fit the
    /// component range.
    pub fn scale(self, factor: i32) -> (r: Self)
        requires
            i32::MIN <= self.x * factor <= i32::MAX,
            i32::MIN <= self.y * factor <= i32::MAX,
        ensures
            r.x == self.x * factor,
            r.y == self.y * factor,
    {
        Self::new(self.x * factor, self.y * factor)
    }

    /// The dot product; every intermediate product and the sum must
    /// fit the component range.
    pub fn dot(self, other: IntVector2) -> (r: i32)
        requires
            i32::MIN <= self.x * other.x <= i32::MAX,
            i32::MIN <= self.y * other.y <= i32::MAX,
            i32::MIN <= self.x * other.x + self.y * other.y <= i32::MAX,
        ensures
            r == self.x * other.x + self.y * other.y,
    {
        self.x * other.x + self.y * other.y
    }

    /// The Manhattan distance to another point: the sum of the
    /// component distances. Each difference and the sum must fit the
    /// component range.
    pub fn manhattan_distance(self, other: IntVector2) -> (r: i32)
        requires
            i32::MIN < self.x - other.x <= i32::MAX,
            i32::MIN < self.y - other.y <= i32::MAX,
            abs(self.x - other.x) + abs(self.y - other.y) <= i32::MAX,
        ensures
            r == abs(self.x - other.x) + abs(self.y - other.y),
    {
        let dx = self.x - other.x;
        let dy = self.y - other.y;
        let ax = if dx < 0 {
            -dx
        } else {
            dx
        };
        let ay = if dy < 0 {
            -dy
        } else {
            dy
        };
        ax + ay
    }

    /// Renders the vector with its components in decimal.
    pub fn to_display_string(&self) -> (s: String)
        ensures
            s@ == int_vector2_str(*self),
    {
        let mut s: String = "IntVector2(X=".to_owned();
        s.append(i64_to_dec(self.x as i64).as_str());
        s.append(", Y=");
        s.append(i64_to_dec(self.y as i64).as_str());
        s.append(")");
        proof {
            assert(s@ =~= int_vector2_str(*self));
        }
        s
    }
}

} // verus!
