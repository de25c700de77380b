//! 3-component integer vectors for grid coordinates and voxel positions.

use vstd::prelude::*;
use vstd::math::abs;
use vstd::string::StringExecFns;
use crate::strfmt::{dec_str_signed, i64_to_dec};

verus! {

/// The text form of a vector: its components in decimal.
pub open spec fn int_vector_str(v: IntVector) -> Seq<char> {
    "IntVector(X="@ + dec_str_signed(v.x as int) + ", Y="@ + dec_str_signed(v.y as int) + ", Z="@
        + dec_str_signed(v.z as int) + ")"@
}

/// A 3-component integer vector.
#[derive(Debug, Clone, Copy, PartialEq, Eq, Structural, Hash)]
pub struct IntVector {
    pub x: i32,
    pub y: i32,
    pub z: i32,
}

impl IntVector {
    /// Create a new vector from its components.
    pub fn new(x: i32, y: i32, z: i32) -> (r: Self)
        ensures
            r == (IntVector { x, y, z }),
    {
        Self { x, y, z }
    }

    /// The squared magnitude; every intermediate product and sum must
    /// fit the component range.
    pub fn size_squared(self) -> (r: i32)
        requires
            self.x * self.x <= i32::MAX,
            self.y * self.y <= i32::MAX,
            self.z * self.z <= i32::MAX,
            self.x * self.x + self.y * self.y + self.z * self.z <= i32::MAX,
    ensures
            r == self.x * self.x + self.y * self.y + self.z * self.z,
    {
        proof {
            assert(self.x * self.x >= 0 && self.y * self.y >= 0 && self.z * self.z >= 0) by (
            nonlinear_arith);
        }
        self.x * self.x + self.y * self.y + self.z * self.z
    }

    /// Component-wise addition; each sum must fit the component range.
    pub fn add(self, other: IntVector) -> (r: Self)
        requires
            i32::MIN <= self.x + other.x <= i32::MAX,
            i32::MIN <= self.y + other.y <= i32::MAX,
            i32::MIN <= self.z + other.z <= i32::MAX,
        ensures
            r.x == self.x + other.x,
            r.y == self.y + other.y,
            r.z == self.z + other.z,
    {
        Self::new(self.x + other.x, self.y + other.y, self.z + other.z)
    }

    /// Component-wise subtraction; each difference must fit the
    /// component range.
    pub fn sub(self, other: IntVector) -> (r: Self)
        requires
            i32::MIN <= self.x - other.x <= i32::MAX,
            i32::MIN <= self.y - other.y <= i32::MAX,
            i32::MIN <= self.z - other.z <= i32::MAX,
        ensures
            r.x == self.x - other.x,
            r.y == self.y - other.y,
            r.z == self.z - other.z,
    {
        Self::new(self.x - other.x, self.y - other.y, self.z - other.z)
    }

    /// Scales every component by a factor; each product must fit the
    /// component range.
    pub fn scale(self, factor: i32) -> (r: Self)
        requires
            i32::MIN <= self.x * factor <= i32::MAX,
            i32::MIN <= self.y * factor <= i32::MAX,
            i32::MIN <= self.z * factor <= i32::MAX,
        ensures
            r.x == self.x * factor,
            r.y == self.y * factor,
            r.z == self.z * factor,
    {
        Self::new(self.x * factor, self.y * factor, self.z * factor)
    }

    /// The cross product; every intermediate product and difference
    /// must fit the component range.
    pub fn cross(self, other: IntVector) -> (r: Self)
        requires
            i32::MIN <= self.y * other.z <= i32::MAX,
            i32::MIN <= self.z * other.y <= i32::MAX,
            i32::MIN <= self.z * other.x <= i32::MAX,
            i32::MIN <= self.x * other.z <= i32::MAX,
            i32::MIN <= self.x * other.y <= i32::MAX,
            i32::MIN <= self.y * other.x <= i32::MAX,
            i32::MIN <= self.y * other.z - self.z * other.y <= i32::MAX,
            i32::MIN <= self.z * other.x - self.x * other.z <= i32::MAX,
            i32::MIN <= self.x * other.y - self.y * other.x <= i32::MAX,
        ensures
            r.x == self.y * other.z - self.z * other.y,
            r.y == self.z * other.x - self.x * other.z,
            r.z == self.x * other.y - self.y * other.x,
    {
        Self::new(
            self.y * other.z - self.z * other.y,
            self.z * other.x - self.x * other.z,
            self.x * other.y - self.y * other.x,
        )
    }

    /// The dot product; every intermediate product and sum must fit the
    /// component range.
    pub fn dot(self, other: IntVector) -> (r: i32)
        requires
            i32::MIN <= self.x * other.x <= i32::MAX,
            i32::MIN <= self.y * other.y <= i32::MAX,
            i32::MIN <= self.z * other.z <= i32::MAX,
            i32::MIN <= self.x * other.x + self.y * other.y <= i32::MAX,
            i32::MIN <= self.x * other.x + self.y * other.y + self.z * other.z <= i32::MAX,
        ensures
            r == self.x * other.x + self.y * other.y + self.z * other.z,
    {
        self.x * other.x + self.y * other.y + self.z * other.z
    }

    /// The Manhattan distance to another point: the sum of the
    /// component distances. Each difference and the sum must fit the
    /// component range.
    pub fn manhattan_distance(self, other: IntVector) -> (r: i32)
        requires
            i32::MIN < self.x - other.x <= i32::MAX,
            i32::MIN < self.y - other.y <= i32::MAX,
            i32::MIN < self.z - other.z <= i32::MAX,
            abs(self.x - other.x) + abs(self.y - other.y) + abs(self.z - other.z) <= i32::MAX,
        ensures
            r == abs(self.x - other.x) + abs(self.y - other.y) + abs(self.z - other.z),
    {
        let dx = self.x - other.x;
        let dy = self.y - other.y;
        let dz = self.z - other.z;
        let ax = if dx < 0 {
            -dx
        } else {
            dx
        };
        let ay = if dy < 0 {
            -dy
        } else {
            dy
        };
        let az = if dz < 0 {
            -dz
        } else {
            dz
        };
        ax + ay + az
    }

    /// Renders the vector with its components in decimal.
    pub fn to_display_string(&self) -> (s: String)
        ensures
            s@ == int_vector_str(*self),
    {
        let mut s: String = "IntVector(X=".to_owned();
        s.append(i64_to_dec(self.x as i64).as_str());
        s.append(", Y=");
        s.append(i64_to_dec(self.y as i64).as_str());
        s.append(", Z=");
        s.append(i64_to_dec(self.z as i64).as_str());
        s.append(")");
        proof {
            assert(s@ =~= int_vector_str(*self));
        }
        s
    }
}

} // verus!
