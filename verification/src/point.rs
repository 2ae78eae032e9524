//! Positions and directions in 3-space over fixed-point scalars.
//!
//! `Point` is a position, `Vector3` a direction.  Every operation mirrors the
//! usual component-wise formulas, with the fixed-point rounding of each scalar
//! step pinned down exactly by the spec functions over raw-integer triples.

use vstd::prelude::*;

use crate::fx::{
    add_val, div_val, mul_val, neg_val, sqrt_val, sub_val, Fx,
};

verus! {

/// The raw components of a point or vector, as mathematical integers.
pub type Raw3 = (int, int, int);

/// Raw result of component-wise addition.
pub open spec fn add3(a: Raw3, b: Raw3) -> Raw3 {
    (add_val(a.0, b.0), add_val(a.1, b.1), add_val(a.2, b.2))
}

/// Raw result of component-wise subtraction.
pub open spec fn sub3(a: Raw3, b: Raw3) -> Raw3 {
    (sub_val(a.0, b.0), sub_val(a.1, b.1), sub_val(a.2, b.2))
}

/// Raw result of component-wise negation.
pub open spec fn neg3(a: Raw3) -> Raw3 {
    (neg_val(a.0), neg_val(a.1), neg_val(a.2))
}

/// Raw result of scaling by a scalar.
pub open spec fn scale3(a: Raw3, k: int) -> Raw3 {
    (mul_val(a.0, k), mul_val(a.1, k), mul_val(a.2, k))
}

/// Raw result of the dot product: three rounded products, summed.
pub open spec fn dot3(a: Raw3, b: Raw3) -> int {
    add_val(add_val(mul_val(a.0, b.0), mul_val(a.1, b.1)), mul_val(a.2, b.2))
}

/// Raw result of the cross product.
pub open spec fn cross3(a: Raw3, b: Raw3) -> Raw3 {
    (
        sub_val(mul_val(a.1, b.2), mul_val(a.2, b.1)),
        sub_val(mul_val(a.2, b.0), mul_val(a.0, b.2)),
        sub_val(mul_val(a.0, b.1), mul_val(a.1, b.0)),
    )
}

/// Raw magnitude: the rounded square root of the rounded squared magnitude.
pub open spec fn mag3(a: Raw3) -> int {
    sqrt_val(dot3(a, a))
}

/// Raw result of normalization; the zero vector, which has no direction,
/// maps to the zero vector.
pub open spec fn norm3(a: Raw3) -> Raw3 {
    let m = mag3(a);
    if m == 0 {
        (0, 0, 0)
    } else {
        (div_val(a.0, m), div_val(a.1, m), div_val(a.2, m))
    }
}

/// A position in space.
#[derive(Clone, Copy, PartialEq, Eq, Structural, Debug)]
pub struct Point {
    pub x: Fx,
    pub y: Fx,
    pub z: Fx,
}

/// A direction in space.
#[derive(Clone, Copy, PartialEq, Eq, Structural, Debug)]
pub struct Vector3 {
    pub x: Fx,
    pub y: Fx,
    pub z: Fx,
}

impl Point {
    /// The raw components, for specs.
    pub open spec fn raw3(self) -> Raw3 {
        (self.x.raw as int, self.y.raw as int, self.z.raw as int)
    }

    /// The origin.
    pub fn zero() -> (r: Point)
        ensures
            r.raw3() == (0int, 0int, 0int),
    {
        Point { x: Fx::zero(), y: Fx::zero(), z: Fx::zero() }
    }

    /// The rounded squared distance from the origin.
    pub fn magnitude_sq(&self) -> (r: Fx)
        ensures
            r.raw as int == dot3(self.raw3(), self.raw3()),
    {
        self.x.times(self.x).plus(self.y.times(self.y)).plus(self.z.times(self.z))
    }

    /// Component-wise difference of two positions.
    pub fn minus(self, other: Point) -> (r: Point)
        ensures
            r.raw3() == sub3(self.raw3(), other.raw3()),
    {
        Point { x: self.x.minus(other.x), y: self.y.minus(other.y), z: self.z.minus(other.z) }
    }

    /// Component-wise sum of two positions.
    pub fn plus(self, rhs: Point) -> (r: Point)
        ensures
            r.raw3() == add3(self.raw3(), rhs.raw3()),
    {
        Point { x: self.x.plus(rhs.x), y: self.y.plus(rhs.y), z: self.z.plus(rhs.z) }
    }

    /// The same components, read as a direction.
    pub fn to_vector(self) -> (r: Vector3)
        ensures
            r.raw3() == self.raw3(),
    {
        Vector3 { x: self.x, y: self.y, z: self.z }
    }
}

impl Vector3 {
    /// The raw components, for specs.
    pub open spec fn raw3(self) -> Raw3 {
        (self.x.raw as int, self.y.raw as int, self.z.raw as int)
    }

    /// The zero vector.
    pub fn zero() -> (r: Vector3)
        ensures
            r.raw3() == (0int, 0int, 0int),
    {
        Vector3 { x: Fx::zero(), y: Fx::zero(), z: Fx::zero() }
    }

    /// The same components, read as a position.
    pub fn to_point(self) -> (r: Point)
        ensures
            r.raw3() == self.raw3(),
    {
        Point { x: self.x, y: self.y, z: self.z }
    }

    /// Component-wise sum.
    pub fn plus(self, rhs: Vector3) -> (r: Vector3)
        ensures
            r.raw3() == add3(self.raw3(), rhs.raw3()),
    {
        Vector3 { x: self.x.plus(rhs.x), y: self.y.plus(rhs.y), z: self.z.plus(rhs.z) }
    }

    /// Component-wise difference.
    pub fn minus(self, rhs: Vector3) -> (r: Vector3)
        ensures
            r.raw3() == sub3(self.raw3(), rhs.raw3()),
    {
        Vector3 { x: self.x.minus(rhs.x), y: self.y.minus(rhs.y), z: self.z.minus(rhs.z) }
    }

    /// Component-wise negation.
    pub fn neg(self) -> (r: Vector3)
        ensures
            r.raw3() == neg3(self.raw3()),
    {
        Vector3 { x: self.x.neg(), y: self.y.neg(), z: self.z.neg() }
    }

    /// Scaling by a scalar.
    pub fn scale(self, k: Fx) -> (r: Vector3)
        ensures
            r.raw3() == scale3(self.raw3(), k.raw as int),
    {
        Vector3 { x: self.x.times(k), y: self.y.times(k), z: self.z.times(k) }
    }

    /// The dot product.
    pub fn dot(&self, other: &Vector3) -> (r: Fx)
        ensures
            r.raw as int == dot3(self.raw3(), other.raw3()),
    {
        self.x.times(other.x).plus(self.y.times(other.y)).plus(self.z.times(other.z))
    }

    /// The cross product.
    pub fn cross(&self, other: &Vector3) -> (r: Vector3)
        ensures
            r.raw3() == cross3(self.raw3(), other.raw3()),
    {
        Vector3 {
            x: self.y.times(other.z).minus(self.z.times(other.y)),
            y: self.z.times(other.x).minus(self.x.times(other.z)),
            z: self.x.times(other.y).minus(self.y.times(other.x)),
        }
    }

    /// The rounded magnitude.
    pub fn magnitude(&self) -> (r: Fx)
        ensures
            r.raw as int == mag3(self.raw3()),
    {
        self.dot(self).sqrt()
    }

    /// The direction scaled to (approximately) unit length; the zero vector is
    /// returned unchanged.
    pub fn normalize(self) -> (r: Vector3)
        ensures
            r.raw3() == norm3(self.raw3()),
    {
        let m = self.magnitude();
        if m.raw == 0 {
            Vector3 { x: Fx::zero(), y: Fx::zero(), z: Fx::zero() }
        } else {
            Vector3 { x: self.x.divide(m), y: self.y.divide(m), z: self.z.divide(m) }
        }
    }
}

} // verus!
