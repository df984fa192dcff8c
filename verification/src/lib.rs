//! Two-dimensional integer vectors with value-semantic arithmetic.
//!
//! A `Vector` is a pair of signed 32-bit coordinates. Addition and
//! subtraction act coordinatewise and produce new values; operands are
//! never mutated. Overflow policy: an operation whose mathematical result
//! does not fit in `i32` is ruled out by precondition, so the operations
//! neither wrap nor panic.

use vstd::prelude::*;

verus! {

/// A point or displacement in a 2-dimensional integer coordinate space.
///
/// Any pair of signed integers is a valid `Vector`; there is no further
/// invariant. Values are copied freely and never mutated in place.
#[derive(Debug, Clone, Copy, PartialEq, Eq, Structural)]
pub struct Vector {
    pub x: i32,
    pub y: i32,
}

/// Coordinatewise negation over unbounded integers.
pub open spec fn neg_of(v: (int, int)) -> (int, int) {
    (-v.0, -v.1)
}

impl Vector {
    /// The coordinates of this vector as unbounded integers.
    pub open spec fn model(self) -> (int, int) {
        (self.x as int, self.y as int)
    }

    /// Coordinatewise sum of `a` and `b`, over unbounded integers.
    pub open spec fn sum_of(a: Vector, b: Vector) -> (int, int) {
        (a.x + b.x, a.y + b.y)
    }

    /// Coordinatewise difference of `a` and `b`, over unbounded integers.
    pub open spec fn diff_of(a: Vector, b: Vector) -> (int, int) {
        (a.x - b.x, a.y - b.y)
    }

    /// Returns the vector whose coordinates are the sums of the operands'
    /// coordinates. Both sums must fit in `i32`.
    pub fn add(self, other: Vector) -> (r: Vector)
        requires
            i32::MIN <= self.x + other.x <= i32::MAX,
            i32::MIN <= self.y + other.y <= i32::MAX,
        ensures
            r.x == self.x + other.x,
            r.y == self.y + other.y,
            r.model() == Self::sum_of(self, other),
    {
        Vector { x: self.x + other.x, y: self.y + other.y }
    }

    /// Returns the vector whose coordinates are the differences of the
    /// operands' coordinates. Both differences must fit in `i32`.
    pub fn sub(self, other: Vector) -> (r: Vector)
        requires
            i32::MIN <= self.x - other.x <= i32::MAX,
            i32::MIN <= self.y - other.y <= i32::MAX,
        ensures
            r.x == self.x - other.x,
            r.y == self.y - other.y,
            r.model() == Self::diff_of(self, other),
    {
        Vector { x: self.x - other.x, y: self.y - other.y }
    }
}

/// Addition is commutative: the sum of two vectors does not depend on the
/// order of the operands.
pub proof fn lemma_add_commutes(a: Vector, b: Vector)
    ensures
        Vector::sum_of(a, b) == Vector::sum_of(b, a),
{
}

/// Subtraction is anti-symmetric: the difference of two vectors is the
/// coordinatewise negation of the difference taken in the other order.
pub proof fn lemma_sub_antisymmetric(a: Vector, b: Vector)
    ensures
        Vector::diff_of(a, b) == neg_of(Vector::diff_of(b, a)),
{
}

/// The zero vector is an identity: adding it to, or subtracting it from,
/// any vector leaves that vector's coordinates unchanged.
pub proof fn lemma_zero_identity(a: Vector)
    ensures
        Vector::sum_of(a, (Vector { x: 0, y: 0 })) == a.model(),
        Vector::diff_of(a, (Vector { x: 0, y: 0 })) == a.model(),
{
}

} // verus!
