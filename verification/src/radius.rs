//! The radius rule of the sunflower arrangement, in exact arithmetic.
//!
//! Point `k` of `n` (counted from one) with `b` points reserved for the rim
//! lies on the rim when `k > n - b`, and otherwise at the radius
//! `sqrt((k - 1/2) / (n - (b + 1)/2))`. Doubling both sides of the fraction
//! gives the squared radius `(2k - 1) / (2n - b - 1)` over the integers, which
//! is what this module computes. The comparison `k > n - b` is read over the
//! mathematical integers: when `b` exceeds `n` every point lies on the rim.

use vstd::prelude::*;

verus! {

/// Distance of a point from the centre of the unit disk.
///
/// A point on the rim has radius one. Any other point has the radius
/// `sqrt(numerator / denominator)`: the fraction is its squared radius, kept
/// as the rule forms it and not reduced to lowest terms.
#[derive(Clone, Copy, Debug, PartialEq, Eq, Structural)]
pub enum Radius {
    /// Exactly on the unit circle.
    Boundary,
    /// Placed by the spiral formula.
    Interior { numerator: u128, denominator: u128 },
}

impl Radius {
    /// Numerator of the squared radius.
    pub open spec fn numer(self) -> int {
        match self {
            Radius::Boundary => 1,
            Radius::Interior { numerator, .. } => numerator as int,
        }
    }

    /// Denominator of the squared radius.
    pub open spec fn denom(self) -> int {
        match self {
            Radius::Boundary => 1,
            Radius::Interior { denominator, .. } => denominator as int,
        }
    }

    /// The squared radius is a fraction in `(0, 1]`, so the point lies in the
    /// closed unit disk and away from the centre.
    pub open spec fn wf(self) -> bool {
        0 < self.numer() <= self.denom()
    }

    /// The radius is exactly one.
    pub open spec fn is_unit(self) -> bool {
        self.numer() == self.denom()
    }

    /// `self` is no farther from the centre than `other`. Both are taken to
    /// have positive denominators, so the fractions compare by cross
    /// multiplication.
    pub open spec fn le(self, other: Radius) -> bool {
        self.numer() * other.denom() <= other.numer() * self.denom()
    }

    /// `self` is strictly closer to the centre than `other`.
    pub open spec fn lt(self, other: Radius) -> bool {
        self.numer() * other.denom() < other.numer() * self.denom()
    }
}

/// How many of `n` points follow the spiral formula when `b` are reserved for
/// the rim: all but the last `b`, and none once `b` reaches `n`.
pub open spec fn interior_len(n: int, b: int) -> int {
    if b < n {
        n - b
    } else {
        0
    }
}

/// Point `k` of `n` is forced onto the rim: `k > n - b` over the integers.
pub open spec fn on_boundary(k: int, n: int, b: int) -> bool {
    k + b > n
}

/// Numerator of the squared spiral radius of point `k`: twice `k - 1/2`.
pub open spec fn spiral_numerator(k: int) -> int {
    2 * k - 1
}

/// Denominator of the squared spiral radius: twice `n - (b + 1)/2`.
pub open spec fn spiral_denominator(n: int, b: int) -> int {
    2 * n - b - 1
}

/// The radius of point `k` of `n` with `b` points reserved for the rim.
pub open spec fn radius_at(k: int, n: int, b: int) -> Radius {
    if on_boundary(k, n, b) {
        Radius::Boundary
    } else {
        Radius::Interior {
            numerator: spiral_numerator(k) as u128,
            denominator: spiral_denominator(n, b) as u128,
        }
    }
}

/// Counts the points that follow the spiral formula.
pub fn interior_count(n: usize, b: usize) -> (m: usize)
    ensures
        m == interior_len(n as int, b as int),
        m <= n,
{
    if b < n {
        n - b
    } else {
        0
    }
}

/// Computes the radius of point `k` of `n`, counted from one, with `b` points
/// reserved for the rim.
///
/// The result is the rim for the last `b` indices and for any index past `n`.
/// For every other index it is the fraction `(2k - 1) / (2n - b - 1)`, whose
/// denominator is at least `n` and whose value is at most one.
pub fn calc_radius(k: usize, n: usize, b: usize) -> (r: Radius)
    requires
        k >= 1,
    ensures
        r == radius_at(k as int, n as int, b as int),
        r is Boundary <==> k > interior_len(n as int, b as int),
        r.numer() == if r is Boundary { 1 } else { spiral_numerator(k as int) },
        r.denom() == if r is Boundary { 1 } else { spiral_denominator(n as int, b as int) },
        r.wf(),
{
    if k > interior_count(n, b) {
        Radius::Boundary
    } else {
        let twice_k: u128 = 2 * (k as u128);
        let twice_n: u128 = 2 * (n as u128);
        Radius::Interior { numerator: twice_k - 1, denominator: twice_n - (b as u128) - 1 }
    }
}

} // verus!
