//! The arrangement as a whole: one placement per index, in index order.

use crate::radius::calc_radius;
use crate::radius::radius_at;
use crate::radius::Radius;
use vstd::prelude::*;

verus! {

/// Where one point of the arrangement goes, in polar form.
///
/// The point lies at the angle `index` times the golden angle, measured
/// without reduction to a full turn, and at the distance `radius` from the
/// centre.
#[derive(Clone, Copy, Debug, PartialEq, Eq, Structural)]
pub struct Placement {
    /// Position in the arrangement, counted from one.
    pub index: usize,
    /// Distance from the centre.
    pub radius: Radius,
}

/// The placement of point `k` of `n` with `b` points reserved for the rim.
pub open spec fn placement_at(k: int, n: int, b: int) -> Placement {
    Placement { index: k as usize, radius: radius_at(k, n, b) }
}

/// The arrangement of `n` points with `b` of them reserved for the rim:
/// the placements of the indices `1..=n`, in that order.
pub open spec fn arrangement(n: int, b: int) -> Seq<Placement> {
    Seq::new(n as nat, |i: int| placement_at(i + 1, n, b))
}

/// Arranges `n` points in the unit disk, the last `b` of them on the rim.
///
/// `b` is the boundary count, the evenness parameter times the square root of
/// `n`, rounded to the nearest integer. A `b` of `n` or more puts every point
/// on the rim.
pub fn sunflower(n: usize, b: usize) -> (pts: Vec<Placement>)
    ensures
        pts@ == arrangement(n as int, b as int),
        pts@.len() == n,
{
    let mut pts: Vec<Placement> = Vec::new();
    let mut k: usize = 0;
    while k < n
        invariant
            k <= n,
            pts@ == Seq::new(k as nat, |i: int| placement_at(i + 1, n as int, b as int)),
        decreases n - k,
    {
        k = k + 1;
        let radius: Radius = calc_radius(k, n, b);
        pts.push(Placement { index: k, radius });
    }
    pts
}

} // verus!
