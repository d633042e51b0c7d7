//! What holds of every arrangement.

use crate::placement::arrangement;
use crate::placement::sunflower;
use crate::placement::Placement;
use crate::radius::interior_len;
use vstd::prelude::*;

verus! {

/// An arrangement of `n` points has exactly `n` placements, whatever the
/// boundary count.
pub proof fn lemma_count(n: usize, b: usize)
    ensures
        arrangement(n as int, b as int).len() == n,
{
}

/// An arrangement of no points is empty, whatever the boundary count.
pub proof fn lemma_empty(b: usize)
    ensures
        arrangement(0, b as int) == Seq::<Placement>::empty(),
{
}

/// The placements come in index order: the one at position `i` carries the
/// index `i + 1`.
pub proof fn lemma_index_order(n: usize, b: usize)
    ensures
        forall|i: int| 0 <= i < n ==> (#[trigger] arrangement(n as int, b as int)[i]).index == i + 1,
{
}

/// Every point lies in the closed unit disk: its squared radius is a
/// fraction with a positive denominator, greater than zero and at most one.
/// No radius divides by zero.
pub proof fn lemma_inside_unit_disk(n: usize, b: usize)
    ensures
        forall|i: int| 0 <= i < n ==> (#[trigger] arrangement(n as int, b as int)[i]).radius.wf(),
{
}

/// The points on the rim are the last ones: position `i` is on the rim
/// exactly when it comes after the `interior_len(n, b)` spiral points.
pub proof fn lemma_rim_is_tail(n: usize, b: usize)
    ensures
        forall|i: int|
            0 <= i < n ==> ((#[trigger] arrangement(n as int, b as int)[i]).radius is Boundary
                <==> i >= interior_len(n as int, b as int)),
{
}

/// With a boundary count of zero no point is forced onto the rim: every
/// radius comes from the spiral formula.
pub proof fn lemma_no_rim_without_boundary_count(n: usize)
    ensures
        forall|i: int| 0 <= i < n ==> (#[trigger] arrangement(n as int, 0)[i]).radius is Interior,
{
}

/// With a boundary count of zero the spiral formula itself puts the last
/// point at radius one.
pub proof fn lemma_last_spiral_point_reaches_rim(n: usize)
    requires
        n >= 1,
    ensures
        arrangement(n as int, 0)[n - 1].radius is Interior,
        arrangement(n as int, 0)[n - 1].radius.is_unit(),
{
}

/// With a positive boundary count every spiral point lies strictly inside
/// the unit circle.
pub proof fn lemma_spiral_points_strictly_inside(n: usize, b: usize)
    requires
        b >= 1,
    ensures
        forall|i: int|
            0 <= i < n && (#[trigger] arrangement(n as int, b as int)[i]).radius is Interior
                ==> !arrangement(n as int, b as int)[i].radius.is_unit(),
{
}

/// The radius never decreases along the arrangement: a later point is at
/// least as far from the centre as an earlier one. This holds for every
/// boundary count, zero included.
pub proof fn lemma_radius_nondecreasing(n: usize, b: usize, i: int, j: int)
    requires
        0 <= i <= j < n,
    ensures
        arrangement(n as int, b as int)[i].radius.le(arrangement(n as int, b as int)[j].radius),
{
    let near = arrangement(n as int, b as int)[i].radius;
    let far = arrangement(n as int, b as int)[j].radius;
    if far is Interior {
        assert(near.numer() * far.denom() <= far.numer() * near.denom()) by (nonlinear_arith)
            requires
                0 < near.numer() <= far.numer(),
                0 < far.denom() == near.denom(),
        ;
    }
}

/// Among spiral points the radius grows strictly with the index.
pub proof fn lemma_spiral_radius_increasing(n: usize, b: usize, i: int, j: int)
    requires
        0 <= i < j < n,
        arrangement(n as int, b as int)[j].radius is Interior,
    ensures
        arrangement(n as int, b as int)[i].radius is Interior,
        arrangement(n as int, b as int)[i].radius.lt(arrangement(n as int, b as int)[j].radius),
{
    let near = arrangement(n as int, b as int)[i].radius;
    let far = arrangement(n as int, b as int)[j].radius;
    assert(near.numer() * far.denom() < far.numer() * near.denom()) by (nonlinear_arith)
        requires
            0 < near.numer() < far.numer(),
            0 < far.denom() == near.denom(),
    ;
}

/// The arrangement is a function of its two inputs: any two results of
/// `sunflower` for the same point count and boundary count are the same
/// sequence.
pub proof fn lemma_deterministic(n: usize, b: usize, first: Vec<Placement>, second: Vec<Placement>)
    requires
        call_ensures(sunflower, (n, b), first),
        call_ensures(sunflower, (n, b), second),
    ensures
        first@ == second@,
{
}

} // verus!
