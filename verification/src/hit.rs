//! The record of a hit and the last decision of the test.
use crate::sign::{accepts, is_degenerate, is_mixed, Sign};
use vstd::prelude::*;

verus! {

/// Geometric information about a ray-triangle intersection.
pub struct Intersection<S> {
    /// Parametric distance from the ray origin to the intersection.
    pub t: S,
    /// Barycentric coordinate.
    pub u: S,
    /// Barycentric coordinate.
    pub v: S,
    /// Barycentric coordinate.
    pub w: S,
}

/// What the test reports: `hit`, where the edge functions with the signs `u`,
/// `v` and `w` do not disagree and the determinant with the sign `det` is not
/// zero, and nothing otherwise.
///
/// A zero edge function disagrees with nothing, so that a hit on an edge or
/// on a vertex is a hit. Neither the sign nor the size of the distance is
/// looked at: hits behind the origin and at any distance are reported, and
/// the caller filters by `t`.
pub fn outcome<S>(u: Sign, v: Sign, w: Sign, det: Sign, hit: Intersection<S>) -> (r: Option<
    Intersection<S>,
>)
    ensures
        r == (if accepts(u, v, w, det) {
            Some(hit)
        } else {
            None::<Intersection<S>>
        }),
{
    if is_mixed(u, v, w) || is_degenerate(det) {
        None
    } else {
        Some(hit)
    }
}

} // verus!
