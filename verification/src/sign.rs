//! The sign of an edge function and the inclusive sign test on three of them.
use vstd::prelude::*;

verus! {

/// How a scalar compares with zero.
#[derive(Clone, Copy, PartialEq, Eq, Debug, Structural)]
pub enum Sign {
    /// Strictly below zero.
    Negative,
    /// Equal to zero, whichever zero it is.
    Zero,
    /// Strictly above zero.
    Positive,
    /// Neither below, above nor equal: not a number.
    Unordered,
}

impl Sign {
    /// The sign that three comparisons with zero describe. A lawful order
    /// answers at most one of them with yes; the first yes decides.
    pub open spec fn of_tests(below: bool, above: bool, equal: bool) -> Sign {
        if below {
            Sign::Negative
        } else if above {
            Sign::Positive
        } else if equal {
            Sign::Zero
        } else {
            Sign::Unordered
        }
    }

    /// The sign of the negated scalar.
    pub open spec fn flipped(self) -> Sign {
        match self {
            Sign::Negative => Sign::Positive,
            Sign::Positive => Sign::Negative,
            Sign::Zero => Sign::Zero,
            Sign::Unordered => Sign::Unordered,
        }
    }

    /// How a scalar compares with zero, from what the scalar type answers to
    /// "below zero?", "above zero?" and "equal to zero?".
    pub fn from_tests(below: bool, above: bool, equal: bool) -> (s: Sign)
        ensures
            s == Sign::of_tests(below, above, equal),
    {
        if below {
            Sign::Negative
        } else if above {
            Sign::Positive
        } else if equal {
            Sign::Zero
        } else {
            Sign::Unordered
        }
    }
}

/// At least one of the three edge functions is exactly zero.
pub open spec fn any_zero(u: Sign, v: Sign, w: Sign) -> bool {
    u == Sign::Zero || v == Sign::Zero || w == Sign::Zero
}

/// The three edge functions disagree in sign: one is strictly negative and
/// one is strictly positive.
pub open spec fn mixed(u: Sign, v: Sign, w: Sign) -> bool {
    &&& u == Sign::Negative || v == Sign::Negative || w == Sign::Negative
    &&& u == Sign::Positive || v == Sign::Positive || w == Sign::Positive
}

/// The test reports a hit: the edge functions do not disagree in sign and the
/// determinant is not zero.
pub open spec fn accepts(u: Sign, v: Sign, w: Sign, det: Sign) -> bool {
    !mixed(u, v, w) && det != Sign::Zero
}

/// Whether an edge function is exactly zero, which calls for the careful
/// recomputation of all three.
pub fn has_zero(u: Sign, v: Sign, w: Sign) -> (r: bool)
    ensures
        r == any_zero(u, v, w),
{
    u == Sign::Zero || v == Sign::Zero || w == Sign::Zero
}

/// Whether the ray passes outside the triangle: the edge functions are
/// neither all at least zero nor all at most zero.
pub fn is_mixed(u: Sign, v: Sign, w: Sign) -> (r: bool)
    ensures
        r == mixed(u, v, w),
{
    (u == Sign::Negative || v == Sign::Negative || w == Sign::Negative) && (u == Sign::Positive
        || v == Sign::Positive || w == Sign::Positive)
}

/// Whether the ray is parallel to the triangle's plane or the triangle has no
/// area: the determinant is exactly zero.
pub fn is_degenerate(det: Sign) -> (r: bool)
    ensures
        r == (det == Sign::Zero),
{
    det == Sign::Zero
}

/// Mixed signs are signs that are neither all at least zero nor all at most
/// zero, as long as each of them is a sign of a number.
pub proof fn mixed_is_on_neither_side(u: Sign, v: Sign, w: Sign)
    requires
        u != Sign::Unordered,
        v != Sign::Unordered,
        w != Sign::Unordered,
    ensures
        mixed(u, v, w) <==> !(u != Sign::Negative && v != Sign::Negative && w != Sign::Negative)
            && !(u != Sign::Positive && v != Sign::Positive && w != Sign::Positive),
{
}

/// The order of the vertices does not matter to the sign test.
pub proof fn mixed_ignores_order(u: Sign, v: Sign, w: Sign)
    ensures
        mixed(u, v, w) == mixed(v, w, u),
        mixed(u, v, w) == mixed(v, u, w),
        any_zero(u, v, w) == any_zero(v, w, u),
        any_zero(u, v, w) == any_zero(v, u, w),
{
}

/// The test does not cull back faces: reversing the winding of a triangle
/// negates every edge function and the determinant, and leaves the outcome
/// as it was.
pub proof fn accepts_ignores_winding(u: Sign, v: Sign, w: Sign, det: Sign)
    ensures
        mixed(u.flipped(), v.flipped(), w.flipped()) == mixed(u, v, w),
        any_zero(u.flipped(), v.flipped(), w.flipped()) == any_zero(u, v, w),
        accepts(u.flipped(), v.flipped(), w.flipped(), det.flipped()) == accepts(u, v, w, det),
{
}

/// The test is inclusive at edges and vertices: a zero sides with both
/// signs, so it never causes a rejection. Where two edge functions do not
/// disagree with each other, a zero third one is not rejected, and where all
/// three pass, so do they with any one of them replaced by zero.
pub proof fn zero_is_never_rejected(u: Sign, v: Sign, w: Sign)
    ensures
        !mixed(u, v, Sign::Zero) <==> !(u == Sign::Negative && v == Sign::Positive) && !(u
            == Sign::Positive && v == Sign::Negative),
        !mixed(u, v, w) ==> !mixed(Sign::Zero, v, w) && !mixed(u, Sign::Zero, w) && !mixed(
            u,
            v,
            Sign::Zero,
        ),
        !mixed(Sign::Zero, Sign::Zero, w),
{
}

} // verus!
