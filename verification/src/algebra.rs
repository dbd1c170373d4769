//! Small facts of real arithmetic, each within reach of the nonlinear
//! solver, and the identities on edge functions that are built from them.
use vstd::prelude::*;

verus! {

/// `u a + v b + w c`.
pub open spec fn dot(u: real, v: real, w: real, a: real, b: real, c: real) -> real {
    u * a + v * b + w * c
}

/// The order of two factors.
pub proof fn mul_commutes(a: real, b: real)
    ensures
        a * b == b * a,
{
    assert(a * b == b * a) by (nonlinear_arith);
}

/// Products with one and with zero.
pub proof fn mul_one(a: real)
    ensures
        1real * a == a,
        a * 1real == a,
        0real * a == 0real,
        a * 0real == 0real,
{
    assert(1real * a == a) by (nonlinear_arith);
    assert(a * 1real == a) by (nonlinear_arith);
    assert(0real * a == 0real) by (nonlinear_arith);
    assert(a * 0real == 0real) by (nonlinear_arith);
}

/// The three ways to group and order a product of three.
pub proof fn mul_rotates(a: real, b: real, c: real)
    ensures
        (a * b) * c == (b * c) * a,
        (a * b) * c == (c * a) * b,
        (a * b) * c == a * (b * c),
        a * (b * c) == b * (a * c),
{
    assert((a * b) * c == (b * c) * a) by (nonlinear_arith);
    assert((a * b) * c == (c * a) * b) by (nonlinear_arith);
    assert((a * b) * c == a * (b * c)) by (nonlinear_arith);
    assert(a * (b * c) == b * (a * c)) by (nonlinear_arith);
}

/// A factor times a sum or a difference, from either side.
pub proof fn mul_distributes(a: real, b: real, c: real)
    ensures
        a * (b + c) == a * b + a * c,
        a * (b - c) == a * b - a * c,
        (b + c) * a == b * a + c * a,
        (b - c) * a == b * a - c * a,
{
    assert(a * (b + c) == a * b + a * c) by (nonlinear_arith);
    assert(a * (b - c) == a * b - a * c) by (nonlinear_arith);
    assert((b + c) * a == b * a + c * a) by (nonlinear_arith);
    assert((b - c) * a == b * a - c * a) by (nonlinear_arith);
}

/// A product with a negated factor.
pub proof fn mul_negates(a: real, b: real)
    ensures
        (-a) * b == -(a * b),
        a * (-b) == -(a * b),
{
    assert((-a) * b == -(a * b)) by (nonlinear_arith);
    assert(a * (-b) == -(a * b)) by (nonlinear_arith);
}

/// A positive factor keeps the order of what it multiplies.
pub proof fn mul_keeps_order(m: real, a: real, b: real)
    requires
        m > 0real,
    ensures
        m * a > m * b <==> a > b,
{
    assert(a > b ==> m * a > m * b) by (nonlinear_arith)
        requires
            m > 0real,
    ;
    assert(a <= b ==> m * a <= m * b) by (nonlinear_arith)
        requires
            m > 0real,
    ;
}

/// The sign of a product.
pub proof fn mul_signs(a: real, b: real)
    ensures
        a > 0real && b > 0real ==> a * b > 0real,
        a > 0real && b < 0real ==> a * b < 0real,
        a < 0real && b > 0real ==> a * b < 0real,
        a < 0real && b < 0real ==> a * b > 0real,
        a == 0real || b == 0real ==> a * b == 0real,
{
    assert(a > 0real && b > 0real ==> a * b > 0real) by (nonlinear_arith);
    assert(a > 0real && b < 0real ==> a * b < 0real) by (nonlinear_arith);
    assert(a < 0real && b > 0real ==> a * b < 0real) by (nonlinear_arith);
    assert(a < 0real && b < 0real ==> a * b > 0real) by (nonlinear_arith);
    assert(a == 0real || b == 0real ==> a * b == 0real) by (nonlinear_arith);
}

/// Dividing by what was multiplied with, and the other way round.
pub proof fn div_cancels(x: real, d: real)
    requires
        d != 0real,
    ensures
        (x / d) * d == x,
        (x * d) / d == x,
        d / d == 1real,
{
    assert((x / d) * d == x) by (nonlinear_arith)
        requires
            d != 0real,
    ;
    assert((x * d) / d == x) by (nonlinear_arith)
        requires
            d != 0real,
    ;
    assert(d / d == 1real) by (nonlinear_arith)
        requires
            d != 0real,
    ;
}

/// A quotient of a sum, and a quotient times a factor.
pub proof fn div_distributes(x: real, y: real, d: real)
    requires
        d != 0real,
    ensures
        (x + y) / d == x / d + y / d,
        (x / d) * y == (x * y) / d,
{
    assert((x + y) / d == x / d + y / d) by (nonlinear_arith)
        requires
            d != 0real,
    ;
    assert((x / d) * y == (x * y) / d) by (nonlinear_arith)
        requires
            d != 0real,
    ;
}

/// The sign of a quotient.
pub proof fn div_signs(x: real, d: real)
    requires
        d != 0real,
    ensures
        x >= 0real && d > 0real ==> x / d >= 0real,
        x <= 0real && d < 0real ==> x / d >= 0real,
{
    assert(x >= 0real && d > 0real ==> x / d >= 0real) by (nonlinear_arith)
        requires
            d != 0real,
    ;
    assert(x <= 0real && d < 0real ==> x / d >= 0real) by (nonlinear_arith)
        requires
            d != 0real,
    ;
}


/// A divisor common to the three weights comes out of the combination.
pub proof fn dot_divides(u: real, v: real, w: real, d: real, a: real, b: real, c: real)
    requires
        d != 0real,
    ensures
        dot(u / d, v / d, w / d, a, b, c) == dot(u, v, w, a, b, c) / d,
{
    div_distributes(u, a, d);
    div_distributes(v, b, d);
    div_distributes(w, c, d);
    div_distributes(u * a + v * b, w * c, d);
    div_distributes(u * a, v * b, d);
}

/// The edge functions of three points of the plane, each weighted with its
/// own point, cancel: in both coordinates the combination is zero.
pub proof fn edges_cancel(ax: real, ay: real, bx: real, by: real, cx: real, cy: real)
    ensures
        dot(cx * by - cy * bx, ax * cy - ay * cx, bx * ay - by * ax, ax, bx, cx) == 0real,
        dot(cx * by - cy * bx, ax * cy - ay * cx, bx * ay - by * ax, ay, by, cy) == 0real,
{
    mul_distributes(ax, cx * by, cy * bx);
    mul_distributes(bx, ax * cy, ay * cx);
    mul_distributes(cx, bx * ay, by * ax);
    mul_rotates(cx, by, ax);
    mul_rotates(cy, bx, ax);
    mul_rotates(ay, cx, bx);
    mul_distributes(ay, cx * by, cy * bx);
    mul_distributes(by, ax * cy, ay * cx);
    mul_distributes(cy, bx * ay, by * ax);
    mul_rotates(cx, by, ay);
    mul_rotates(cy, bx, ay);
    mul_rotates(ax, cy, by);
}


/// Where a weighted combination of three points of the plane is the origin,
/// the edge function opposite the second point is to the first weight what
/// the edge function opposite the first point is to the second weight.
pub proof fn edges_follow_weights(
    u: real,
    v: real,
    w: real,
    ax: real,
    ay: real,
    bx: real,
    by: real,
    cx: real,
    cy: real,
)
    requires
        dot(u, v, w, ax, bx, cx) == 0real,
        dot(u, v, w, ay, by, cy) == 0real,
    ensures
        u * (ax * cy - ay * cx) == v * (cx * by - cy * bx),
{
    // the first coordinate times cy, the second times cx
    mul_signs(u * ax + v * bx + w * cx, cy);
    mul_distributes(cy, u * ax + v * bx, w * cx);
    mul_distributes(cy, u * ax, v * bx);
    mul_signs(u * ay + v * by + w * cy, cx);
    mul_distributes(cx, u * ay + v * by, w * cy);
    mul_distributes(cx, u * ay, v * by);
    mul_rotates(w, cx, cy);
    mul_rotates(w, cy, cx);
    mul_commutes(cx, cy);
    // both sides, multiplied out
    mul_distributes(u, ax * cy, ay * cx);
    mul_rotates(u, ax, cy);
    mul_rotates(u, ay, cx);
    mul_distributes(v, cx * by, cy * bx);
    mul_commutes(cx, by);
    mul_commutes(cy, bx);
    mul_rotates(v, by, cx);
    mul_rotates(v, bx, cy);
}

/// Edge functions that are to each other as the weights are, where the
/// weights sum to one, are the weights times the sum of the edge functions.
pub proof fn edges_are_weights_times_sum(
    u: real,
    v: real,
    w: real,
    eu: real,
    ev: real,
    ew: real,
)
    requires
        u + v + w == 1real,
        u * ev == v * eu,
        v * ew == w * ev,
        w * eu == u * ew,
    ensures
        eu == (eu + ev + ew) * u,
        ev == (eu + ev + ew) * v,
        ew == (eu + ev + ew) * w,
{
    mul_commutes(u, ev);
    mul_commutes(v, eu);
    mul_commutes(v, ew);
    mul_commutes(w, ev);
    mul_commutes(w, eu);
    mul_commutes(u, ew);
    mul_distributes(u, eu + ev, ew);
    mul_distributes(u, eu, ev);
    mul_distributes(v, eu + ev, ew);
    mul_distributes(v, eu, ev);
    mul_distributes(w, eu + ev, ew);
    mul_distributes(w, eu, ev);
    mul_distributes(eu, u + v, w);
    mul_distributes(eu, u, v);
    mul_distributes(ev, u + v, w);
    mul_distributes(ev, u, v);
    mul_distributes(ew, u + v, w);
    mul_distributes(ew, u, v);
    mul_one(eu);
    mul_one(ev);
    mul_one(ew);
}

} // verus!
