//! What the decisions mean, with real numbers standing for the scalars.
//!
//! A frame is built around the dominant axis of the ray's direction, and in
//! the space of the frame the ray runs through the origin of a plane, onto
//! which the triangle casts a shadow. The sign test on the edge functions of
//! the shadow accepts exactly where the shadow has an area and holds the
//! origin, edges and vertices included, and the edge functions divided by
//! their sum are then the barycentric coordinates of the origin. Rounding is
//! not part of this: a scalar type answers for its own arithmetic.
use crate::algebra::{
    div_cancels, div_distributes, div_signs, dot, dot_divides, edges_are_weights_times_sum,
    edges_cancel, edges_follow_weights, mul_commutes, mul_distributes, mul_keeps_order,
    mul_negates, mul_one, mul_signs,
};
use crate::axis::dominant_axis;
use crate::sign::{accepts, any_zero, mixed, Sign};
use vstd::prelude::*;

verus! {

/// The absolute value.
pub open spec fn magnitude(x: real) -> real {
    if x < 0real {
        -x
    } else {
        x
    }
}

/// How a real number compares with zero.
pub open spec fn sign(x: real) -> Sign {
    Sign::of_tests(x < 0real, x > 0real, x == 0real)
}

/// The dominant axis of the direction `(x, y, z)`.
pub open spec fn axis(x: real, y: real, z: real) -> int {
    dominant_axis(
        magnitude(x) > magnitude(y),
        magnitude(x) > magnitude(z),
        magnitude(y) > magnitude(z),
    )
}

/// The component of `(x, y, z)` along axis `k`.
pub open spec fn component(x: real, y: real, z: real, k: int) -> real {
    if k == 0 {
        x
    } else if k == 1 {
        y
    } else {
        z
    }
}

/// The edge function of two points of the plane: twice the signed area of
/// the triangle that they span with the origin.
pub open spec fn edge(px: real, py: real, qx: real, qy: real) -> real {
    px * qy - py * qx
}

/// The shadow of a triangle in ray space: the coordinates of its three
/// vertices in the plane through whose origin the ray runs.
pub struct Shadow {
    pub ax: real,
    pub ay: real,
    pub bx: real,
    pub by: real,
    pub cx: real,
    pub cy: real,
}

impl Shadow {
    /// The edge function opposite the first vertex.
    pub open spec fn u(self) -> real {
        edge(self.cx, self.cy, self.bx, self.by)
    }

    /// The edge function opposite the second vertex.
    pub open spec fn v(self) -> real {
        edge(self.ax, self.ay, self.cx, self.cy)
    }

    /// The edge function opposite the third vertex.
    pub open spec fn w(self) -> real {
        edge(self.bx, self.by, self.ax, self.ay)
    }

    /// The determinant: the sum of the edge functions.
    pub open spec fn det(self) -> real {
        self.u() + self.v() + self.w()
    }

    /// An edge function is zero, which calls for the careful recomputation.
    pub open spec fn touched(self) -> bool {
        any_zero(sign(self.u()), sign(self.v()), sign(self.w()))
    }

    /// The edge functions pass the sign test.
    pub open spec fn passes(self) -> bool {
        !mixed(sign(self.u()), sign(self.v()), sign(self.w()))
    }

    /// The test reports a hit.
    pub open spec fn accepted(self) -> bool {
        accepts(sign(self.u()), sign(self.v()), sign(self.w()), sign(self.det()))
    }

    /// The origin is the combination of the vertices with the weights `u`,
    /// `v` and `w`, none of them negative, which sum to one: it is a point of
    /// the triangle.
    pub open spec fn holds_origin(self, u: real, v: real, w: real) -> bool {
        &&& u >= 0real
        &&& v >= 0real
        &&& w >= 0real
        &&& u + v + w == 1real
        &&& dot(u, v, w, self.ax, self.bx, self.cx) == 0real
        &&& dot(u, v, w, self.ay, self.by, self.cy) == 0real
    }

    /// The shadow with every coordinate multiplied by `k`.
    pub open spec fn scaled(self, k: real) -> Shadow {
        Shadow {
            ax: k * self.ax,
            ay: k * self.ay,
            bx: k * self.bx,
            by: k * self.by,
            cx: k * self.cx,
            cy: k * self.cy,
        }
    }

    /// The triangle on the other side of the edge from the first vertex to
    /// the second, with `(dx, dy)` for its third vertex. It runs through the
    /// shared edge in the opposite direction.
    pub open spec fn neighbour(self, dx: real, dy: real) -> Shadow {
        Shadow { ax: self.bx, ay: self.by, bx: self.ax, by: self.ay, cx: dx, cy: dy }
    }
}

/// The dominant component of a direction is a largest one, and it is zero
/// only where the whole direction is: for every other direction the
/// divisions that build the frame are defined.
pub proof fn dominant_component_is_not_zero(x: real, y: real, z: real)
    ensures
        magnitude(component(x, y, z, axis(x, y, z))) >= magnitude(x),
        magnitude(component(x, y, z, axis(x, y, z))) >= magnitude(y),
        magnitude(component(x, y, z, axis(x, y, z))) >= magnitude(z),
        component(x, y, z, axis(x, y, z)) == 0real <==> x == 0real && y == 0real && z == 0real,
{
}

/// A component divided by one that is at least as large lies between minus
/// one and one. So do the shears of a frame, which are the other two
/// components divided by the dominant one.
pub proof fn shear_is_bounded(dk: real, dz: real)
    requires
        dz != 0real,
        magnitude(dk) <= magnitude(dz),
    ensures
        -1real <= dk / dz <= 1real,
{
    let s = dk / dz;
    div_cancels(dk, dz);
    mul_keeps_order(magnitude(dz), s, 1real);
    mul_keeps_order(magnitude(dz), -1real, s);
    mul_one(magnitude(dz));
    mul_commutes(s, dz);
    mul_negates(dz, s);
    mul_negates(magnitude(dz), 1real);
}

/// The magnitude of a product.
proof fn magnitude_of_product(k: real, x: real)
    ensures
        magnitude(k * x) == magnitude(k) * magnitude(x),
{
    mul_signs(k, x);
    mul_negates(k, x);
    mul_negates(-k, x);
    mul_negates(k, -x);
}

/// Neither reversing a direction nor stretching it changes its dominant
/// axis.
pub proof fn dominant_axis_ignores_scale(k: real, x: real, y: real, z: real)
    requires
        k != 0real,
    ensures
        axis(k * x, k * y, k * z) == axis(x, y, z),
{
    magnitude_of_product(k, x);
    magnitude_of_product(k, y);
    magnitude_of_product(k, z);
    mul_keeps_order(magnitude(k), magnitude(x), magnitude(y));
    mul_keeps_order(magnitude(k), magnitude(x), magnitude(z));
    mul_keeps_order(magnitude(k), magnitude(y), magnitude(z));
}

/// The edge function changes sign where its two points change places.
pub proof fn edge_is_antisymmetric(px: real, py: real, qx: real, qy: real)
    ensures
        edge(qx, qy, px, py) == -edge(px, py, qx, qy),
        sign(edge(qx, qy, px, py)) == sign(edge(px, py, qx, qy)).flipped(),
{
    mul_commutes(qx, py);
    mul_commutes(qy, px);
}

/// Scaling the points that go into an edge function by a positive factor
/// scales its value by the square of the factor and keeps its sign.
pub proof fn scaling_keeps_edge_sign(k: real, px: real, py: real, qx: real, qy: real)
    requires
        k > 0real,
    ensures
        edge(k * px, k * py, k * qx, k * qy) == (k * k) * edge(px, py, qx, qy),
        sign(edge(k * px, k * py, k * qx, k * qy)) == sign(edge(px, py, qx, qy)),
{
    assert((k * px) * (k * qy) == (k * k) * (px * qy)) by (nonlinear_arith);
    assert((k * py) * (k * qx) == (k * k) * (py * qx)) by (nonlinear_arith);
    mul_distributes(k * k, px * qy, py * qx);
    mul_signs(k, k);
    mul_signs(k * k, edge(px, py, qx, qy));
}

/// Scaling what goes into the edge functions of a triangle by a positive
/// factor changes no decision of the test: not the sign of an edge function
/// or of the determinant, not whether the recomputation is called for, not
/// whether the signs are mixed, and not whether a hit is reported.
pub proof fn scaling_keeps_sign_test(k: real, t: Shadow)
    requires
        k > 0real,
    ensures
        sign(t.scaled(k).u()) == sign(t.u()),
        sign(t.scaled(k).v()) == sign(t.v()),
        sign(t.scaled(k).w()) == sign(t.w()),
        sign(t.scaled(k).det()) == sign(t.det()),
        t.scaled(k).touched() == t.touched(),
        t.scaled(k).passes() == t.passes(),
        t.scaled(k).accepted() == t.accepted(),
{
    scaling_keeps_edge_sign(k, t.cx, t.cy, t.bx, t.by);
    scaling_keeps_edge_sign(k, t.ax, t.ay, t.cx, t.cy);
    scaling_keeps_edge_sign(k, t.bx, t.by, t.ax, t.ay);
    mul_distributes(k * k, t.u() + t.v(), t.w());
    mul_distributes(k * k, t.u(), t.v());
    mul_signs(k, k);
    mul_signs(k * k, t.det());
}

/// Edge functions that pass the sign test, divided by their sum where that
/// is not zero, are weights: none is negative and they sum to one.
pub proof fn normalised_edges_are_weights(eu: real, ev: real, ew: real)
    requires
        accepts(sign(eu), sign(ev), sign(ew), sign(eu + ev + ew)),
    ensures
        eu / (eu + ev + ew) >= 0real,
        ev / (eu + ev + ew) >= 0real,
        ew / (eu + ev + ew) >= 0real,
        eu / (eu + ev + ew) + ev / (eu + ev + ew) + ew / (eu + ev + ew) == 1real,
{
    let det = eu + ev + ew;
    div_signs(eu, det);
    div_signs(ev, det);
    div_signs(ew, det);
    div_distributes(eu + ev, ew, det);
    div_distributes(eu, ev, det);
    div_cancels(det, det);
}

/// Where the test reports a hit, the ray runs through the triangle: the
/// edge functions divided by the determinant are the barycentric coordinates
/// of the origin in the shadow.
pub proof fn accepted_shadow_holds_origin(t: Shadow)
    requires
        t.accepted(),
    ensures
        t.holds_origin(t.u() / t.det(), t.v() / t.det(), t.w() / t.det()),
{
    let det = t.det();
    normalised_edges_are_weights(t.u(), t.v(), t.w());
    edges_cancel(t.ax, t.ay, t.bx, t.by, t.cx, t.cy);
    dot_divides(t.u(), t.v(), t.w(), det, t.ax, t.bx, t.cx);
    dot_divides(t.u(), t.v(), t.w(), det, t.ay, t.by, t.cy);
    mul_one(det);
    div_cancels(0real, det);
}

/// Where the ray runs through the triangle, edges and vertices included, the
/// edge functions are the barycentric coordinates of the origin times the
/// determinant. So they pass the sign test, and unless the shadow has no
/// area, a hit is reported and the edge functions divided by the determinant
/// are those coordinates.
pub proof fn shadow_that_holds_origin_passes(t: Shadow, u: real, v: real, w: real)
    requires
        t.holds_origin(u, v, w),
    ensures
        t.u() == t.det() * u,
        t.v() == t.det() * v,
        t.w() == t.det() * w,
        t.passes(),
        t.accepted() <==> t.det() != 0real,
        t.det() != 0real ==> t.u() / t.det() == u && t.v() / t.det() == v && t.w() / t.det() == w,
{
    let det = t.det();
    edges_follow_weights(u, v, w, t.ax, t.ay, t.bx, t.by, t.cx, t.cy);
    edges_follow_weights(v, w, u, t.bx, t.by, t.cx, t.cy, t.ax, t.ay);
    edges_follow_weights(w, u, v, t.cx, t.cy, t.ax, t.ay, t.bx, t.by);
    edges_are_weights_times_sum(u, v, w, t.u(), t.v(), t.w());
    mul_signs(det, u);
    mul_signs(det, v);
    mul_signs(det, w);
    if det != 0real {
        mul_commutes(det, u);
        mul_commutes(det, v);
        mul_commutes(det, w);
        div_cancels(u, det);
        div_cancels(v, det);
        div_cancels(w, det);
    }
}

/// The test reports a hit exactly where the shadow of the triangle has an
/// area and holds the origin.
pub proof fn accepted_means_origin_in_triangle(t: Shadow)
    ensures
        t.accepted() <==> t.det() != 0real && exists|u: real, v: real, w: real|
            t.holds_origin(u, v, w),
{
    if t.accepted() {
        accepted_shadow_holds_origin(t);
    }
    if t.det() != 0real && exists|u: real, v: real, w: real| t.holds_origin(u, v, w) {
        let (u, v, w) = choose|u: real, v: real, w: real| t.holds_origin(u, v, w);
        shadow_that_holds_origin_passes(t, u, v, w);
    }
}

/// Two triangles that share an edge leave no gap along it. The edge function
/// of the shared edge is for one triangle the negative of what it is for the
/// other, whatever the ray, so the two never disagree on the side of the
/// edge that the ray passes. And where the ray runs through a point of the
/// edge, that edge function is zero and both triangles pass the sign test:
/// each reports the hit unless its own shadow has no area.
pub proof fn shared_edge_is_watertight(t: Shadow, dx: real, dy: real, s: real)
    ensures
        t.neighbour(dx, dy).w() == -t.w(),
        sign(t.neighbour(dx, dy).w()) == sign(t.w()).flipped(),
        0real <= s <= 1real && (1real - s) * t.ax + s * t.bx == 0real && (1real - s) * t.ay + s
            * t.by == 0real ==> {
            &&& t.w() == 0real
            &&& t.passes()
            &&& t.neighbour(dx, dy).passes()
            &&& t.accepted() <==> t.det() != 0real
            &&& t.neighbour(dx, dy).accepted() <==> t.neighbour(dx, dy).det() != 0real
        },
{
    let n = t.neighbour(dx, dy);
    edge_is_antisymmetric(t.bx, t.by, t.ax, t.ay);
    if 0real <= s <= 1real && (1real - s) * t.ax + s * t.bx == 0real && (1real - s) * t.ay + s
        * t.by == 0real {
        mul_one(t.cx);
        mul_one(t.cy);
        mul_one(dx);
        mul_one(dy);
        assert(t.holds_origin(1real - s, s, 0real));
        assert(n.holds_origin(s, 1real - s, 0real));
        shadow_that_holds_origin_passes(t, 1real - s, s, 0real);
        shadow_that_holds_origin_passes(n, s, 1real - s, 0real);
        mul_one(t.det());
    }
}

} // verus!
