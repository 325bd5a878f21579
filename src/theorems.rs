//! Facts about conics that relate several operations of [`crate::Ellipse`].
use vstd::prelude::*;

use crate::ellipse::{
    transform_conic,
    center_x_of, center_y_of, conic_of, has_center, is_real_ellipse, major_delta_of, minor_delta_of,
    rotated_a, rotated_b, rotated_c, scaled, squared_semi_axes, trace_of, orientation_sign,
    transform_conic_of, Conic,
};
use crate::{Direction, Point};
use vstd::arithmetic::mul::{
    lemma_mul_is_associative, lemma_mul_is_commutative, lemma_mul_is_distributive_add,
    lemma_mul_is_distributive_add_other_way, lemma_mul_is_distributive_sub, lemma_mul_nonzero,
};

verus! {

/// `conic_of` keeps each coefficient in its place. Since `from_coefficient`
/// ensures `r@ == conic_of(a, b, c, d, e, f)` and `parameter` ensures that
/// it returns the fields of `self@`, reading the coefficients back gives
/// exactly those a conic was built from.
pub proof fn lemma_parameter_round_trip(a: i32, b: i32, c: i32, d: i32, e: i32, f: i32)
    ensures
        ({
            let q = conic_of(a as int, b as int, c as int, d as int, e as int, f as int);
            q.a == a && q.b == b && q.c == c && q.d == d && q.e == e && q.f == f
        }),
{
}

/// For the linear terms `d = -d0`, `e = -e0` of a conic with quadratic part
/// `(a, b, c)` centered at `(x, y)`, the adjugate of the quadratic part takes
/// `(d0, e0)` to `δ (x, y)`.
proof fn lemma_adjugate(a: int, b: int, c: int, x: int, y: int, d0: int, e0: int, delta: int)
    requires
        d0 == 2 * a * x + b * y,
        e0 == b * x + 2 * c * y,
        delta == 4 * (a * c) - b * b,
    ensures
        2 * (c * d0) - b * e0 == delta * x,
        2 * (a * e0) - b * d0 == delta * y,
{
    assert(c * d0 == 2 * ((a * c) * x) + (b * c) * y) by (nonlinear_arith)
        requires
            d0 == 2 * a * x + b * y,
    ;
    assert(b * e0 == (b * b) * x + 2 * ((b * c) * y)) by (nonlinear_arith)
        requires
            e0 == b * x + 2 * c * y,
    ;
    assert(a * e0 == (a * b) * x + 2 * ((a * c) * y)) by (nonlinear_arith)
        requires
            e0 == b * x + 2 * c * y,
    ;
    assert(b * d0 == 2 * ((a * b) * x) + (b * b) * y) by (nonlinear_arith)
        requires
            d0 == 2 * a * x + b * y,
    ;
    assert(delta * x == 4 * ((a * c) * x) - (b * b) * x) by (nonlinear_arith)
        requires
            delta == 4 * (a * c) - b * b,
    ;
    assert(delta * y == 4 * ((a * c) * y) - (b * b) * y) by (nonlinear_arith)
        requires
            delta == 4 * (a * c) - b * b,
    ;
}

/// `b d e - a e² - c d²` for the linear terms `d`, `e` of a conic centered
/// at `(x, y)` equals `-δ f0`, where `f0 = a x² + b xy + c y²`.
proof fn lemma_translated_part(a: int, b: int, c: int, x: int, y: int, delta: int)
    requires
        delta == 4 * (a * c) - b * b,
    ensures
        ({
            let d = -(2 * a * x + b * y);
            let e = -(b * x + 2 * c * y);
            b * d * e - a * e * e - c * d * d == -(delta * (a * x * x + b * x * y + c * y * y))
        }),
{
    let d0 = 2 * a * x + b * y;
    let e0 = b * x + 2 * c * y;
    let d = -d0;
    let e = -e0;
    let f0 = a * x * x + b * x * y + c * y * y;
    lemma_adjugate(a, b, c, x, y, d0, e0, delta);
    // (d0, e0) · adj · (d0, e0) = δ (x d0 + y e0) = 2 δ f0.
    assert(d0 * (2 * (c * d0)) == 2 * (c * (d0 * d0))) by (nonlinear_arith);
    assert(d0 * (b * e0) == b * (d0 * e0)) by (nonlinear_arith);
    assert(e0 * (2 * (a * e0)) == 2 * (a * (e0 * e0))) by (nonlinear_arith);
    assert(e0 * (b * d0) == b * (d0 * e0)) by (nonlinear_arith);
    lemma_mul_is_distributive_sub(d0, 2 * (c * d0), b * e0);
    lemma_mul_is_distributive_sub(e0, 2 * (a * e0), b * d0);
    assert(d0 * (delta * x) + e0 * (delta * y) == delta * (x * d0 + y * e0)) by (nonlinear_arith);
    assert(x * d0 + y * e0 == 2 * f0) by (nonlinear_arith)
        requires
            d0 == 2 * a * x + b * y,
            e0 == b * x + 2 * c * y,
            f0 == a * x * x + b * x * y + c * y * y,
    ;
    assert(delta * (2 * f0) == 2 * (delta * f0)) by (nonlinear_arith);
    assert(b * d * e == b * (d0 * e0)) by (nonlinear_arith)
        requires
            d == -d0,
            e == -e0,
    ;
    assert(a * e * e == a * (e0 * e0)) by (nonlinear_arith)
        requires
            e == -e0,
    ;
    assert(c * d * d == c * (d0 * d0)) by (nonlinear_arith)
        requires
            d == -d0,
    ;
}

/// The quadratic part of a rotated ellipse, in terms of `p = major²`,
/// `q = minor²`, `s = u²`, `t = v²`, `w = uv`.
proof fn lemma_rotated_parts(major: int, minor: int, u: int, v: int)
    ensures
        ({
            let p = major * major;
            let q = minor * minor;
            let s = u * u;
            let t = v * v;
            let w = u * v;
            &&& rotated_a(major, minor, u, v) == p * t + q * s
            &&& rotated_b(major, minor, u, v) == 2 * (p - q) * w
            &&& rotated_c(major, minor, u, v) == p * s + q * t
            &&& w * w == s * t
        }),
{
    let p = major * major;
    let q = minor * minor;
    assert(p * v * v == p * (v * v)) by (nonlinear_arith);
    assert(q * u * u == q * (u * u)) by (nonlinear_arith);
    assert(p * u * u == p * (u * u)) by (nonlinear_arith);
    assert(q * v * v == q * (v * v)) by (nonlinear_arith);
    assert(2 * (p - q) * u * v == 2 * (p - q) * (u * v)) by (nonlinear_arith);
    assert((u * v) * (u * v) == (u * u) * (v * v)) by (nonlinear_arith);
}

/// The round trip of a rotated ellipse over integers, for `mj >= mn > 0`.
proof fn lemma_rotated_round_trip(x: int, y: int, mj: int, mn: int, u: int, v: int)
    requires
        mj >= mn > 0,
        u != 0 || v != 0,
    ensures
        ({
            let q = transform_conic(x, y, mj, mn, u, v);
            let k = mj * mj - mn * mn;
            &&& is_real_ellipse(q)
            &&& center_x_of(q) == x * minor_delta_of(q)
            &&& center_y_of(q) == y * minor_delta_of(q)
            &&& k >= 0
            &&& orientation_sign(q) * (q.c - q.a) == k * (u * u - v * v)
            &&& orientation_sign(q) * q.b == k * (2 * u * v)
            &&& squared_semi_axes(q, mj * mj, mn * mn)
        }),
{
    let q = transform_conic(x, y, mj, mn, u, v);
    lemma_rotated_parts(mj, mn, u, v);
    let p = mj * mj;
    let pq = mn * mn;
    let s = u * u;
    let t = v * v;
    let w = u * v;
    let r = s + t;
    assert(p >= pq > 0) by (nonlinear_arith)
        requires
            mj >= mn > 0,
            p == mj * mj,
            pq == mn * mn,
    ;
    assert(r > 0) by (nonlinear_arith)
        requires
            u != 0 || v != 0,
            s == u * u,
            t == v * v,
            r == s + t,
    ;
    let a = q.a;
    let b = q.b;
    let c = q.c;
    let delta = minor_delta_of(q);
    // The quadratic part: δ = 4 p q r².
    let pp = p * p;
    let qq = pq * pq;
    let ppq = p * pq;
    let st = s * t;
    let ss = s * s;
    let tt = t * t;
    lemma_mul_is_distributive_add(a, p * s, pq * t);
    lemma_mul_is_distributive_add_other_way(p * s, p * t, pq * s);
    lemma_mul_is_distributive_add_other_way(pq * t, p * t, pq * s);
    assert((p * t) * (p * s) == pp * st) by (nonlinear_arith)
        requires
            pp == p * p,
            st == s * t,
    ;
    assert((pq * s) * (p * s) == ppq * ss) by (nonlinear_arith)
        requires
            ppq == p * pq,
            ss == s * s,
    ;
    assert((p * t) * (pq * t) == ppq * tt) by (nonlinear_arith)
        requires
            ppq == p * pq,
            tt == t * t,
    ;
    assert((pq * s) * (pq * t) == qq * st) by (nonlinear_arith)
        requires
            qq == pq * pq,
            st == s * t,
    ;
    assert(a * c == pp * st + ppq * tt + ppq * ss + qq * st);
    assert((p - pq) * (p - pq) == pp - 2 * ppq + qq) by (nonlinear_arith)
        requires
            pp == p * p,
            qq == pq * pq,
            ppq == p * pq,
    ;
    assert(b * b == 4 * ((p - pq) * (p - pq) * (w * w))) by (nonlinear_arith)
        requires
            b == 2 * (p - pq) * w,
    ;
    assert((pp - 2 * ppq + qq) * st == pp * st - 2 * (ppq * st) + qq * st) by (nonlinear_arith);
    assert(r * r == ss + 2 * st + tt) by (nonlinear_arith)
        requires
            r == s + t,
            st == s * t,
            ss == s * s,
            tt == t * t,
    ;
    assert(ppq * (r * r) == ppq * ss + 2 * (ppq * st) + ppq * tt) by (nonlinear_arith)
        requires
            r * r == ss + 2 * st + tt,
    ;
    assert(delta == 4 * (ppq * (r * r)));
    assert(delta > 0) by (nonlinear_arith)
        requires
            delta == 4 * (ppq * (r * r)),
            ppq == p * pq,
            p > 0,
            pq > 0,
            r > 0,
    ;
    // The center.
    let d0 = 2 * a * x + b * y;
    let e0 = b * x + 2 * c * y;
    lemma_adjugate(a, b, c, x, y, d0, e0, delta);
    assert(b * q.e == -(b * e0)) by (nonlinear_arith)
        requires
            q.e == -e0,
    ;
    assert(c * q.d == -(c * d0)) by (nonlinear_arith)
        requires
            q.d == -d0,
    ;
    assert(b * q.d == -(b * d0)) by (nonlinear_arith)
        requires
            q.d == -d0,
    ;
    assert(a * q.e == -(a * e0)) by (nonlinear_arith)
        requires
            q.e == -e0,
    ;
    assert(x * delta == delta * x && y * delta == delta * y) by (nonlinear_arith);
    // The full determinant: Δ = -2 K δ with K = p q r.
    let kk = p * pq * r;
    assert(mj * mj * (mn * mn) * (u * u + v * v) == kk);
    lemma_translated_part(a, b, c, x, y, delta);
    let f0 = a * x * x + b * x * y + c * y * y;
    let big = major_delta_of(q);
    let f = q.f;
    assert(f == f0 - kk);
    assert(8 * a * c * f == 2 * f * (4 * (a * c))) by (nonlinear_arith);
    assert(2 * f * b * b == 2 * f * (b * b)) by (nonlinear_arith);
    assert(2 * f * delta == 2 * f * (4 * (a * c)) - 2 * f * (b * b)) by (nonlinear_arith)
        requires
            delta == 4 * (a * c) - b * b,
    ;
    assert(2 * b * q.d * q.e == 2 * (b * q.d * q.e)) by (nonlinear_arith);
    assert(2 * a * q.e * q.e == 2 * (a * q.e * q.e)) by (nonlinear_arith);
    assert(2 * c * q.d * q.d == 2 * (c * q.d * q.d)) by (nonlinear_arith);
    assert(big == 2 * f * delta - 2 * (delta * f0));
    assert(2 * f * delta - 2 * (delta * f0) == -2 * kk * delta) by (nonlinear_arith)
        requires
            f == f0 - kk,
    ;
    let tr = trace_of(q);
    assert(a + c == (p + pq) * r) by (nonlinear_arith)
        requires
            a == p * t + pq * s,
            c == p * s + pq * t,
            r == s + t,
    ;
    assert(tr > 0) by (nonlinear_arith)
        requires
            tr == 2 * (a + c),
            a + c == (p + pq) * r,
            p > 0,
            pq > 0,
            r > 0,
    ;
    assert(kk > 0) by (nonlinear_arith)
        requires
            kk == p * pq * r,
            p > 0,
            pq > 0,
            r > 0,
    ;
    assert(big * tr < 0) by (nonlinear_arith)
        requires
            big == -2 * kk * delta,
            kk > 0,
            delta > 0,
            tr > 0,
    ;
    // The squared semi-axes.
    let dd = delta * delta;
    assert(-(big * tr) == 4 * (kk * (a + c)) * delta) by (nonlinear_arith)
        requires
            big == -2 * kk * delta,
            tr == 2 * (a + c),
    ;
    assert(4 * (kk * (a + c)) == (p + pq) * delta) by (nonlinear_arith)
        requires
            kk == p * pq * r,
            a + c == (p + pq) * r,
            delta == 4 * (ppq * (r * r)),
            ppq == p * pq,
    ;
    assert((p + pq) * delta * delta == (p + pq) * dd) by (nonlinear_arith)
        requires
            dd == delta * delta,
    ;
    assert(big * big == 4 * (kk * kk) * dd) by (nonlinear_arith)
        requires
            big == -2 * kk * delta,
            dd == delta * delta,
    ;
    assert(4 * (kk * kk) == (p * pq) * delta) by (nonlinear_arith)
        requires
            kk == p * pq * r,
            delta == 4 * (ppq * (r * r)),
            ppq == p * pq,
    ;
    assert((p * pq) * delta * dd == (p * pq) * (delta * delta * delta)) by (nonlinear_arith)
        requires
            dd == delta * delta,
    ;
    // The axis direction.
    assert(c - a == (p - pq) * (s - t)) by (nonlinear_arith)
        requires
            a == p * t + pq * s,
            c == p * s + pq * t,
    ;
    assert(2 * (p - pq) * w == (p - pq) * (2 * u * v)) by (nonlinear_arith)
        requires
            w == u * v,
    ;
}

/// Building an ellipse from its center, semi-axes and direction and then
/// reading its parametric description back recovers all of them: the center
/// exactly, the squared semi-axes exactly, and the direction of the major
/// axis up to a half turn: its doubled-angle vector is `major² - minor²`
/// times that of `rotation`. For a circle (`major == minor`) that vector is
/// zero, as every direction is an axis. A zero `rotation` has no direction
/// and is left out.
pub proof fn lemma_transform_round_trip(center: Point, major: u16, minor: u16, rotation: Direction)
    requires
        major >= minor > 0,
        rotation.x != 0 || rotation.y != 0,
    ensures
        ({
            let q = transform_conic_of(center, major, minor, rotation);
            let (u, v) = (rotation.x as int, rotation.y as int);
            let k = major * major - minor * minor;
            &&& is_real_ellipse(q)
            &&& center_x_of(q) == center.x * minor_delta_of(q)
            &&& center_y_of(q) == center.y * minor_delta_of(q)
            &&& k >= 0
            &&& orientation_sign(q) * (q.c - q.a) == k * (u * u - v * v)
            &&& orientation_sign(q) * q.b == k * (2 * u * v)
            &&& squared_semi_axes(q, major * major, minor * minor)
        }),
{
    lemma_rotated_round_trip(
        center.x as int,
        center.y as int,
        major as int,
        minor as int,
        rotation.x as int,
        rotation.y as int,
    );
}

/// Swapping the two semi-axes and turning the direction a quarter turn, from
/// `(u, v)` to `(-v, u)`, gives the same conic.
pub proof fn lemma_transform_swap(x: int, y: int, mj: int, mn: int, u: int, v: int)
    ensures
        transform_conic(x, y, mj, mn, u, v) == transform_conic(x, y, mn, mj, -v, u),
{
    assert(rotated_a(mj, mn, u, v) == rotated_a(mn, mj, -v, u)) by (nonlinear_arith);
    assert(rotated_b(mj, mn, u, v) == rotated_b(mn, mj, -v, u)) by (nonlinear_arith);
    assert(rotated_c(mj, mn, u, v) == rotated_c(mn, mj, -v, u)) by (nonlinear_arith);
    assert(mj * mj * (mn * mn) * (u * u + v * v) == mn * mn * (mj * mj) * ((-v) * (-v) + u * u)) by (
    nonlinear_arith);
}

/// When the second semi-axis given is the longer one, the round trip still
/// recovers the center and the squared semi-axes exactly; the major axis is
/// then the one given as `minor`, across `rotation`: its doubled-angle vector
/// is `minor² - major²` times that of the quarter-turned `(-v, u)`.
pub proof fn lemma_transform_round_trip_swapped(center: Point, major: u16, minor: u16, rotation: Direction)
    requires
        minor > major > 0,
        rotation.x != 0 || rotation.y != 0,
    ensures
        ({
            let q = transform_conic_of(center, major, minor, rotation);
            let (u, v) = (rotation.x as int, rotation.y as int);
            let k = minor * minor - major * major;
            &&& is_real_ellipse(q)
            &&& center_x_of(q) == center.x * minor_delta_of(q)
            &&& center_y_of(q) == center.y * minor_delta_of(q)
            &&& k > 0
            &&& orientation_sign(q) * (q.c - q.a) == k * (v * v - u * u)
            &&& orientation_sign(q) * q.b == k * (-2 * u * v)
            &&& squared_semi_axes(q, major * major, minor * minor)
        }),
{
    let (x, y) = (center.x as int, center.y as int);
    let (mj, mn) = (major as int, minor as int);
    let (u, v) = (rotation.x as int, rotation.y as int);
    lemma_transform_swap(x, y, mj, mn, u, v);
    lemma_rotated_round_trip(x, y, mn, mj, -v, u);
    assert(mn * mn - mj * mj > 0) by (nonlinear_arith)
        requires
            mn > mj > 0,
    ;
    assert((-v) * (-v) - u * u == v * v - u * u) by (nonlinear_arith);
    assert(2 * (-v) * u == -2 * u * v) by (nonlinear_arith);
    let q = transform_conic(x, y, mn, mj, -v, u);
    assert(squared_semi_axes(q, mn * mn, mj * mj));
    assert(mn * mn + mj * mj == mj * mj + mn * mn);
    assert((mn * mn) * (mj * mj) == (mj * mj) * (mn * mn)) by (nonlinear_arith);
}

/// Distributing a factor over a sum of five terms.
proof fn lemma_scale_sum(k: int, t1: int, t2: int, t3: int, t4: int, t5: int)
    ensures
        k * t1 + k * t2 - k * t3 - k * t4 - k * t5 == k * (t1 + t2 - t3 - t4 - t5),
{
    assert(k * t1 + k * t2 - k * t3 - k * t4 - k * t5 == k * (t1 + t2 - t3 - t4 - t5)) by (
    nonlinear_arith);
}

/// A nonzero factor cancels from both sides of an equation.
proof fn lemma_cancel(k: int, x: int, y: int)
    requires
        k != 0,
    ensures
        (k * x == k * y) == (x == y),
{
    if k * x == k * y {
        lemma_mul_is_distributive_sub(k, x, y);
        lemma_mul_nonzero(k, x - y);
    }
}

/// Multiplying a conic's equation through by `k != 0` leaves the curve as it
/// is, and with it every answer: the determinants take the factors `k²` and
/// `k³`, the center's homogeneous coordinates all take `k²` (the same
/// point), the axis vector takes `|k|` (the same direction), and the classification and squared semi-axes stay. Storing
/// the halved matrix instead of `M` is the case `k = 1/2` of this, scaled
/// back by `2`.
pub proof fn lemma_scale_invariance(q: Conic, k: int, s: int, t: int)
    requires
        k != 0,
    ensures
        ({
            let z = scaled(q, k);
            let m = if k > 0 { k } else { -k };
            &&& minor_delta_of(z) == k * k * minor_delta_of(q)
            &&& major_delta_of(z) == k * k * k * major_delta_of(q)
            &&& trace_of(z) == k * trace_of(q)
            &&& center_x_of(z) == k * k * center_x_of(q)
            &&& center_y_of(z) == k * k * center_y_of(q)
            &&& has_center(z) == has_center(q)
            &&& is_real_ellipse(z) == is_real_ellipse(q)
            &&& orientation_sign(z) * (z.c - z.a) == m * (orientation_sign(q) * (q.c - q.a))
            &&& orientation_sign(z) * z.b == m * (orientation_sign(q) * q.b)
            &&& squared_semi_axes(z, s, t) == squared_semi_axes(q, s, t)
        }),
{
    let z = scaled(q, k);
    let (a, b, c, d, e, f) = (q.a, q.b, q.c, q.d, q.e, q.f);
    let dl = minor_delta_of(q);
    let bg = major_delta_of(q);
    let tr = trace_of(q);
    let k2 = k * k;
    let k3 = k * k * k;
    assert(k2 > 0) by (nonlinear_arith)
        requires
            k != 0,
            k2 == k * k,
    ;
    assert(minor_delta_of(z) == k2 * dl) by (nonlinear_arith)
        requires
            z == scaled(q, k),
            dl == 4 * (a * c) - b * b,
            k2 == k * k,
            minor_delta_of(z) == 4 * (z.a * z.c) - z.b * z.b,
            z.a == k * a,
            z.b == k * b,
            z.c == k * c,
    ;
    assert(8 * (k * a) * (k * c) * (k * f) == k3 * (8 * a * c * f)) by (nonlinear_arith)
        requires
            k3 == k * k * k,
    ;
    assert(2 * (k * b) * (k * d) * (k * e) == k3 * (2 * b * d * e)) by (nonlinear_arith)
        requires
            k3 == k * k * k,
    ;
    assert(2 * (k * a) * (k * e) * (k * e) == k3 * (2 * a * e * e)) by (nonlinear_arith)
        requires
            k3 == k * k * k,
    ;
    assert(2 * (k * c) * (k * d) * (k * d) == k3 * (2 * c * d * d)) by (nonlinear_arith)
        requires
            k3 == k * k * k,
    ;
    assert(2 * (k * f) * (k * b) * (k * b) == k3 * (2 * f * b * b)) by (nonlinear_arith)
        requires
            k3 == k * k * k,
    ;
    lemma_scale_sum(k3, 8 * a * c * f, 2 * b * d * e, 2 * a * e * e, 2 * c * d * d, 2 * f * b * b);
    assert(trace_of(z) == k * tr) by (nonlinear_arith)
        requires
            tr == 2 * (a + c),
            trace_of(z) == 2 * (z.a + z.c),
            z.a == k * a,
            z.c == k * c,
    ;
    assert((k * b) * (k * e) == k2 * (b * e)) by (nonlinear_arith)
        requires
            k2 == k * k,
    ;
    assert((k * c) * (k * d) == k2 * (c * d)) by (nonlinear_arith)
        requires
            k2 == k * k,
    ;
    assert((k * b) * (k * d) == k2 * (b * d)) by (nonlinear_arith)
        requires
            k2 == k * k,
    ;
    assert((k * a) * (k * e) == k2 * (a * e)) by (nonlinear_arith)
        requires
            k2 == k * k,
    ;
    lemma_mul_is_distributive_sub(k2, b * e, 2 * (c * d));
    lemma_mul_is_distributive_sub(k2, b * d, 2 * (a * e));
    lemma_mul_is_associative(k2, 2, c * d);
    lemma_mul_is_associative(k2, 2, a * e);
    lemma_mul_is_commutative(k2, 2);
    lemma_mul_is_associative(2, k2, c * d);
    lemma_mul_is_associative(2, k2, a * e);
    assert((k2 * dl > 0) == (dl > 0)) by (nonlinear_arith)
        requires
            k2 > 0,
    ;
    assert((k3 * bg) * (k * tr) == (k2 * k2) * (bg * tr)) by (nonlinear_arith)
        requires
            k2 == k * k,
            k3 == k * k * k,
    ;
    assert(k2 * k2 > 0) by (nonlinear_arith)
        requires
            k2 > 0,
    ;
    assert(((k2 * k2) * (bg * tr) < 0) == (bg * tr < 0)) by (nonlinear_arith)
        requires
            k2 * k2 > 0,
    ;
    // The sign that fixes the axis vector follows the sign of `k`, unless the
    // vector is zero.
    let x = c - a;
    let sz = orientation_sign(z);
    let sq = orientation_sign(q);
    let sk: int = if k > 0 { 1 } else { -1 };
    let m = if k > 0 { k } else { -k };
    assert(z.c - z.a == k * x) by (nonlinear_arith)
        requires
            z.a == k * a,
            z.c == k * c,
            x == c - a,
    ;
    if tr != 0 {
        assert(sz == sk * sq) by (nonlinear_arith)
            requires
                tr != 0,
                trace_of(z) == k * tr,
                k != 0,
                sk == (if k > 0 { 1int } else { -1 }),
                sz == (if trace_of(z) > 0 { 1int } else if trace_of(z) < 0 { -1 } else if z.c - z.a > 0 || (
                z.c - z.a == 0 && z.b >= 0) { 1 } else { -1 }),
                sq == (if tr > 0 { 1int } else if tr < 0 { -1 } else if c - a > 0 || (c - a == 0 && b
                    >= 0) { 1 } else { -1 }),
        ;
    } else if !(x == 0 && b == 0) {
        assert(trace_of(z) == 0) by (nonlinear_arith)
            requires
                trace_of(z) == k * tr,
                tr == 0,
        ;
        assert(sz == sk * sq) by (nonlinear_arith)
            requires
                !(x == 0 && b == 0),
                z.c - z.a == k * x,
                z.b == k * b,
                k != 0,
                sk == (if k > 0 { 1int } else { -1 }),
                sz == (if z.c - z.a > 0 || (z.c - z.a == 0 && z.b >= 0) { 1int } else { -1 }),
                sq == (if x > 0 || (x == 0 && b >= 0) { 1int } else { -1 }),
        ;
    }
    assert(sz * (z.c - z.a) == m * (sq * x) && sz * z.b == m * (sq * b)) by (nonlinear_arith)
        requires
            (x == 0 && b == 0) || sz == sk * sq,
            z.c - z.a == k * x,
            z.b == k * b,
            sk == (if k > 0 { 1int } else { -1 }),
            m == (if k > 0 { k } else { -k }),
    ;
    // Both relations of the squared semi-axes scale by `k⁴` and `k⁶`.
    let zd = minor_delta_of(z);
    let zb = major_delta_of(z);
    let zt = trace_of(z);
    assert(((s + t) * (zd * zd) == -(zb * zt)) == ((s + t) * (dl * dl) == -(bg * tr))) by (nonlinear_arith)
        requires
            zd == k2 * dl,
            zb == k3 * bg,
            zt == k * tr,
            k2 == k * k,
            k3 == k * k * k,
            k2 > 0,
    ;
    let k6 = k3 * k3;
    assert(k6 > 0) by (nonlinear_arith)
        requires
            k6 == k3 * k3,
            k3 == k * k * k,
            k != 0,
    ;
    assert(zd * zd * zd == k6 * (dl * dl * dl)) by (nonlinear_arith)
        requires
            zd == k2 * dl,
            k2 == k * k,
            k3 == k * k * k,
            k6 == k3 * k3,
    ;
    assert(zb * zb == k6 * (bg * bg)) by (nonlinear_arith)
        requires
            zb == k3 * bg,
            k6 == k3 * k3,
    ;
    lemma_mul_is_associative(s * t, k6, dl * dl * dl);
    lemma_mul_is_commutative(s * t, k6);
    lemma_mul_is_associative(k6, s * t, dl * dl * dl);
    lemma_cancel(k6, (s * t) * (dl * dl * dl), bg * bg);
}

} // verus!
