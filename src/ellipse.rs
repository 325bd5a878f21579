//! The general conic `a x² + b xy + c y² + d x + e y + f = 0`.
//!
//! Convention: an [`Ellipse`] stores the six *full* coefficients of its
//! equation, exactly as a caller writes them. The symmetric matrix of the
//! conic has half of `b`, `d` and `e` off the diagonal; to keep every entry
//! an integer, this module works with twice that matrix,
//!
//! ```text
//!     | 2a  b   d  |
//! M = | b   2c  e  |
//!     | d   e   2f |
//! ```
//!
//! which describes the same curve. Its determinants are four and eight times
//! those of the halved matrix. Every quantity below is derived from `M`, and
//! the center and axis direction do not depend on that scale.
use vstd::prelude::*;

use crate::{Direction, Point};

verus! {

/// Largest magnitude of a stored coefficient; it keeps every determinant of
/// `M` within `i128`.
pub const COEFF_LIMIT: i64 = 549755813888;

/// `x` lies within the stored coefficient range.
pub open spec fn in_limit(x: int) -> bool {
    -COEFF_LIMIT <= x <= COEFF_LIMIT
}

/// The coefficients of `a x² + b xy + c y² + d x + e y + f = 0`.
pub struct Conic {
    pub a: int,
    pub b: int,
    pub c: int,
    pub d: int,
    pub e: int,
    pub f: int,
}

/// Every coefficient of `q` lies within the stored range.
pub open spec fn conic_in_limit(q: Conic) -> bool {
    in_limit(q.a) && in_limit(q.b) && in_limit(q.c) && in_limit(q.d) && in_limit(q.e) && in_limit(q.f)
}

/// `q` multiplied through by `k`: the same curve for every `k != 0`.
pub open spec fn scaled(q: Conic, k: int) -> Conic {
    Conic { a: k * q.a, b: k * q.b, c: k * q.c, d: k * q.d, e: k * q.e, f: k * q.f }
}

/// Determinant of the quadratic part `[[2a, b], [b, 2c]]` of `M`.
pub open spec fn minor_delta_of(q: Conic) -> int {
    4 * (q.a * q.c) - q.b * q.b
}

/// Determinant of `M`.
pub open spec fn major_delta_of(q: Conic) -> int {
    8 * q.a * q.c * q.f + 2 * q.b * q.d * q.e - 2 * q.a * q.e * q.e - 2 * q.c * q.d * q.d
        - 2 * q.f * q.b * q.b
}

/// Trace of the quadratic part of `M`.
pub open spec fn trace_of(q: Conic) -> int {
    2 * (q.a + q.c)
}

/// The conic has a unique center and is of elliptic type: the quadratic part
/// of `M` is definite.
pub open spec fn has_center(q: Conic) -> bool {
    minor_delta_of(q) > 0
}

/// The conic is a real, non-degenerate ellipse: the quadratic part is
/// definite and the constant part, taken at the center, has the opposite
/// sign, so that both squared semi-axes `-Δ / (δ λ)` are positive.
pub open spec fn is_real_ellipse(q: Conic) -> bool {
    has_center(q) && major_delta_of(q) * trace_of(q) < 0
}

/// The conic's coefficients taken from a caller's equation.
pub open spec fn conic_of(a: int, b: int, c: int, d: int, e: int, f: int) -> Conic {
    Conic { a, b, c, d, e, f }
}

/// The rows of `M`.
pub open spec fn matrix_of(q: Conic) -> Seq<Seq<int>> {
    seq![seq![2 * q.a, q.b, q.d], seq![q.b, 2 * q.c, q.e], seq![q.d, q.e, 2 * q.f]]
}

/// The center of a conic in homogeneous coordinates: the point
/// `(x / w, y / w)`, or a point at infinity when `w == 0`.
#[derive(Clone, Copy, Debug, PartialEq, Eq, Structural)]
pub struct HomPoint {
    /// Numerator of the x-coordinate.
    pub x: i128,
    /// Numerator of the y-coordinate.
    pub y: i128,
    /// Common denominator.
    pub w: i128,
}

/// An axis direction, defined up to a half turn: it is the direction at
/// *half* the angle of the vector `(x, y)`. A zero vector means that every
/// direction is an axis (a circle).
#[derive(Clone, Copy, Debug, PartialEq, Eq, Structural)]
pub struct Orientation {
    /// The x-component of the doubled-angle vector.
    pub x: i64,
    /// The y-component of the doubled-angle vector.
    pub y: i64,
}

/// The parametric description of a real ellipse, in exact terms.
///
/// The squared semi-axes are the two roots of
/// `δ³ t² + Δ τ δ t + Δ² = 0`, where `δ`, `Δ` and `τ` are the fields
/// `minor_delta`, `major_delta` and `trace`.
#[derive(Clone, Copy, Debug, PartialEq, Eq, Structural)]
pub struct Placement {
    /// The center.
    pub center: HomPoint,
    /// The direction of the major axis.
    pub orientation: Orientation,
    /// Determinant of the conic's matrix.
    pub major_delta: i128,
    /// Determinant of its quadratic part.
    pub minor_delta: i128,
    /// Trace of its quadratic part.
    pub trace: i128,
}

/// Numerator of the x-coordinate of the center of `q`: the point where the
/// gradient of its equation vanishes, `2a x + b y + d = 0` and
/// `b x + 2c y + e = 0`, solved by Cramer's rule over the denominator
/// `minor_delta_of(q)`.
pub open spec fn center_x_of(q: Conic) -> int {
    q.b * q.e - 2 * (q.c * q.d)
}

/// Numerator of the y-coordinate of the center of `q`.
pub open spec fn center_y_of(q: Conic) -> int {
    q.b * q.d - 2 * (q.a * q.e)
}

/// `p` is the center of `q` in homogeneous coordinates.
pub open spec fn is_center_of(p: HomPoint, q: Conic) -> bool {
    p.x == center_x_of(q) && p.y == center_y_of(q) && p.w == minor_delta_of(q)
}

/// The sign that fixes the doubled-angle vector of `q` independently of the
/// overall sign of its coefficients: the sign that turns the quadratic part
/// positive when its trace is nonzero, and otherwise the sign that makes
/// `(c - a, b)` point into the half-plane `x > 0` (or along `y >= 0` when
/// `c == a`).
pub open spec fn orientation_sign(q: Conic) -> int {
    if trace_of(q) > 0 {
        1
    } else if trace_of(q) < 0 {
        -1
    } else if q.c - q.a > 0 || (q.c - q.a == 0 && q.b >= 0) {
        1
    } else {
        -1
    }
}

/// `o` is the doubled-angle vector of the major axis of `q`. For a definite
/// form with positive trace the major axis belongs to the smaller
/// eigenvalue, at the angle `θ` (turning from the positive x-axis toward the
/// negative y-axis) with `(cos 2θ, sin 2θ)` along `(c - a, b)`; a negative
/// trace turns the form, and so the vector, around. With a zero trace the
/// vector is turned into a fixed half-plane, so that multiplying the
/// equation through by a negative number does not move the axis.
pub open spec fn is_orientation_of(o: Orientation, q: Conic) -> bool {
    o.x == orientation_sign(q) * (q.c - q.a) && o.y == orientation_sign(q) * q.b
}

/// `p` is the parametric description of `q`.
pub open spec fn is_placement_of(p: Placement, q: Conic) -> bool {
    &&& is_center_of(p.center, q)
    &&& is_orientation_of(p.orientation, q)
    &&& p.major_delta == major_delta_of(q)
    &&& p.minor_delta == minor_delta_of(q)
    &&& p.trace == trace_of(q)
}

/// `s` and `t` are the two squared semi-axes of `q`: their sum is
/// `-Δ τ / δ²` and their product `Δ² / δ³`.
pub open spec fn squared_semi_axes(q: Conic, s: int, t: int) -> bool {
    (s + t) * (minor_delta_of(q) * minor_delta_of(q)) == -(major_delta_of(q) * trace_of(q))
        && (s * t) * (minor_delta_of(q) * minor_delta_of(q) * minor_delta_of(q))
        == major_delta_of(q) * major_delta_of(q)
}

/// The `x²` coefficient of the ellipse with semi-axes `major` and
/// `minor` turned to the direction `(u, v)`, multiplied through by
/// `u² + v²` so that it stays an integer.
pub open spec fn rotated_a(major: int, minor: int, u: int, v: int) -> int {
    major * major * v * v + minor * minor * u * u
}

/// The `xy` coefficient of the rotated ellipse (see [`rotated_a`]).
pub open spec fn rotated_b(major: int, minor: int, u: int, v: int) -> int {
    2 * (major * major - minor * minor) * u * v
}

/// The `y²` coefficient of the rotated ellipse (see [`rotated_a`]).
pub open spec fn rotated_c(major: int, minor: int, u: int, v: int) -> int {
    major * major * u * u + minor * minor * v * v
}

/// The ellipse centered at `(cx, cy)` with semi-axes `major` and `minor`,
/// its major axis turned to the direction `(u, v)`: the rotated form
/// `A X² + B XY + C Y² = major² minor² (u² + v²)` with `X = x - cx`,
/// `Y = y - cy`, expanded.
pub open spec fn transform_conic(cx: int, cy: int, major: int, minor: int, u: int, v: int) -> Conic {
    let a = rotated_a(major, minor, u, v);
    let b = rotated_b(major, minor, u, v);
    let c = rotated_c(major, minor, u, v);
    Conic {
        a,
        b,
        c,
        d: -(2 * a * cx + b * cy),
        e: -(b * cx + 2 * c * cy),
        f: a * cx * cx + b * cx * cy + c * cy * cy - major * major * (minor * minor) * (u * u + v * v),
    }
}

/// The conic of [`Ellipse::from_transform`] on these arguments.
pub open spec fn transform_conic_of(center: Point, major: u16, minor: u16, rotation: Direction) -> Conic {
    transform_conic(center.x as int, center.y as int, major as int, minor as int, rotation.x as int, rotation.y as int)
}

/// A conic of [`Ellipse::from_transform`] on these arguments fits the
/// stored coefficient range.
pub open spec fn transform_fits(center: Point, major: u16, minor: u16, rotation: Direction) -> bool {
    conic_in_limit(transform_conic_of(center, major, minor, rotation))
}

/// A conic in the plane, stored by the full coefficients of its equation.
///
/// Any six coefficients within [`COEFF_LIMIT`] form a value: whether it is a
/// real ellipse is asked of it afterwards.
#[derive(Clone, Copy, Debug, PartialEq, Eq, Structural)]
pub struct Ellipse {
    a: i64,
    b: i64,
    c: i64,
    d: i64,
    e: i64,
    f: i64,
}

/// Why a conic has no answer to a question.
#[derive(Clone, Copy, Debug, PartialEq, Eq, Structural)]
pub enum ConicError {
    /// The conic is not a real ellipse: a parabola, a hyperbola, a pair of
    /// lines, a single point or an empty locus.
    DegenerateConic,
    /// The operation is not provided.
    Unsupported,
}

impl View for Ellipse {
    type V = Conic;

    closed spec fn view(&self) -> Conic {
        Conic {
            a: self.a as int,
            b: self.b as int,
            c: self.c as int,
            d: self.d as int,
            e: self.e as int,
            f: self.f as int,
        }
    }
}

proof fn lemma_mul_bound(x: int, y: int, bx: int, by: int)
    requires
        -bx <= x <= bx,
        -by <= y <= by,
    ensures
        -(bx * by) <= x * y <= bx * by,
{
    assert(-(bx * by) <= x * y <= bx * by) by (nonlinear_arith)
        requires
            -bx <= x <= bx,
            -by <= y <= by,
    ;
}

impl Ellipse {
    #[verifier::type_invariant]
    spec fn inv(self) -> bool {
        conic_in_limit(self@)
    }

    /// Create a conic from the coefficients of `a x² + b xy + c y² + d x + e y + f = 0`.
    pub fn from_coefficient(a: i32, b: i32, c: i32, d: i32, e: i32, f: i32) -> (r: Ellipse)
        ensures
            r@ == conic_of(a as int, b as int, c as int, d as int, e as int, f as int),
    {
        Ellipse { a: a as i64, b: b as i64, c: c as i64, d: d as i64, e: e as i64, f: f as i64 }
    }

    /// Create a conic from coefficients of the full stored width, such as
    /// those that [`Ellipse::parameter`] returns.
    pub fn from_wide_coefficient(a: i64, b: i64, c: i64, d: i64, e: i64, f: i64) -> (r: Ellipse)
        requires
            conic_in_limit(conic_of(a as int, b as int, c as int, d as int, e as int, f as int)),
        ensures
            r@ == conic_of(a as int, b as int, c as int, d as int, e as int, f as int),
    {
        Ellipse { a, b, c, d, e, f }
    }

    /// The full coefficients `(a, b, c, d, e, f)` of the equation.
    pub fn parameter(&self) -> (r: (i64, i64, i64, i64, i64, i64))
        ensures
            r.0 == self@.a,
            r.1 == self@.b,
            r.2 == self@.c,
            r.3 == self@.d,
            r.4 == self@.e,
            r.5 == self@.f,
    {
        (self.a, self.b, self.c, self.d, self.e, self.f)
    }

    /// The symmetric matrix `M` of the conic, scaled by two so that every
    /// entry is an integer.
    pub fn parameter_matrix(&self) -> (r: [[i64; 3]; 3])
        ensures
            forall|i: int, j: int|
                0 <= i < 3 && 0 <= j < 3 ==> r[i][j] == #[trigger] matrix_of(self@)[i][j],
    {
        proof {
            use_type_invariant(self);
        }
        let a2 = 2 * self.a;
        let c2 = 2 * self.c;
        let f2 = 2 * self.f;
        [[a2, self.b, self.d], [self.b, c2, self.e], [self.d, self.e, f2]]
    }

    /// The minor delta: the determinant of the quadratic part of `M`.
    pub fn minor_delta(&self) -> (r: i128)
        ensures
            r == minor_delta_of(self@),
    {
        proof {
            use_type_invariant(self);
        }
        let a = self.a as i128;
        let b = self.b as i128;
        let c = self.c as i128;
        proof {
            let l = COEFF_LIMIT as int;
            lemma_mul_bound(a as int, c as int, l, l);
            lemma_mul_bound(b as int, b as int, l, l);
        }
        4 * (a * c) - b * b
    }

    /// The major delta: the determinant of `M`.
    pub fn major_delta(&self) -> (r: i128)
        ensures
            r == major_delta_of(self@),
    {
        proof {
            use_type_invariant(self);
        }
        let a = self.a as i128;
        let b = self.b as i128;
        let c = self.c as i128;
        let d = self.d as i128;
        let e = self.e as i128;
        let f = self.f as i128;
        proof {
            let l = COEFF_LIMIT as int;
            let l2 = l * l;
            lemma_mul_bound(8 * a as int, c as int, 8 * l, l);
            lemma_mul_bound(8 * a * c as int, f as int, 8 * l * l, l);
            lemma_mul_bound(2 * b as int, d as int, 2 * l, l);
            lemma_mul_bound(2 * b * d as int, e as int, 2 * l * l, l);
            lemma_mul_bound(2 * a as int, e as int, 2 * l, l);
            lemma_mul_bound(2 * a * e as int, e as int, 2 * l * l, l);
            lemma_mul_bound(2 * c as int, d as int, 2 * l, l);
            lemma_mul_bound(2 * c * d as int, d as int, 2 * l * l, l);
            lemma_mul_bound(2 * f as int, b as int, 2 * l, l);
            lemma_mul_bound(2 * f * b as int, b as int, 2 * l * l, l);
        }
        8 * a * c * f + 2 * b * d * e - 2 * a * e * e - 2 * c * d * d - 2 * f * b * b
    }

    /// Trace of the quadratic part of `M`.
    fn trace(&self) -> (r: i128)
        ensures
            r == trace_of(self@),
    {
        proof {
            use_type_invariant(self);
        }
        2 * (self.a as i128 + self.c as i128)
    }

    /// Whether the conic is a real, non-degenerate ellipse.
    pub fn is_real_ellipse(&self) -> (r: bool)
        ensures
            r == is_real_ellipse(self@),
    {
        let delta = self.minor_delta();
        let big_delta = self.major_delta();
        let t = self.trace();
        proof {
            let (x, y) = (big_delta as int, t as int);
            assert((x * y < 0) == ((x < 0 && y > 0) || (x > 0 && y < 0))) by (nonlinear_arith);
        }
        delta > 0 && ((big_delta < 0 && t > 0) || (big_delta > 0 && t < 0))
    }

    /// The center of the conic, in homogeneous coordinates. It is asked of a
    /// conic of elliptic type only: otherwise the answer is `DegenerateConic`.
    pub fn center(&self) -> (r: Result<HomPoint, ConicError>)
        ensures
            has_center(self@) ==> (r matches Ok(p) && is_center_of(p, self@)),
            !has_center(self@) ==> r == Err::<HomPoint, ConicError>(ConicError::DegenerateConic),
    {
        proof {
            use_type_invariant(self);
        }
        let w = self.minor_delta();
        if w <= 0 {
            return Err(ConicError::DegenerateConic);
        }
        let a = self.a as i128;
        let b = self.b as i128;
        let c = self.c as i128;
        let d = self.d as i128;
        let e = self.e as i128;
        proof {
            let l = COEFF_LIMIT as int;
            lemma_mul_bound(b as int, e as int, l, l);
            lemma_mul_bound(c as int, d as int, l, l);
            lemma_mul_bound(b as int, d as int, l, l);
            lemma_mul_bound(a as int, e as int, l, l);
        }
        Ok(HomPoint { x: b * e - 2 * (c * d), y: b * d - 2 * (a * e), w })
    }

    /// The direction of the major axis, as a doubled-angle vector.
    pub fn rotate(&self) -> (r: Orientation)
        ensures
            is_orientation_of(r, self@),
    {
        proof {
            use_type_invariant(self);
        }
        let t = self.a as i128 + self.c as i128;
        let x = self.c - self.a;
        let y = self.b;
        if t > 0 || (t == 0 && (x > 0 || (x == 0 && y >= 0))) {
            Orientation { x, y }
        } else {
            Orientation { x: -x, y: -y }
        }
    }

    /// The parametric description of a real ellipse; `DegenerateConic` for
    /// any other conic.
    pub fn transform(&self) -> (r: Result<Placement, ConicError>)
        ensures
            is_real_ellipse(self@) ==> (r matches Ok(p) && is_placement_of(p, self@)),
            !is_real_ellipse(self@) ==> r == Err::<Placement, ConicError>(ConicError::DegenerateConic),
    {
        if !self.is_real_ellipse() {
            return Err(ConicError::DegenerateConic);
        }
        let center = match self.center() {
            Ok(p) => p,
            Err(err) => return Err(err),
        };
        Ok(Placement {
            center,
            orientation: self.rotate(),
            major_delta: self.major_delta(),
            minor_delta: self.minor_delta(),
            trace: self.trace(),
        })
    }

    /// Fitting a conic through five points is not provided: the answer is
    /// always `Unsupported`.
    pub fn from_5_points(p1: Point, p2: Point, p3: Point, p4: Point, p5: Point) -> (r: Result<Ellipse, ConicError>)
        ensures
            r == Err::<Ellipse, ConicError>(ConicError::Unsupported),
    {
        Err(ConicError::Unsupported)
    }

    /// The quadratic coefficients of the rotated ellipse, in full width.
    fn rotated_quadratic(major: u16, minor: u16, rotation: Direction) -> (r: (i128, i128, i128))
        ensures
            r.0 == rotated_a(major as int, minor as int, rotation.x as int, rotation.y as int),
            r.1 == rotated_b(major as int, minor as int, rotation.x as int, rotation.y as int),
            r.2 == rotated_c(major as int, minor as int, rotation.x as int, rotation.y as int),
    {
        let p = major as i128;
        let q = minor as i128;
        let u = rotation.x as i128;
        let v = rotation.y as i128;
        proof {
            let s: int = 0x10000;
            let h: int = 0x8000;
            lemma_mul_bound(p as int, p as int, s, s);
            lemma_mul_bound(q as int, q as int, s, s);
            lemma_mul_bound(p * p as int, v as int, s * s, h);
            lemma_mul_bound(p * p * v as int, v as int, s * s * h, h);
            lemma_mul_bound(q * q as int, u as int, s * s, h);
            lemma_mul_bound(q * q * u as int, u as int, s * s * h, h);
            lemma_mul_bound(p * p as int, u as int, s * s, h);
            lemma_mul_bound(p * p * u as int, u as int, s * s * h, h);
            lemma_mul_bound(q * q as int, v as int, s * s, h);
            lemma_mul_bound(q * q * v as int, v as int, s * s * h, h);
            lemma_mul_bound(2 * (p * p - q * q) as int, u as int, 2 * s * s, h);
            lemma_mul_bound(2 * (p * p - q * q) * u as int, v as int, 2 * s * s * h, h);
        }
        let a = p * p * v * v + q * q * u * u;
        let b = 2 * (p * p - q * q) * u * v;
        let c = p * p * u * u + q * q * v * v;
        (a, b, c)
    }

    /// The linear and constant coefficients of the rotated ellipse, from its
    /// quadratic ones.
    fn rotated_rest(center: Point, major: u16, minor: u16, rotation: Direction, a: i128, b: i128, c: i128) -> (r: (i128, i128, i128))
        requires
            in_limit(a as int),
            in_limit(b as int),
            in_limit(c as int),
        ensures
            r.0 == -(2 * a * center.x + b * center.y),
            r.1 == -(b * center.x + 2 * c * center.y),
            r.2 == a * center.x * center.x + b * center.x * center.y + c * center.y * center.y
                - major * major * (minor * minor) * (rotation.x * rotation.x + rotation.y * rotation.y),
    {
        let x = center.x as i128;
        let y = center.y as i128;
        let p = major as i128;
        let q = minor as i128;
        let u = rotation.x as i128;
        let v = rotation.y as i128;
        proof {
            let l = COEFF_LIMIT as int;
            let g: int = 0x8000_0000;
            let s: int = 0x10000;
            let h: int = 0x8000;
            lemma_mul_bound(2 * a as int, x as int, 2 * l, g);
            lemma_mul_bound(b as int, y as int, l, g);
            lemma_mul_bound(b as int, x as int, l, g);
            lemma_mul_bound(2 * c as int, y as int, 2 * l, g);
            lemma_mul_bound(a as int, x as int, l, g);
            lemma_mul_bound(a * x as int, x as int, l * g, g);
            lemma_mul_bound(b * x as int, y as int, l * g, g);
            lemma_mul_bound(c as int, y as int, l, g);
            lemma_mul_bound(c * y as int, y as int, l * g, g);
            lemma_mul_bound(p as int, p as int, s, s);
            lemma_mul_bound(q as int, q as int, s, s);
            lemma_mul_bound(p * p as int, q * q as int, s * s, s * s);
            lemma_mul_bound(u as int, u as int, h, h);
            lemma_mul_bound(v as int, v as int, h, h);
            lemma_mul_bound(p * p * (q * q) as int, u * u + v * v as int, s * s * (s * s), 2 * (h * h));
        }
        let d = -(2 * a * x + b * y);
        let e = -(b * x + 2 * c * y);
        let f = a * x * x + b * x * y + c * y * y - p * p * (q * q) * (u * u + v * v);
        (d, e, f)
    }

    /// Whether [`Ellipse::from_transform`] can hold the conic of these
    /// arguments within the stored coefficient range.
    pub fn transform_in_range(center: Point, major: u16, minor: u16, rotation: Direction) -> (r: bool)
        ensures
            r == transform_fits(center, major, minor, rotation),
    {
        let (a, b, c) = Ellipse::rotated_quadratic(major, minor, rotation);
        let l = COEFF_LIMIT as i128;
        if a < -l || a > l || b < -l || b > l || c < -l || c > l {
            return false;
        }
        let (d, e, f) = Ellipse::rotated_rest(center, major, minor, rotation, a, b, c);
        -l <= d && d <= l && -l <= e && e <= l && -l <= f && f <= l
    }

    /// The ellipse centered at `center` with semi-axes `major` and `minor`,
    /// its major axis turned to the direction `rotation` (the x-axis for
    /// `(1, 0)`; angles turn as [`Direction`] says). The equation is multiplied through by the squared length
    /// of `rotation`, which keeps it integral and leaves the curve as it is.
    pub fn from_transform(center: Point, major: u16, minor: u16, rotation: Direction) -> (r: Ellipse)
        requires
            transform_fits(center, major, minor, rotation),
        ensures
            r@ == transform_conic_of(center, major, minor, rotation),
    {
        let (a, b, c) = Ellipse::rotated_quadratic(major, minor, rotation);
        let (d, e, f) = Ellipse::rotated_rest(center, major, minor, rotation, a, b, c);
        Ellipse { a: a as i64, b: b as i64, c: c as i64, d: d as i64, e: e as i64, f: f as i64 }
    }
}

} // verus!
