use circle::ellipse::COEFF_LIMIT;
use circle::{Circle, ConicError, Direction, Ellipse, HomPoint, Line, Orientation, Point};

fn origin() -> Point {
    Point { x: 0, y: 0 }
}

/// The squared semi-axes `s` and `t` satisfy the sum and product relations
/// of the conic's determinants.
fn has_squared_semi_axes(e: &Ellipse, s: i128, t: i128) -> bool {
    let p = e.transform().unwrap();
    let dl = p.minor_delta;
    (s + t) * dl * dl == -(p.major_delta * p.trace) && s * t * dl * dl * dl == p.major_delta * p.major_delta
}

#[test]
fn coefficient_round_trip() {
    let e = Ellipse::from_coefficient(1, -2, 3, -4, 5, -6);
    assert_eq!(e.parameter(), (1, -2, 3, -4, 5, -6));
    let m = i32::MAX;
    let n = i32::MIN;
    let e = Ellipse::from_coefficient(m, n, 0, m, n, -1);
    assert_eq!(e.parameter(), (m as i64, n as i64, 0, m as i64, n as i64, -1));
}

#[test]
fn transform_round_trip() {
    let center = Point { x: 3, y: -2 };
    let dir = Direction { x: 3, y: 4 };
    assert!(Ellipse::transform_in_range(center, 5, 2, dir));
    let e = Ellipse::from_transform(center, 5, 2, dir);
    assert!(e.is_real_ellipse());
    let p = e.transform().unwrap();
    let w = p.center.w;
    assert!(w > 0);
    assert_eq!(p.center.x, 3 * w);
    assert_eq!(p.center.y, -2 * w);
    // (25 - 4) times the doubled-angle vector (9 - 16, 2 * 12) of (3, 4).
    assert_eq!(p.orientation, Orientation { x: -147, y: 504 });
    assert!(has_squared_semi_axes(&e, 25, 4));
    assert!(!has_squared_semi_axes(&e, 25, 5));
}

#[test]
fn scaling_keeps_center_and_rotation() {
    let e = Ellipse::from_coefficient(4, 2, 9, -8, 6, -36);
    let g = Ellipse::from_coefficient(8, 4, 18, -16, 12, -72);
    assert_eq!(g.minor_delta(), 4 * e.minor_delta());
    assert_eq!(g.major_delta(), 8 * e.major_delta());
    let ce = e.center().unwrap();
    let cg = g.center().unwrap();
    assert_eq!(cg, HomPoint { x: 4 * ce.x, y: 4 * ce.y, w: 4 * ce.w });
    let oe = e.rotate();
    let og = g.rotate();
    assert_eq!(og, Orientation { x: 2 * oe.x, y: 2 * oe.y });
    let n = Ellipse::from_coefficient(-4, -2, -9, 8, -6, 36);
    assert_eq!(n.rotate(), oe);
    assert_eq!(n.center().unwrap(), ce);
}

#[test]
fn center_twice() {
    let e = Ellipse::from_coefficient(2, 1, 3, -4, 5, -60);
    let first = e.center();
    let second = e.center();
    assert_eq!(first, second);
    // 2a x + b y + d = 0 and b x + 2c y + e = 0 at (x / w, y / w).
    let c = first.unwrap();
    assert_eq!(c, HomPoint { x: 1 * 5 - 2 * 3 * -4, y: 1 * -4 - 2 * 2 * 5, w: 4 * 2 * 3 - 1 });
    assert_eq!(2 * 2 * c.x + 1 * c.y + -4 * c.w, 0);
    assert_eq!(1 * c.x + 2 * 3 * c.y + 5 * c.w, 0);
}

#[test]
fn circle_scenario() {
    let e = Ellipse::from_transform(origin(), 2, 2, Direction { x: 1, y: 0 });
    assert_eq!(e.parameter(), (4, 0, 4, 0, 0, -16));
    let c = e.center().unwrap();
    assert_eq!((c.x, c.y), (0, 0));
    assert!(c.w > 0);
    assert!(has_squared_semi_axes(&e, 4, 4));
    assert_eq!(e.rotate(), Orientation { x: 0, y: 0 });
}

#[test]
fn axis_aligned_scenario() {
    let e = Ellipse::from_transform(origin(), 3, 2, Direction { x: 1, y: 0 });
    assert_eq!(e.parameter(), (4, 0, 9, 0, 0, -36));
    assert!(e.minor_delta() > 0);
    assert_eq!(e.minor_delta(), 144);
    assert_eq!(e.major_delta(), 8 * 4 * 9 * -36);
    assert!(has_squared_semi_axes(&e, 9, 4));
    // The major axis lies along x: doubled angle 0.
    let o = e.rotate();
    assert!(o.x > 0 && o.y == 0);
}

#[test]
fn hyperbola_scenario() {
    let e = Ellipse::from_coefficient(1, 0, -1, 0, 0, 0);
    assert!(e.minor_delta() < 0);
    assert_eq!(e.center(), Err(ConicError::DegenerateConic));
    assert_eq!(e.transform(), Err(ConicError::DegenerateConic));
    assert!(!e.is_real_ellipse());
}

#[test]
fn rotation_scenario() {
    let e = Ellipse::from_transform(origin(), 5, 1, Direction { x: 1, y: 1 });
    assert_eq!(e.parameter(), (26, 48, 26, 0, 0, -50));
    // Doubled angle 90 degrees: the major axis is at 45 degrees.
    assert_eq!(e.rotate(), Orientation { x: 0, y: 48 });
    assert!(has_squared_semi_axes(&e, 25, 1));
}

#[test]
fn degenerate_kinds() {
    // A single point, an empty ellipse and a parabola.
    let point = Ellipse::from_coefficient(1, 0, 1, 0, 0, 0);
    assert_eq!(point.major_delta(), 0);
    assert!(point.center().is_ok());
    assert_eq!(point.transform(), Err(ConicError::DegenerateConic));
    let empty = Ellipse::from_coefficient(1, 0, 1, 0, 0, 1);
    assert!(!empty.is_real_ellipse());
    let parabola = Ellipse::from_coefficient(1, 0, 0, 0, -1, 0);
    assert_eq!(parabola.minor_delta(), 0);
    assert_eq!(parabola.center(), Err(ConicError::DegenerateConic));
    let real = Ellipse::from_coefficient(1, 0, 1, 0, 0, -1);
    assert!(real.is_real_ellipse());
}

#[test]
fn parameter_matrix_doubles_the_diagonal() {
    let e = Ellipse::from_coefficient(1, 2, 3, 4, 5, 6);
    assert_eq!(e.parameter_matrix(), [[2, 2, 4], [2, 6, 5], [4, 5, 12]]);
}

#[test]
fn major_delta_value() {
    let e = Ellipse::from_coefficient(1, 2, 3, 4, 5, 6);
    // 8acf + 2bde - 2ae² - 2cd² - 2fb²
    assert_eq!(e.major_delta(), 8 * 1 * 3 * 6 + 2 * 2 * 4 * 5 - 2 * 1 * 25 - 2 * 3 * 16 - 2 * 6 * 4);
    assert_eq!(e.minor_delta(), 4 * 1 * 3 - 4);
}

#[test]
fn negative_trace_orientation() {
    let e = Ellipse::from_coefficient(-4, 0, -9, 0, 0, 36);
    assert!(e.is_real_ellipse());
    assert_eq!(e.rotate(), Orientation { x: 5, y: 0 });
}

#[test]
fn transform_range() {
    assert!(Ellipse::transform_in_range(origin(), 5, 1, Direction { x: 1, y: 1 }));
    let far = Point { x: i32::MAX, y: i32::MIN };
    assert!(!Ellipse::transform_in_range(far, 2, 1, Direction { x: 1, y: 0 }));
    assert!(!Ellipse::transform_in_range(origin(), u16::MAX, u16::MAX, Direction { x: i16::MIN, y: i16::MIN }));
    let limit = COEFF_LIMIT;
    assert_eq!(limit, 1i64 << 39);
}

#[test]
fn five_points_unsupported() {
    let p = origin();
    assert_eq!(Ellipse::from_5_points(p, p, p, p, p), Err(ConicError::Unsupported));
}

#[test]
fn line_and_circle_fields() {
    let a = Point { x: 1, y: 2 };
    let b = Point { x: -3, y: 4 };
    let l = Line::from_2_points(a, b);
    assert_eq!(l, Line { start: a, end: b });
    let c = Circle { center: a, radius: 3 };
    assert_eq!(c.center, a);
    assert_eq!(c.radius, 3);
}

#[test]
fn zero_trace_rotation_ignores_sign() {
    let e = Ellipse::from_coefficient(1, 0, -1, 0, 0, 0);
    let n = Ellipse::from_coefficient(-1, 0, 1, 0, 0, 0);
    assert_eq!(e.rotate(), Orientation { x: 2, y: 0 });
    assert_eq!(n.rotate(), e.rotate());
    let g = Ellipse::from_coefficient(2, 3, -2, 1, 0, 5);
    let h = Ellipse::from_coefficient(-6, -9, 6, -3, 0, -15);
    assert_eq!(g.rotate(), Orientation { x: 4, y: -3 });
    assert_eq!(h.rotate(), Orientation { x: 12, y: -9 });
    let k = Ellipse::from_coefficient(1, -3, -1, 0, 0, 0);
    let j = Ellipse::from_coefficient(-1, 3, 1, 0, 0, 0);
    assert_eq!(k.rotate(), Orientation { x: 2, y: 3 });
    assert_eq!(j.rotate(), Orientation { x: 2, y: 3 });
}

#[test]
fn rebuild_from_parameter() {
    let center = Point { x: -7, y: 11 };
    let e = Ellipse::from_transform(center, 9, 4, Direction { x: 2, y: -5 });
    let (a, b, c, d, f0, f) = e.parameter();
    let g = Ellipse::from_wide_coefficient(a, b, c, d, f0, f);
    assert_eq!(g, e);
    assert_eq!(g.center(), e.center());
    assert_eq!(g.rotate(), e.rotate());
    let w = e.center().unwrap();
    assert_eq!((w.x, w.y), (-7 * w.w, 11 * w.w));
}

#[test]
fn swapped_axes_round_trip() {
    let center = Point { x: 1, y: 2 };
    let e = Ellipse::from_transform(center, 2, 5, Direction { x: 3, y: 4 });
    // Same conic as major 5, minor 2 along the quarter-turned (-4, 3).
    let g = Ellipse::from_transform(center, 5, 2, Direction { x: -4, y: 3 });
    assert_eq!(e, g);
    assert!(has_squared_semi_axes(&e, 25, 4));
    // (25 - 4) times the doubled-angle vector (16 - 9, -24) of (-4, 3).
    assert_eq!(e.rotate(), Orientation { x: 147, y: -504 });
    let p = e.center().unwrap();
    assert_eq!((p.x, p.y), (p.w, 2 * p.w));
}

#[test]
fn circle_round_trip_off_center() {
    let e = Ellipse::from_transform(Point { x: 4, y: -3 }, 6, 6, Direction { x: 1, y: 2 });
    assert!(e.is_real_ellipse());
    assert_eq!(e.rotate(), Orientation { x: 0, y: 0 });
    assert!(has_squared_semi_axes(&e, 36, 36));
    let p = e.center().unwrap();
    assert_eq!((p.x, p.y), (4 * p.w, -3 * p.w));
}
