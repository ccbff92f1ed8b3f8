//! The geometric constructions and queries: triangle centers against their
//! classical defining properties, random points on circles, intersections,
//! and the on-circle round trip.

use geoscript::functions::{FnIntersect, FnTriangle};
use geoscript::numeric::{NumRequest, NumResponse, Real};
use geoscript::types::{Circle, Lineseg, Point, Triangle, Value};

const TOL: f64 = 1e-9;

fn f(r: Real) -> f64 {
    f64::from_bits(r.bits)
}

fn rbits(x: f64) -> Real {
    Real { bits: x.to_bits() }
}

fn pt(x: f64, y: f64) -> Point {
    Point { x: rbits(x), y: rbits(y) }
}

fn num(x: f64) -> NumResponse {
    NumResponse::Num(Real { bits: x.to_bits() })
}

fn std_kernel(req: NumRequest) -> NumResponse {
    match req {
        NumRequest::Add(a, b) => num(f(a) + f(b)),
        NumRequest::Sub(a, b) => num(f(a) - f(b)),
        NumRequest::Mul(a, b) => num(f(a) * f(b)),
        NumRequest::Div(a, b) => num(f(a) / f(b)),
        NumRequest::Sqrt(a) => num(f(a).sqrt()),
        NumRequest::Sin(a) => num(f(a).sin()),
        NumRequest::Cos(a) => num(f(a).cos()),
        NumRequest::Atan2(y, x) => num(f(y).atan2(f(x))),
        NumRequest::Hypot(a, b) => num(f(a).hypot(f(b))),
        NumRequest::PowI(a, e) => num(f(a).powi(e)),
        NumRequest::ToRadians(a) => num(f(a).to_radians()),
        NumRequest::Lt(a, b) => NumResponse::Truth(f(a) < f(b)),
        NumRequest::FloatEq(a, b) => NumResponse::Truth(f(a) == f(b)),
        NumRequest::OfInt(i) => num(i as f64),
        NumRequest::Fmt(a) => NumResponse::Text(f(a).to_string()),
        NumRequest::Random => num(rand::random::<f64>()),
    }
}

fn dist(a: Point, b: Point) -> f64 {
    ((f(a.x) - f(b.x)).powi(2) + (f(a.y) - f(b.y)).powi(2)).sqrt()
}

#[test]
fn triangle_from_non_collinear_points() {
    let t = Triangle::new(pt(0.0, 0.0), pt(4.0, 0.0), pt(0.0, 4.0), &std_kernel).unwrap();
    assert_eq!(f(t.a.x), 0.0);
    assert_eq!(f(t.c.y), 4.0);
}

#[test]
fn triangle_from_collinear_points_fails() {
    let err = Triangle::new(pt(0.0, 0.0), pt(1.0, 1.0), pt(2.0, 2.0), &std_kernel).unwrap_err();
    assert_eq!(err, "Points are collinear");
}

#[test]
fn centroid_is_the_arithmetic_mean() {
    let t = Triangle::new(pt(0.0, 0.0), pt(4.0, 0.0), pt(0.0, 4.0), &std_kernel).unwrap();
    let c = t.centroid(&std_kernel);
    assert!((f(c.x) - 4.0 / 3.0).abs() < TOL);
    assert!((f(c.y) - 4.0 / 3.0).abs() < TOL);
}

#[test]
fn circumcenter_is_equidistant_from_the_vertices() {
    let t = Triangle::new(pt(0.0, 1.0), pt(4.0, 0.0), pt(1.0, 4.0), &std_kernel).unwrap();
    let c = t.circumcenter(&std_kernel);
    let da = dist(c, t.a);
    let db = dist(c, t.b);
    let dc = dist(c, t.c);
    assert!((da - db).abs() < TOL);
    assert!((db - dc).abs() < TOL);
}

#[test]
fn incenter_is_the_weighted_average() {
    // for the 3-4-5 right triangle the incenter sits at (1, 1)
    let t = Triangle::new(pt(0.0, 0.0), pt(3.0, 0.0), pt(0.0, 4.0), &std_kernel).unwrap();
    let c = t.incenter(&std_kernel);
    assert!((f(c.x) - 1.0).abs() < TOL);
    assert!((f(c.y) - 1.0).abs() < TOL);
}

#[test]
fn orthocenter_lies_on_the_altitudes() {
    let t = Triangle::new(pt(0.0, 1.0), pt(4.0, 0.0), pt(1.0, 4.0), &std_kernel).unwrap();
    let h = t.orthocenter(&std_kernel);
    // the vector from h to a vertex is perpendicular to the opposite side
    let bax = f(t.b.x) - f(t.a.x);
    let bay = f(t.b.y) - f(t.a.y);
    let hcx = f(h.x) - f(t.c.x);
    let hcy = f(h.y) - f(t.c.y);
    assert!((bax * hcx + bay * hcy).abs() < TOL);
}

#[test]
fn inradius_of_the_345_triangle_is_one() {
    let t = Triangle::new(pt(0.0, 0.0), pt(3.0, 0.0), pt(0.0, 4.0), &std_kernel).unwrap();
    let r = t.inradius(&std_kernel);
    assert_eq!(f(r), 1.0);
}

#[test]
fn circle_rejects_a_negative_radius() {
    let err = Circle::new(pt(0.0, 0.0), rbits(-1.0), &std_kernel).unwrap_err();
    assert_eq!(err, "Radius is negative");
}

#[test]
fn random_points_lie_at_the_radius() {
    let c = Circle::new(pt(0.0, 0.0), rbits(5.0), &std_kernel).unwrap();
    for _ in 0..200 {
        let p = c.get_point(&std_kernel);
        assert!((dist(p, c.center) - 5.0).abs() < TOL);
    }
}

#[test]
fn random_points_pass_the_on_circle_round_trip() {
    let c = Circle::new(pt(2.0, -3.0), rbits(5.0), &std_kernel).unwrap();
    for _ in 0..200 {
        let p = c.get_point(&std_kernel);
        assert!(c.is_point_on_circle(&std_kernel, p));
    }
}

#[test]
fn parallel_segments_fail_to_intersect() {
    let l1 = Lineseg { start: pt(0.0, 0.0), end: pt(2.0, 2.0) };
    let l2 = Lineseg { start: pt(0.0, 1.0), end: pt(2.0, 3.0) };
    let args = vec![Value::Lineseg(l1), Value::Lineseg(l2)];
    let err = FnIntersect.from_linesegs(&std_kernel, &args).unwrap_err();
    assert_eq!(err, "Line segments are parallel");
}

#[test]
fn vertical_segment_intersection_is_algebraic() {
    let vertical = Lineseg { start: pt(2.0, 0.0), end: pt(2.0, 5.0) };
    let diagonal = Lineseg { start: pt(0.0, 0.0), end: pt(4.0, 4.0) };
    let args = vec![Value::Lineseg(vertical), Value::Lineseg(diagonal)];
    match FnIntersect.from_linesegs(&std_kernel, &args).unwrap() {
        Value::Point(p) => {
            assert!((f(p.x) - 2.0).abs() < TOL);
            assert!((f(p.y) - 2.0).abs() < TOL);
        },
        v => panic!("expected a point, got {:?}", v),
    }
}

#[test]
fn segment_circle_intersection_selects_roots() {
    let c = Circle::new(pt(0.0, 0.0), rbits(5.0), &std_kernel).unwrap();
    let l = Lineseg { start: pt(-6.0, 0.0), end: pt(6.0, 0.0) };
    let args = vec![Value::Lineseg(l), Value::Circle(c), Value::Int(0)];
    match FnIntersect.from_lineseg_circle(&std_kernel, &args).unwrap() {
        Value::Point(p) => {
            assert!((f(p.x) - 5.0).abs() < TOL);
            assert!(f(p.y).abs() < TOL);
        },
        v => panic!("expected a point, got {:?}", v),
    }
    let args = vec![Value::Lineseg(l), Value::Circle(c), Value::Int(1)];
    match FnIntersect.from_lineseg_circle(&std_kernel, &args).unwrap() {
        Value::Point(p) => {
            assert!((f(p.x) + 5.0).abs() < TOL);
        },
        v => panic!("expected a point, got {:?}", v),
    }
}

#[test]
fn segment_missing_the_circle_has_no_intersection() {
    // the quadratic's constant term is built from a line through the
    // origin, so the circle is placed away from every such line
    let c = Circle::new(pt(0.0, 5.0), rbits(1.0), &std_kernel).unwrap();
    let l = Lineseg { start: pt(0.0, 3.0), end: pt(10.0, 3.0) };
    let args = vec![Value::Lineseg(l), Value::Circle(c), Value::Int(0)];
    let err = FnIntersect.from_lineseg_circle(&std_kernel, &args).unwrap_err();
    assert_eq!(err, "No intersection points");
    let args = vec![Value::Lineseg(l), Value::Circle(c), Value::Int(2)];
    let err = FnIntersect.from_lineseg_circle(&std_kernel, &args).unwrap_err();
    assert_eq!(err, "Index must be either 0 or 1");
}

#[test]
fn triangle_sampled_on_a_circle_is_spread() {
    let c = Circle::new(pt(0.0, 0.0), rbits(5.0), &std_kernel).unwrap();
    let args = vec![Value::Circle(c)];
    match FnTriangle.from_circle(&std_kernel, &args).unwrap() {
        Value::Triangle(t) => {
            assert!(dist(t.a, t.b) >= 2.5 - TOL);
            assert!(dist(t.b, t.c) >= 2.5 - TOL);
            assert!(dist(t.c, t.a) >= 2.5 - TOL);
            assert!((dist(t.a, c.center) - 5.0).abs() < TOL);
        },
        v => panic!("expected a triangle, got {:?}", v),
    }
}
