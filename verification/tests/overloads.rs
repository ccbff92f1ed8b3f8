//! The committed-choice overload resolution: each named operation tries its
//! structural readings in a fixed declared order and commits to the first
//! that fits; also the inscribed-angle construction and the variable-name
//! rule.

use geoscript::interpreter::{evaluate, is_valid_variable};
use geoscript::lexer::tokenize;
use geoscript::numeric::{NumRequest, NumResponse, Real};
use geoscript::types::Value;

const TOL: f64 = 1e-9;

fn f(r: Real) -> f64 {
    f64::from_bits(r.bits)
}

fn num(x: f64) -> NumResponse {
    NumResponse::Num(Real { bits: x.to_bits() })
}

fn std_kernel(req: NumRequest) -> NumResponse {
    match req {
        NumRequest::Add(a, b) => num(f(a) + f(b)),
        NumRequest::Sub(a, b) => num(f(a) - f(b)),
        NumRequest::Mul(a, b) => num(f(a) * f(b)),
        NumRequest::Div(a, b) => num(f(a) / f(b)),
        NumRequest::Sqrt(a) => num(f(a).sqrt()),
        NumRequest::Sin(a) => num(f(a).sin()),
        NumRequest::Cos(a) => num(f(a).cos()),
        NumRequest::Atan2(y, x) => num(f(y).atan2(f(x))),
        NumRequest::Hypot(a, b) => num(f(a).hypot(f(b))),
        NumRequest::PowI(a, e) => num(f(a).powi(e)),
        NumRequest::ToRadians(a) => num(f(a).to_radians()),
        NumRequest::Lt(a, b) => NumResponse::Truth(f(a) < f(b)),
        NumRequest::FloatEq(a, b) => NumResponse::Truth(f(a) == f(b)),
        NumRequest::OfInt(i) => num(i as f64),
        NumRequest::Fmt(a) => NumResponse::Text(f(a).to_string()),
        NumRequest::Random => num(rand::random::<f64>()),
    }
}

fn eval_str(src: &str) -> Result<Vec<Value>, String> {
    evaluate(tokenize(src.to_string()), &std_kernel)
}

#[test]
fn circle_defaults_to_the_canonical_unit() {
    match &eval_str("(circle)").unwrap()[0] {
        Value::Circle(c) => {
            assert_eq!(f(c.center.x), 0.0);
            assert_eq!(f(c.center.y), 0.0);
            assert_eq!(f(c.radius), 5.0);
        },
        v => panic!("expected a circle, got {:?}", v),
    }
}

#[test]
fn circle_from_point_and_radius() {
    match &eval_str("(circle (point 1 2) 3)").unwrap()[0] {
        Value::Circle(c) => {
            assert_eq!(f(c.center.x), 1.0);
            assert_eq!(f(c.center.y), 2.0);
            assert_eq!(f(c.radius), 3.0);
        },
        v => panic!("expected a circle, got {:?}", v),
    }
}

#[test]
fn circle_with_negative_radius_fails() {
    assert_eq!(eval_str("(circle (point 0 0) (- 0 2))").unwrap_err(), "Radius is negative");
}

#[test]
fn triangle_overloads_commit_in_order() {
    // three points
    assert!(matches!(
        eval_str("(triangle (point 0 0) (point 4 0) (point 0 4))").unwrap()[0],
        Value::Triangle(_)
    ));
    // one circle
    assert!(matches!(eval_str("(triangle (circle))").unwrap()[0], Value::Triangle(_)));
    // one angle
    assert!(matches!(
        eval_str("(triangle (angle (point 0 0) (point 1 0) (point 0 1)))").unwrap()[0],
        Value::Triangle(_)
    ));
    // nothing fits
    assert_eq!(eval_str("(triangle 1)").unwrap_err(), "Invalid arguments for triangle");
}

#[test]
fn angle_and_lineseg_take_points_only() {
    assert!(matches!(
        eval_str("(angle (point 0 0) (point 1 0) (point 0 1))").unwrap()[0],
        Value::Angle(_)
    ));
    assert_eq!(eval_str("(angle 1 2 3)").unwrap_err(), "Invalid arguments for angle");
    assert!(matches!(
        eval_str("(lineseg (point 0 0) (point 1 1))").unwrap()[0],
        Value::Lineseg(_)
    ));
    assert_eq!(eval_str("(lineseg 1 2)").unwrap_err(), "Invalid arguments for line segment");
}

#[test]
fn midpoint_is_the_coordinate_mean() {
    match &eval_str("(midpoint (point 0 0) (point 2 4))").unwrap()[0] {
        Value::Point(p) => {
            assert_eq!(f(p.x), 1.0);
            assert_eq!(f(p.y), 2.0);
        },
        v => panic!("expected a point, got {:?}", v),
    }
}

#[test]
fn inscribed_angle_vertices_lie_on_the_circle() {
    match &eval_str("(setq c (circle)) (iangle c 90)").unwrap()[1] {
        Value::Angle(a) => {
            for p in [a.start, a.center, a.end] {
                let d = (f(p.x).powi(2) + f(p.y).powi(2)).sqrt();
                assert!((d - 5.0).abs() < TOL);
            }
        },
        v => panic!("expected an angle, got {:?}", v),
    }
}

#[test]
fn inscribed_angle_rejects_more_than_half_a_turn() {
    assert_eq!(eval_str("(iangle (circle) 181)").unwrap_err(), "Degree exceeds 180 degrees");
}

#[test]
fn triangle_center_queries_check_their_argument() {
    assert_eq!(
        eval_str("(circumcenter 1)").unwrap_err(),
        "Invalid types for triangle"
    );
    assert_eq!(
        eval_str("(centroid)").unwrap_err(),
        "Centroid requires exactly 1 argument"
    );
    match &eval_str("(centroid (triangle (point 0 0) (point 3 0) (point 0 3)))").unwrap()[0] {
        Value::Point(p) => {
            assert!((f(p.x) - 1.0).abs() < TOL);
            assert!((f(p.y) - 1.0).abs() < TOL);
        },
        v => panic!("expected a point, got {:?}", v),
    }
}

#[test]
fn variable_names_follow_the_rule() {
    assert!(is_valid_variable("a"));
    assert!(is_valid_variable("alpha-2_b"));
    assert!(!is_valid_variable(""));
    assert!(!is_valid_variable("9lives"));
    assert!(!is_valid_variable("a b"));
    assert!(!is_valid_variable("-dash"));
}

#[test]
fn point_coordinates_accept_integers_and_floats() {
    match &eval_str("(setq t (triangle (point 0 0) (point 3 0) (point 0 4))) (point (inradius t) 2)")
        .unwrap()[1]
    {
        Value::Point(p) => {
            assert_eq!(f(p.x), 1.0);
            assert_eq!(f(p.y), 2.0);
        },
        v => panic!("expected a point, got {:?}", v),
    }
    assert_eq!(eval_str("(point 1)").unwrap_err(), "Point requires exactly 2 arguments");
}
