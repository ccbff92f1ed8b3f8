//! Failure outcomes at the operation level: integer overflow, the
//! division traps reported as failures, argument-kind errors, and the
//! retry bound of the randomized constructors under a pinned random
//! source.

use geoscript::functions::{FnAdd, FnDiv, FnInscribedAngle, FnMul, FnSub, FnTriangle};
use geoscript::numeric::{NumRequest, NumResponse, Real};
use geoscript::types::{Circle, Point, Value};

fn f(r: Real) -> f64 {
    f64::from_bits(r.bits)
}

fn num(x: f64) -> NumResponse {
    NumResponse::Num(Real { bits: x.to_bits() })
}

/// A kernel whose random source always answers the same sample, so the
/// rejection-sampling loops can never satisfy their spread constraints.
fn pinned_kernel(req: NumRequest) -> NumResponse {
    match req {
        NumRequest::Add(a, b) => num(f(a) + f(b)),
        NumRequest::Sub(a, b) => num(f(a) - f(b)),
        NumRequest::Mul(a, b) => num(f(a) * f(b)),
        NumRequest::Div(a, b) => num(f(a) / f(b)),
        NumRequest::Sqrt(a) => num(f(a).sqrt()),
        NumRequest::Sin(a) => num(f(a).sin()),
        NumRequest::Cos(a) => num(f(a).cos()),
        NumRequest::Atan2(y, x) => num(f(y).atan2(f(x))),
        NumRequest::Hypot(a, b) => num(f(a).hypot(f(b))),
        NumRequest::PowI(a, e) => num(f(a).powi(e)),
        NumRequest::ToRadians(a) => num(f(a).to_radians()),
        NumRequest::Lt(a, b) => NumResponse::Truth(f(a) < f(b)),
        NumRequest::FloatEq(a, b) => NumResponse::Truth(f(a) == f(b)),
        NumRequest::OfInt(i) => num(i as f64),
        NumRequest::Fmt(a) => NumResponse::Text(f(a).to_string()),
        NumRequest::Random => num(0.25),
    }
}

fn rbits(x: f64) -> Real {
    Real { bits: x.to_bits() }
}

fn pt(x: f64, y: f64) -> Point {
    Point { x: rbits(x), y: rbits(y) }
}

#[test]
fn integer_addition_reports_overflow() {
    let args = vec![Value::Int(i64::MAX), Value::Int(1)];
    assert_eq!(FnAdd.call(&pinned_kernel, &args).unwrap_err(), "Integer overflow");
    let args = vec![Value::Int(i64::MAX), Value::Int(1)];
    let out = FnAdd.call(&pinned_kernel, &[args[0].clone(), Value::Int(-1)]).unwrap();
    assert_eq!(out, Value::Int(i64::MAX - 1));
}

#[test]
fn integer_subtraction_and_multiplication_report_overflow() {
    let args = vec![Value::Int(i64::MIN), Value::Int(1)];
    assert_eq!(FnSub.call(&pinned_kernel, &args).unwrap_err(), "Integer overflow");
    let args = vec![Value::Int(i64::MAX), Value::Int(2)];
    assert_eq!(FnMul.call(&pinned_kernel, &args).unwrap_err(), "Integer overflow");
}

#[test]
fn integer_division_traps_are_reported() {
    let args = vec![Value::Int(5), Value::Int(0)];
    assert_eq!(FnDiv.call(&pinned_kernel, &args).unwrap_err(), "Division by zero");
    let args = vec![Value::Int(i64::MIN), Value::Int(-1)];
    assert_eq!(FnDiv.call(&pinned_kernel, &args).unwrap_err(), "Integer overflow");
    let args = vec![Value::Int(i64::MIN), Value::Int(2)];
    assert_eq!(FnDiv.call(&pinned_kernel, &args).unwrap(), Value::Int(i64::MIN / 2));
}

#[test]
fn mismatched_numeric_kinds_are_type_errors() {
    let i = Value::Int(1);
    let b = Value::Bool(true);
    assert_eq!(
        FnSub.call(&pinned_kernel, &[i.clone(), b.clone()]).unwrap_err(),
        "Invalid types for subtraction"
    );
    assert_eq!(
        FnMul.call(&pinned_kernel, &[b.clone(), i.clone()]).unwrap_err(),
        "Invalid types for multiplication"
    );
    assert_eq!(
        FnDiv.call(&pinned_kernel, &[b.clone(), b.clone()]).unwrap_err(),
        "Invalid types for division"
    );
}

#[test]
fn triangle_sampling_gives_up_under_a_pinned_source() {
    let c = Circle::new(pt(0.0, 0.0), rbits(5.0), &pinned_kernel).unwrap();
    let args = vec![Value::Circle(c)];
    // every draw lands on the same point, so the spread constraint can
    // never be met and the bounded retry reports the failure; the angle
    // reading then rejects the circle argument under the final message
    assert_eq!(
        FnTriangle.call(&pinned_kernel, &args).unwrap_err(),
        "Invalid arguments for triangle"
    );
    assert_eq!(
        FnTriangle.from_circle(&pinned_kernel, &args).unwrap_err(),
        "Could not satisfy the sampling constraint"
    );
}

#[test]
fn inscribed_angle_sampling_gives_up_under_a_pinned_source() {
    let c = Circle::new(pt(0.0, 0.0), rbits(5.0), &pinned_kernel).unwrap();
    let args = vec![Value::Circle(c), Value::Int(90)];
    assert_eq!(
        FnInscribedAngle.call(&pinned_kernel, &args).unwrap_err(),
        "Could not satisfy the sampling constraint"
    );
}

#[test]
fn inscribed_angle_checks_its_arguments() {
    let c = Circle::new(pt(0.0, 0.0), rbits(5.0), &pinned_kernel).unwrap();
    assert_eq!(
        FnInscribedAngle.call(&pinned_kernel, &[Value::Circle(c)]).unwrap_err(),
        "Inscribed angle requires exactly 2 arguments"
    );
    assert_eq!(
        FnInscribedAngle.call(&pinned_kernel, &[Value::Int(1), Value::Int(90)]).unwrap_err(),
        "Invalid types for circle"
    );
    assert_eq!(
        FnInscribedAngle
            .call(&pinned_kernel, &[Value::Circle(c), Value::Bool(true)])
            .unwrap_err(),
        "Invalid types for degree"
    );
}
