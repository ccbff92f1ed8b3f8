//! End-to-end script evaluation: tokenizing, arithmetic, assignment,
//! labels, and comments, driven by the standard floating-point kernel.

use geoscript::interpreter::{evaluate, Env};
use geoscript::lexer::{tokenize, Literal, Token};
use geoscript::numeric::{NumRequest, NumResponse, Real};
use geoscript::types::Value;

fn f(r: Real) -> f64 {
    f64::from_bits(r.bits)
}

fn num(x: f64) -> NumResponse {
    NumResponse::Num(Real { bits: x.to_bits() })
}

fn std_kernel(req: NumRequest) -> NumResponse {
    match req {
        NumRequest::Add(a, b) => num(f(a) + f(b)),
        NumRequest::Sub(a, b) => num(f(a) - f(b)),
        NumRequest::Mul(a, b) => num(f(a) * f(b)),
        NumRequest::Div(a, b) => num(f(a) / f(b)),
        NumRequest::Sqrt(a) => num(f(a).sqrt()),
        NumRequest::Sin(a) => num(f(a).sin()),
        NumRequest::Cos(a) => num(f(a).cos()),
        NumRequest::Atan2(y, x) => num(f(y).atan2(f(x))),
        NumRequest::Hypot(a, b) => num(f(a).hypot(f(b))),
        NumRequest::PowI(a, e) => num(f(a).powi(e)),
        NumRequest::ToRadians(a) => num(f(a).to_radians()),
        NumRequest::Lt(a, b) => NumResponse::Truth(f(a) < f(b)),
        NumRequest::FloatEq(a, b) => NumResponse::Truth(f(a) == f(b)),
        NumRequest::OfInt(i) => num(i as f64),
        NumRequest::Fmt(a) => NumResponse::Text(f(a).to_string()),
        NumRequest::Random => num(rand::random::<f64>()),
    }
}

fn eval_str(src: &str) -> Result<Vec<Value>, String> {
    evaluate(tokenize(src.to_string()), &std_kernel)
}

#[test]
fn tokenize_simple_addition() {
    let toks = tokenize("(+ 1 2)".to_string());
    assert_eq!(toks.len(), 5);
    assert!(matches!(toks[0], Token::LeftParen));
    match &toks[1] {
        Token::Function(fun) => {
            assert_eq!(fun.name, "+");
            assert!(fun.args.is_empty());
        },
        _ => panic!("expected a function token"),
    }
    match &toks[2] {
        Token::Literal(l) => assert_eq!(l.value, Value::Int(1)),
        _ => panic!("expected a literal token"),
    }
    match &toks[3] {
        Token::Literal(l) => assert_eq!(l.value, Value::Int(2)),
        _ => panic!("expected a literal token"),
    }
    assert!(matches!(toks[4], Token::RightParen));
}

#[test]
fn evaluate_integer_addition() {
    assert_eq!(eval_str("(+ 1 2)").unwrap(), vec![Value::Int(3)]);
}

#[test]
fn evaluate_mixed_addition_is_a_type_error() {
    // the word `2.5` lexes as a variable reference, which flattens to text,
    // so the addition sees mismatched argument kinds
    assert_eq!(eval_str("(+ 1 2.5)").unwrap_err(), "Invalid types for addition");
    assert_eq!(eval_str("(+ 1.5 2.5)").unwrap_err(), "Invalid types for addition");
}

#[test]
fn evaluate_float_addition_through_inradius() {
    // float values arise from inradius; a 3-4-5 right triangle has inradius 1
    let out = eval_str(
        "(+ (inradius (triangle (point 0 0) (point 3 0) (point 0 4))) \
         (inradius (triangle (point 0 0) (point 3 0) (point 0 4))))",
    )
    .unwrap();
    match &out[0] {
        Value::Float(r) => assert_eq!(f(*r), 2.0),
        v => panic!("expected a float, got {:?}", v),
    }
}

#[test]
fn evaluate_arithmetic_family() {
    assert_eq!(eval_str("(- 7 10)").unwrap(), vec![Value::Int(-3)]);
    assert_eq!(eval_str("(* 6 7)").unwrap(), vec![Value::Int(42)]);
    assert_eq!(eval_str("(/ 7 2)").unwrap(), vec![Value::Int(3)]);
    assert_eq!(eval_str("(/ -7 2)").unwrap(), vec![Value::Int(-3)]);
    assert_eq!(eval_str("(/ 5 0)").unwrap_err(), "Division by zero");
}

#[test]
fn evaluate_assignment_and_label() {
    let out = eval_str("(setq p (point 0 0)) p").unwrap();
    assert_eq!(out.len(), 3);
    assert!(matches!(out[0], Value::Undefined));
    match &out[1] {
        Value::Point(p) => {
            assert_eq!(f(p.x), 0.0);
            assert_eq!(f(p.y), 0.0);
        },
        v => panic!("expected a point, got {:?}", v),
    }
    match &out[2] {
        Value::Text(s) => assert_eq!(s, "p 0 0"),
        v => panic!("expected a label, got {:?}", v),
    }
}

#[test]
fn evaluate_rebinding_substitutes_the_value_first() {
    // once bound, the name substitutes to its value before assignment sees
    // it, so a second assignment to the same name is rejected
    assert_eq!(eval_str("(setq x 1) (setq x 5)").unwrap_err(), "Invalid variable name");
}

#[test]
fn environment_updates_a_binding_in_place() {
    let mut env = Env::new();
    env.set("x".to_string(), Value::Int(1));
    env.set("y".to_string(), Value::Int(2));
    env.set("x".to_string(), Value::Int(5));
    assert_eq!(env.items.len(), 2);
    assert_eq!(env.get(&"x".to_string()), Some(Value::Int(5)));
    assert_eq!(env.get(&"y".to_string()), Some(Value::Int(2)));
    assert_eq!(env.get(&"z".to_string()), None);
}

#[test]
fn evaluate_comments_are_skipped() {
    let out = eval_str("(+ 1 2) ; this is junk 4 5\n7").unwrap();
    assert_eq!(out, vec![Value::Int(3), Value::Int(7)]);
}

#[test]
fn evaluate_comment_ends_at_parenthesis() {
    let out = eval_str("; note (+ 1 2)").unwrap();
    assert_eq!(out, vec![Value::Int(3)]);
}

#[test]
fn evaluate_nested_calls() {
    assert_eq!(eval_str("(+ (* 2 3) (- 10 4))").unwrap(), vec![Value::Int(12)]);
}

#[test]
fn evaluate_unknown_name_is_noop() {
    assert_eq!(eval_str("(frobnicate 1 2 3)").unwrap(), vec![Value::Int(0)]);
}

#[test]
fn parse_boundary_of_integer_literals() {
    // within the 32-bit range the word is a literal
    assert_eq!(eval_str("2147483647").unwrap(), vec![Value::Int(2147483647)]);
    assert_eq!(eval_str("-2147483648").unwrap(), vec![Value::Int(-2147483648)]);
    // beyond it the word is an unbound variable reference
    assert_eq!(eval_str("2147483648").unwrap_err(), "Undefined variable when evaluating");
}

#[test]
fn evaluate_error_taxonomy() {
    assert_eq!(eval_str("((").unwrap_err(), "Mismatched parentheses");
    // a word right after a left parenthesis always lexes as a function
    // name, so a lone closing word leaves the section unbalanced
    assert_eq!(eval_str("( )").unwrap_err(), "Mismatched parentheses");
    assert_eq!(eval_str(")").unwrap_err(), "Unexpected token when evaluating");
    assert_eq!(eval_str("x").unwrap_err(), "Undefined variable when evaluating");
    assert_eq!(eval_str("(setq 1p 2)").unwrap_err(), "Invalid variable name");
    assert_eq!(eval_str("(setq x)").unwrap_err(), "setq requires exactly 2 arguments");
    assert_eq!(eval_str("(+ 1 2 3)").unwrap_err(), "Add requires exactly 2 arguments");
}

#[test]
fn reduce_requires_a_function_head() {
    let tokens = vec![
        Token::LeftParen,
        Token::Literal(Literal { value: Value::Int(1) }),
        Token::RightParen,
    ];
    assert_eq!(evaluate(tokens, &std_kernel).unwrap_err(), "Expected function");
}
