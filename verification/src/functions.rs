//! The operation registry: one struct per named operation, each accepting a
//! list of values and returning a value or a descriptive failure. Several
//! operations try more than one structural reading of their arguments, in a
//! fixed order, and commit to the first that fits.

use vstd::prelude::*;

use crate::geometry::{distance, distance_rel, midpoint, midpoint_rel};
use crate::interpreter::{is_valid_variable, valid_variable_name};
use crate::numeric::{
    abs_bits, k_add, k_div, k_float_eq, k_lt, k_mul, k_of_int, k_sin, k_sqrt, k_sub,
    k_to_radians, kernel_ok, radd, rdiv, rfloat_eq, rlt, rmul, rof_int, rsin, rsqrt, rsub,
    rto_radians, rc, NumRequest, NumResponse, Real, R_FIVE, R_FOUR, R_INFINITY, R_ONE,
    R_ONE_EIGHTY, R_TWO, R_ZERO,
};
use crate::types::{
    arc_point_rel, circle_new_rel, circle_point_rel, centroid_rel, circumcenter_rel,
    incenter_rel, inradius_rel, neg_bits_of, orthocenter_rel, res_view, slope_rel,
    triangle_new_rel, vals_view, y_intercept_rel, Angle, Circle, Lineseg, Point, Triangle, Value,
    ValueV,
};

verus! {

/// The closed set of operation kinds a function token can dispatch to.
#[derive(Clone, Copy, Debug, PartialEq, Eq, Structural)]
pub enum OpKind {
    /// Integer or float addition.
    Add,
    /// Integer or float subtraction.
    Sub,
    /// Integer or float multiplication.
    Mul,
    /// Integer or float division.
    Div,
    /// The assignment pseudo-operation.
    Setq,
    /// The fallback for unrecognized names: returns integer zero.
    Nop,
    /// An inscribed angle sampled on a circle.
    InscribedAngle,
    /// An angle from three points.
    Angle,
    /// A line segment from two points.
    Lineseg,
    /// The midpoint of two points.
    Midpoint,
    /// The circumcenter of a triangle.
    Circumcenter,
    /// The incenter of a triangle.
    Incenter,
    /// The orthocenter of a triangle.
    Orthocenter,
    /// The centroid of a triangle.
    Centroid,
    /// A point from two numbers.
    Point,
    /// The intersection of two segments, or of a segment and a circle.
    Intersect,
    /// The inradius of a triangle.
    Inradius,
    /// A circle: the canonical one, or one from a point and a radius.
    Circle,
    /// A triangle from points, from a circle, or from an angle.
    Triangle,
}

/// Whether a mathematical integer fits in a signed 64-bit machine word.
pub open spec fn in_i64(x: int) -> bool {
    i64::MIN <= x <= i64::MAX
}

/// The magnitude of a mathematical integer.
pub open spec fn abs_int(a: int) -> int {
    if a < 0 {
        -a
    } else {
        a
    }
}

/// Division truncated toward zero, as machine division behaves.
pub open spec fn trunc_div(a: int, b: int) -> int {
    let q = abs_int(a) / abs_int(b);
    if (a < 0) != (b < 0) {
        -q
    } else {
        q
    }
}

/// What assignment returns: its second argument, provided the first is text
/// holding a well-formed variable name.
pub open spec fn set_op_rel(args: Seq<ValueV>, out: Result<ValueV, Seq<char>>) -> bool {
    if args.len() != 2 {
        out == Err::<ValueV, Seq<char>>("setq requires exactly 2 arguments"@)
    } else {
        match args[0] {
            ValueV::Text(s) => if valid_variable_name(s) {
                out == Ok::<ValueV, Seq<char>>(args[1])
            } else {
                out == Err::<ValueV, Seq<char>>("Invalid variable name"@)
            },
            _ => out == Err::<ValueV, Seq<char>>("Invalid variable name"@),
        }
    }
}

/// What addition returns: the exact sum of two integers (an out-of-range
/// sum is reported instead of wrapping), a kernel sum of two floats, and a
/// type error on any other argument shapes.
pub open spec fn add_op_rel<F: Fn(NumRequest) -> NumResponse>(
    k: F,
    args: Seq<ValueV>,
    out: Result<ValueV, Seq<char>>,
) -> bool {
    if args.len() != 2 {
        out == Err::<ValueV, Seq<char>>("Add requires exactly 2 arguments"@)
    } else {
        &&& args[0] matches ValueV::Int(a) ==> args[1] matches ValueV::Int(b) ==> if in_i64(
            a + b,
        ) {
            out == Ok::<ValueV, Seq<char>>(ValueV::Int((a + b) as i64))
        } else {
            out == Err::<ValueV, Seq<char>>("Integer overflow"@)
        }
        &&& args[0] matches ValueV::Float(a) ==> args[1] matches ValueV::Float(b) ==> exists|
            r: Real,
        |
            #[trigger] k_add(k, a, b, r) && out == Ok::<ValueV, Seq<char>>(ValueV::Float(r))
        &&& !(args[0] is Int && args[1] is Int) && !(args[0] is Float && args[1] is Float)
            ==> out == Err::<ValueV, Seq<char>>("Invalid types for addition"@)
    }
}

/// What subtraction returns; as [`add_op_rel`], with the difference.
pub open spec fn sub_op_rel<F: Fn(NumRequest) -> NumResponse>(
    k: F,
    args: Seq<ValueV>,
    out: Result<ValueV, Seq<char>>,
) -> bool {
    if args.len() != 2 {
        out == Err::<ValueV, Seq<char>>("Sub requires exactly 2 arguments"@)
    } else {
        &&& args[0] matches ValueV::Int(a) ==> args[1] matches ValueV::Int(b) ==> if in_i64(
            a - b,
        ) {
            out == Ok::<ValueV, Seq<char>>(ValueV::Int((a - b) as i64))
        } else {
            out == Err::<ValueV, Seq<char>>("Integer overflow"@)
        }
        &&& args[0] matches ValueV::Float(a) ==> args[1] matches ValueV::Float(b) ==> exists|
            r: Real,
        |
            #[trigger] k_sub(k, a, b, r) && out == Ok::<ValueV, Seq<char>>(ValueV::Float(r))
        &&& !(args[0] is Int && args[1] is Int) && !(args[0] is Float && args[1] is Float)
            ==> out == Err::<ValueV, Seq<char>>("Invalid types for subtraction"@)
    }
}

/// What multiplication returns; as [`add_op_rel`], with the product.
pub open spec fn mul_op_rel<F: Fn(NumRequest) -> NumResponse>(
    k: F,
    args: Seq<ValueV>,
    out: Result<ValueV, Seq<char>>,
) -> bool {
    if args.len() != 2 {
        out == Err::<ValueV, Seq<char>>("Mul requires exactly 2 arguments"@)
    } else {
        &&& args[0] matches ValueV::Int(a) ==> args[1] matches ValueV::Int(b) ==> if in_i64(
            a * b,
        ) {
            out == Ok::<ValueV, Seq<char>>(ValueV::Int((a * b) as i64))
        } else {
            out == Err::<ValueV, Seq<char>>("Integer overflow"@)
        }
        &&& args[0] matches ValueV::Float(a) ==> args[1] matches ValueV::Float(b) ==> exists|
            r: Real,
        |
            #[trigger] k_mul(k, a, b, r) && out == Ok::<ValueV, Seq<char>>(ValueV::Float(r))
        &&& !(args[0] is Int && args[1] is Int) && !(args[0] is Float && args[1] is Float)
            ==> out == Err::<ValueV, Seq<char>>("Invalid types for multiplication"@)
    }
}

/// What division returns: the integer quotient truncated toward zero, with
/// division by zero and the one overflowing quotient reported as failures;
/// a kernel quotient of two floats; a type error otherwise.
pub open spec fn div_op_rel<F: Fn(NumRequest) -> NumResponse>(
    k: F,
    args: Seq<ValueV>,
    out: Result<ValueV, Seq<char>>,
) -> bool {
    if args.len() != 2 {
        out == Err::<ValueV, Seq<char>>("Div requires exactly 2 arguments"@)
    } else {
        &&& args[0] matches ValueV::Int(a) ==> args[1] matches ValueV::Int(b) ==> if b == 0 {
            out == Err::<ValueV, Seq<char>>("Division by zero"@)
        } else if a == i64::MIN && b == -1 {
            out == Err::<ValueV, Seq<char>>("Integer overflow"@)
        } else {
            out == Ok::<ValueV, Seq<char>>(ValueV::Int(trunc_div(a as int, b as int) as i64))
        }
        &&& args[0] matches ValueV::Float(a) ==> args[1] matches ValueV::Float(b) ==> exists|
            r: Real,
        |
            #[trigger] k_div(k, a, b, r) && out == Ok::<ValueV, Seq<char>>(ValueV::Float(r))
        &&& !(args[0] is Int && args[1] is Int) && !(args[0] is Float && args[1] is Float)
            ==> out == Err::<ValueV, Seq<char>>("Invalid types for division"@)
    }
}

/// What the fallback operation returns: integer zero, always.
pub open spec fn nop_op_rel(out: Result<ValueV, Seq<char>>) -> bool {
    out == Ok::<ValueV, Seq<char>>(ValueV::Int(0))
}

/// Function to set a variable.
#[derive(Clone)]
pub struct FnSet;

impl FnSet {
    /// Validates the argument pair for assignment and hands back the value
    /// to be bound; the environment write happens in the evaluator.
    pub fn call(&self, args: &[Value]) -> (out: Result<Value, String>)
        ensures
            set_op_rel(vals_view(args@), res_view(out)),
    {
        if args.len() != 2 {
            return Err("setq requires exactly 2 arguments".to_owned());
        }
        let var_name = match &args[0] {
            Value::Text(s) => s,
            _ => { return Err("Invalid variable name".to_owned()) },
        };
        if !is_valid_variable(var_name.as_str()) {
            return Err("Invalid variable name".to_owned());
        }
        Ok(args[1].duplicate())
    }
}

/// Addition of two matching numeric values.
#[derive(Clone)]
pub struct FnAdd;

impl FnAdd {
    /// The sum of exactly two integers or exactly two floats.
    #[verifier::rlimit(60)]
    pub fn call<F: Fn(NumRequest) -> NumResponse>(&self, kernel: &F, args: &[Value]) -> (out:
        Result<Value, String>)
        requires
            kernel_ok(*kernel),
        ensures
            add_op_rel(*kernel, vals_view(args@), res_view(out)),
    {
        if args.len() != 2 {
            return Err("Add requires exactly 2 arguments".to_owned());
        }
        match (&args[0], &args[1]) {
            (Value::Int(a), Value::Int(b)) => {
                let s: i128 = *a as i128 + *b as i128;
                if s < i64::MIN as i128 || s > i64::MAX as i128 {
                    Err("Integer overflow".to_owned())
                } else {
                    Ok(Value::Int(s as i64))
                }
            },
            (Value::Float(a), Value::Float(b)) => {
                let r = radd(kernel, *a, *b);
                let res: Result<Value, String> = Ok(Value::Float(r));
                proof {
                    lemma_add_float(*kernel, vals_view(args@), res_view(res), *a, *b, r);
                }
                res
            },
            _ => Err("Invalid types for addition".to_owned()),
        }
    }
}

/// Subtraction of two matching numeric values.
#[derive(Clone)]
pub struct FnSub;

impl FnSub {
    /// The difference of exactly two integers or exactly two floats.
    #[verifier::rlimit(60)]
    pub fn call<F: Fn(NumRequest) -> NumResponse>(&self, kernel: &F, args: &[Value]) -> (out:
        Result<Value, String>)
        requires
            kernel_ok(*kernel),
        ensures
            sub_op_rel(*kernel, vals_view(args@), res_view(out)),
    {
        if args.len() != 2 {
            return Err("Sub requires exactly 2 arguments".to_owned());
        }
        match (&args[0], &args[1]) {
            (Value::Int(a), Value::Int(b)) => {
                let s: i128 = *a as i128 - *b as i128;
                if s < i64::MIN as i128 || s > i64::MAX as i128 {
                    Err("Integer overflow".to_owned())
                } else {
                    Ok(Value::Int(s as i64))
                }
            },
            (Value::Float(a), Value::Float(b)) => {
                let r = rsub(kernel, *a, *b);
                let res: Result<Value, String> = Ok(Value::Float(r));
                proof {
                    lemma_sub_float(*kernel, vals_view(args@), res_view(res), *a, *b, r);
                }
                res
            },
            _ => Err("Invalid types for subtraction".to_owned()),
        }
    }
}

/// Multiplication of two matching numeric values.
#[derive(Clone)]
pub struct FnMul;

impl FnMul {
    /// The product of exactly two integers or exactly two floats.
    #[verifier::rlimit(60)]
    pub fn call<F: Fn(NumRequest) -> NumResponse>(&self, kernel: &F, args: &[Value]) -> (out:
        Result<Value, String>)
        requires
            kernel_ok(*kernel),
        ensures
            mul_op_rel(*kernel, vals_view(args@), res_view(out)),
    {
        if args.len() != 2 {
            return Err("Mul requires exactly 2 arguments".to_owned());
        }
        match (&args[0], &args[1]) {
            (Value::Int(a), Value::Int(b)) => {
                proof {
                    assert((*a as i128) * (*b as i128) <= i128::MAX && (*a as i128) * (
                    *b as i128) >= i128::MIN) by (nonlinear_arith)
                        requires
                            i64::MIN <= *a <= i64::MAX,
                            i64::MIN <= *b <= i64::MAX,
                    ;
                }
                let s: i128 = *a as i128 * *b as i128;
                if s < i64::MIN as i128 || s > i64::MAX as i128 {
                    Err("Integer overflow".to_owned())
                } else {
                    Ok(Value::Int(s as i64))
                }
            },
            (Value::Float(a), Value::Float(b)) => {
                let r = rmul(kernel, *a, *b);
                let res: Result<Value, String> = Ok(Value::Float(r));
                proof {
                    lemma_mul_float(*kernel, vals_view(args@), res_view(res), *a, *b, r);
                }
                res
            },
            _ => Err("Invalid types for multiplication".to_owned()),
        }
    }
}

/// Division of two matching numeric values.
#[derive(Clone)]
pub struct FnDiv;

impl FnDiv {
    /// The quotient of exactly two integers (truncated toward zero) or of
    /// exactly two floats.
    #[verifier::rlimit(60)]
    pub fn call<F: Fn(NumRequest) -> NumResponse>(&self, kernel: &F, args: &[Value]) -> (out:
        Result<Value, String>)
        requires
            kernel_ok(*kernel),
        ensures
            div_op_rel(*kernel, vals_view(args@), res_view(out)),
    {
        if args.len() != 2 {
            return Err("Div requires exactly 2 arguments".to_owned());
        }
        match (&args[0], &args[1]) {
            (Value::Int(a), Value::Int(b)) => {
                if *b == 0 {
                    return Err("Division by zero".to_owned());
                }
                if *a == i64::MIN && *b == -1 {
                    return Err("Integer overflow".to_owned());
                }
                Ok(Value::Int(div_trunc_i64(*a, *b)))
            },
            (Value::Float(a), Value::Float(b)) => {
                let r = rdiv(kernel, *a, *b);
                let res: Result<Value, String> = Ok(Value::Float(r));
                proof {
                    lemma_div_float(*kernel, vals_view(args@), res_view(res), *a, *b, r);
                }
                res
            },
            _ => Err("Invalid types for division".to_owned()),
        }
    }
}

/// Signed division truncated toward zero, computed through unsigned
/// magnitudes.
fn div_trunc_i64(a: i64, b: i64) -> (q: i64)
    requires
        b != 0,
        !(a == i64::MIN && b == -1),
    ensures
        q == trunc_div(a as int, b as int),
{
    let ua: u64 = if a >= 0 {
        a as u64
    } else {
        (-(a as i128)) as u64
    };
    let ub: u64 = if b >= 0 {
        b as u64
    } else {
        (-(b as i128)) as u64
    };
    let uq: u64 = ua / ub;
    proof {
        assert(ua == abs_int(a as int));
        assert(ub == abs_int(b as int));
        assert(uq == abs_int(a as int) / abs_int(b as int));
        assert(ub >= 1);
        assert(uq * ub <= ua) by (nonlinear_arith)
            requires
                uq == ua / ub,
                ub >= 1,
        ;
        assert(uq <= ua) by (nonlinear_arith)
            requires
                uq * ub <= ua,
                ub >= 1,
                uq >= 0,
        ;
        if ua == 0x8000_0000_0000_0000 && (a < 0) == (b < 0) {
            assert(b < 0 && b != -1);
            assert(ub >= 2);
            assert(uq <= 0x4000_0000_0000_0000) by (nonlinear_arith)
                requires
                    uq * ub <= 0x8000_0000_0000_0000,
                    ub >= 2,
                    uq >= 0,
            ;
        }
    }
    if (a < 0) != (b < 0) {
        (-(uq as i128)) as i64
    } else {
        uq as i64
    }
}

/// The fallback operation bound to unrecognized names.
#[derive(Clone)]
pub struct FnNop;

impl FnNop {
    /// Integer zero, whatever the arguments.
    pub fn call(&self, args: &[Value]) -> (out: Result<Value, String>)
        ensures
            nop_op_rel(res_view(out)),
    {
        let _ = args;
        Ok(Value::Int(0))
    }
}

/// What building an angle from three points returns.
pub open spec fn angle_points_rel(args: Seq<ValueV>, out: Result<ValueV, Seq<char>>) -> bool {
    if args.len() != 3 {
        out == Err::<ValueV, Seq<char>>("Angle requires exactly 3 arguments"@)
    } else {
        match (args[0], args[1], args[2]) {
            (ValueV::Point(p0), ValueV::Point(p1), ValueV::Point(p2)) => out == Ok::<
                ValueV,
                Seq<char>,
            >(ValueV::Angle(Angle { start: p0, center: p1, end: p2 })),
            _ => out == Err::<ValueV, Seq<char>>("Invalid types for point"@),
        }
    }
}

/// What the angle operation returns: the three-point reading, with any
/// failure reported under one message.
pub open spec fn angle_op_rel(args: Seq<ValueV>, out: Result<ValueV, Seq<char>>) -> bool {
    exists|r1: Result<ValueV, Seq<char>>|
        #[trigger] angle_points_rel(args, r1) && match r1 {
            Ok(v) => out == Ok::<ValueV, Seq<char>>(v),
            Err(_) => out == Err::<ValueV, Seq<char>>("Invalid arguments for angle"@),
        }
}

/// An angle from three points.
#[derive(Clone)]
pub struct FnAngle;

impl FnAngle {
    /// Case 1: create an angle from three points.
    pub fn from_points(&self, args: &[Value]) -> (out: Result<Value, String>)
        ensures
            angle_points_rel(vals_view(args@), res_view(out)),
    {
        if args.len() != 3 {
            return Err("Angle requires exactly 3 arguments".to_owned());
        }
        match (&args[0], &args[1], &args[2]) {
            (Value::Point(p0), Value::Point(p1), Value::Point(p2)) => Ok(
                Value::Angle(Angle { start: *p0, center: *p1, end: *p2 }),
            ),
            _ => Err("Invalid types for point".to_owned()),
        }
    }

    /// The three-point reading, with any failure reported under one message.
    pub fn call(&self, args: &[Value]) -> (out: Result<Value, String>)
        ensures
            angle_op_rel(vals_view(args@), res_view(out)),
    {
        let r1 = self.from_points(args);
        let ghost r1v = res_view(r1);
        match r1 {
            Ok(v) => Ok(v),
            Err(_) => Err("Invalid arguments for angle".to_owned()),
        }
    }
}

/// What building a line segment from two points returns.
pub open spec fn lineseg_points_rel(args: Seq<ValueV>, out: Result<ValueV, Seq<char>>) -> bool {
    if args.len() != 2 {
        out == Err::<ValueV, Seq<char>>("Line segment requires exactly 2 arguments"@)
    } else {
        match (args[0], args[1]) {
            (ValueV::Point(p0), ValueV::Point(p1)) => out == Ok::<ValueV, Seq<char>>(
                ValueV::Lineseg(Lineseg { start: p0, end: p1 }),
            ),
            _ => out == Err::<ValueV, Seq<char>>("Invalid types for point"@),
        }
    }
}

/// What the line-segment operation returns: the two-point reading, with any
/// failure reported under one message.
pub open spec fn lineseg_op_rel(args: Seq<ValueV>, out: Result<ValueV, Seq<char>>) -> bool {
    exists|r1: Result<ValueV, Seq<char>>|
        #[trigger] lineseg_points_rel(args, r1) && match r1 {
            Ok(v) => out == Ok::<ValueV, Seq<char>>(v),
            Err(_) => out == Err::<ValueV, Seq<char>>("Invalid arguments for line segment"@),
        }
}

/// A line segment from two points.
#[derive(Clone)]
pub struct FnLineseg;

impl FnLineseg {
    /// Case 1: create a line segment from two points.
    pub fn from_points(&self, args: &[Value]) -> (out: Result<Value, String>)
        ensures
            lineseg_points_rel(vals_view(args@), res_view(out)),
    {
        if args.len() != 2 {
            return Err("Line segment requires exactly 2 arguments".to_owned());
        }
        match (&args[0], &args[1]) {
            (Value::Point(p0), Value::Point(p1)) => Ok(
                Value::Lineseg(Lineseg { start: *p0, end: *p1 }),
            ),
            _ => Err("Invalid types for point".to_owned()),
        }
    }

    /// The two-point reading, with any failure reported under one message.
    pub fn call(&self, args: &[Value]) -> (out: Result<Value, String>)
        ensures
            lineseg_op_rel(vals_view(args@), res_view(out)),
    {
        let r1 = self.from_points(args);
        match r1 {
            Ok(v) => Ok(v),
            Err(_) => Err("Invalid arguments for line segment".to_owned()),
        }
    }
}

/// What the midpoint operation returns: the kernel midpoint of exactly two
/// points.
pub open spec fn midpoint_op_rel<F: Fn(NumRequest) -> NumResponse>(
    k: F,
    args: Seq<ValueV>,
    out: Result<ValueV, Seq<char>>,
) -> bool {
    if args.len() != 2 {
        out == Err::<ValueV, Seq<char>>("Midpoint requires exactly 2 arguments"@)
    } else {
        match args[0] {
            ValueV::Point(p1) => match args[1] {
                ValueV::Point(p2) => exists|m: Point|
                    #[trigger] midpoint_rel(k, p1, p2, m) && out == Ok::<ValueV, Seq<char>>(
                        ValueV::Point(m),
                    ),
                _ => out == Err::<ValueV, Seq<char>>(
                    "Invalid type for second argument, expected a Point"@,
                ),
            },
            _ => out == Err::<ValueV, Seq<char>>(
                "Invalid type for first argument, expected a Point"@,
            ),
        }
    }
}

/// The midpoint of two points.
#[derive(Clone)]
pub struct FnMidpoint;

impl FnMidpoint {
    /// The kernel midpoint of exactly two points.
    #[verifier::rlimit(60)]
    pub fn call<F: Fn(NumRequest) -> NumResponse>(&self, kernel: &F, args: &[Value]) -> (out:
        Result<Value, String>)
        requires
            kernel_ok(*kernel),
        ensures
            midpoint_op_rel(*kernel, vals_view(args@), res_view(out)),
    {
        if args.len() != 2 {
            return Err("Midpoint requires exactly 2 arguments".to_owned());
        }
        let p1 = match &args[0] {
            Value::Point(p) => *p,
            _ => {
                return Err("Invalid type for first argument, expected a Point".to_owned())
            },
        };
        let p2 = match &args[1] {
            Value::Point(p) => *p,
            _ => {
                return Err("Invalid type for second argument, expected a Point".to_owned())
            },
        };
        let m = midpoint(kernel, p1, p2);
        let res: Result<Value, String> = Ok(Value::Point(m));
        proof {
            lemma_midpoint_points(*kernel, vals_view(args@), res_view(res), p1, p2, m);
        }
        res
    }
}

/// What the circumcenter query returns: the kernel circumcenter of exactly one
/// triangle.
pub open spec fn circumcenter_op_rel<F: Fn(NumRequest) -> NumResponse>(
    k: F,
    args: Seq<ValueV>,
    out: Result<ValueV, Seq<char>>,
) -> bool {
    if args.len() != 1 {
        out == Err::<ValueV, Seq<char>>("Circumcenter requires exactly 1 argument"@)
    } else if !(args[0] is Triangle) {
        out == Err::<ValueV, Seq<char>>("Invalid types for triangle"@)
    } else {
        exists|p: Point|
            #[trigger] circumcenter_rel(k, args[0]->Triangle_0, p) && out == Ok::<ValueV, Seq<char>>(
                ValueV::Point(p),
            )
    }
}

/// What the incenter query returns: the kernel incenter of exactly one
/// triangle.
pub open spec fn incenter_op_rel<F: Fn(NumRequest) -> NumResponse>(
    k: F,
    args: Seq<ValueV>,
    out: Result<ValueV, Seq<char>>,
) -> bool {
    if args.len() != 1 {
        out == Err::<ValueV, Seq<char>>("Incenter requires exactly 1 argument"@)
    } else if !(args[0] is Triangle) {
        out == Err::<ValueV, Seq<char>>("Invalid types for triangle"@)
    } else {
        exists|p: Point|
            #[trigger] incenter_rel(k, args[0]->Triangle_0, p) && out == Ok::<ValueV, Seq<char>>(
                ValueV::Point(p),
            )
    }
}

/// What the orthocenter query returns: the kernel orthocenter of exactly one
/// triangle.
pub open spec fn orthocenter_op_rel<F: Fn(NumRequest) -> NumResponse>(
    k: F,
    args: Seq<ValueV>,
    out: Result<ValueV, Seq<char>>,
) -> bool {
    if args.len() != 1 {
        out == Err::<ValueV, Seq<char>>("Orthocenter requires exactly 1 argument"@)
    } else if !(args[0] is Triangle) {
        out == Err::<ValueV, Seq<char>>("Invalid types for triangle"@)
    } else {
        exists|p: Point|
            #[trigger] orthocenter_rel(k, args[0]->Triangle_0, p) && out == Ok::<ValueV, Seq<char>>(
                ValueV::Point(p),
            )
    }
}

/// What the centroid query returns: the kernel centroid of exactly one
/// triangle.
pub open spec fn centroid_op_rel<F: Fn(NumRequest) -> NumResponse>(
    k: F,
    args: Seq<ValueV>,
    out: Result<ValueV, Seq<char>>,
) -> bool {
    if args.len() != 1 {
        out == Err::<ValueV, Seq<char>>("Centroid requires exactly 1 argument"@)
    } else if !(args[0] is Triangle) {
        out == Err::<ValueV, Seq<char>>("Invalid types for triangle"@)
    } else {
        exists|p: Point|
            #[trigger] centroid_rel(k, args[0]->Triangle_0, p) && out == Ok::<ValueV, Seq<char>>(
                ValueV::Point(p),
            )
    }
}

/// What the inradius query returns: the kernel inradius of exactly one
/// triangle.
pub open spec fn inradius_op_rel<F: Fn(NumRequest) -> NumResponse>(
    k: F,
    args: Seq<ValueV>,
    out: Result<ValueV, Seq<char>>,
) -> bool {
    if args.len() != 1 {
        out == Err::<ValueV, Seq<char>>("Inradius requires exactly 1 argument"@)
    } else if !(args[0] is Triangle) {
        out == Err::<ValueV, Seq<char>>("Invalid types for triangle"@)
    } else {
        exists|p: Real|
            #[trigger] inradius_rel(k, args[0]->Triangle_0, p) && out == Ok::<ValueV, Seq<char>>(
                ValueV::Float(p),
            )
    }
}

/// The circumcenter of a triangle.
#[derive(Clone)]
pub struct FnCircumcenter;

impl FnCircumcenter {
    /// The kernel circumcenter of exactly one triangle.
    pub fn call<F: Fn(NumRequest) -> NumResponse>(&self, kernel: &F, args: &[Value]) -> (out:
        Result<Value, String>)
        requires
            kernel_ok(*kernel),
        ensures
            circumcenter_op_rel(*kernel, vals_view(args@), res_view(out)),
    {
        if args.len() != 1 {
            return Err("Circumcenter requires exactly 1 argument".to_owned());
        }
        let t = match &args[0] {
            Value::Triangle(t) => *t,
            _ => { return Err("Invalid types for triangle".to_owned()) },
        };
        let p = t.circumcenter(kernel);
        let res: Result<Value, String> = Ok(Value::Point(p));
        proof {
            assert(vals_view(args@)[0]->Triangle_0 == t);
            assert(circumcenter_rel(*kernel, vals_view(args@)[0]->Triangle_0, p));
            assert(exists|p2: Point|
                #[trigger] circumcenter_rel(*kernel, vals_view(args@)[0]->Triangle_0, p2) && res_view(res)
                    == Ok::<ValueV, Seq<char>>(ValueV::Point(p2)));
        }
        res
    }
}

/// The incenter of a triangle.
#[derive(Clone)]
pub struct FnIncenter;

impl FnIncenter {
    /// The kernel incenter of exactly one triangle.
    pub fn call<F: Fn(NumRequest) -> NumResponse>(&self, kernel: &F, args: &[Value]) -> (out:
        Result<Value, String>)
        requires
            kernel_ok(*kernel),
        ensures
            incenter_op_rel(*kernel, vals_view(args@), res_view(out)),
    {
        if args.len() != 1 {
            return Err("Incenter requires exactly 1 argument".to_owned());
        }
        let t = match &args[0] {
            Value::Triangle(t) => *t,
            _ => { return Err("Invalid types for triangle".to_owned()) },
        };
        let p = t.incenter(kernel);
        let res: Result<Value, String> = Ok(Value::Point(p));
        proof {
            assert(vals_view(args@)[0]->Triangle_0 == t);
            assert(incenter_rel(*kernel, vals_view(args@)[0]->Triangle_0, p));
            assert(exists|p2: Point|
                #[trigger] incenter_rel(*kernel, vals_view(args@)[0]->Triangle_0, p2) && res_view(res)
                    == Ok::<ValueV, Seq<char>>(ValueV::Point(p2)));
        }
        res
    }
}

/// The orthocenter of a triangle.
#[derive(Clone)]
pub struct FnOrthocenter;

impl FnOrthocenter {
    /// The kernel orthocenter of exactly one triangle.
    pub fn call<F: Fn(NumRequest) -> NumResponse>(&self, kernel: &F, args: &[Value]) -> (out:
        Result<Value, String>)
        requires
            kernel_ok(*kernel),
        ensures
            orthocenter_op_rel(*kernel, vals_view(args@), res_view(out)),
    {
        if args.len() != 1 {
            return Err("Orthocenter requires exactly 1 argument".to_owned());
        }
        let t = match &args[0] {
            Value::Triangle(t) => *t,
            _ => { return Err("Invalid types for triangle".to_owned()) },
        };
        let p = t.orthocenter(kernel);
        let res: Result<Value, String> = Ok(Value::Point(p));
        proof {
            assert(vals_view(args@)[0]->Triangle_0 == t);
            assert(orthocenter_rel(*kernel, vals_view(args@)[0]->Triangle_0, p));
            assert(exists|p2: Point|
                #[trigger] orthocenter_rel(*kernel, vals_view(args@)[0]->Triangle_0, p2) && res_view(res)
                    == Ok::<ValueV, Seq<char>>(ValueV::Point(p2)));
        }
        res
    }
}

/// The centroid of a triangle.
#[derive(Clone)]
pub struct FnCentroid;

impl FnCentroid {
    /// The kernel centroid of exactly one triangle.
    pub fn call<F: Fn(NumRequest) -> NumResponse>(&self, kernel: &F, args: &[Value]) -> (out:
        Result<Value, String>)
        requires
            kernel_ok(*kernel),
        ensures
            centroid_op_rel(*kernel, vals_view(args@), res_view(out)),
    {
        if args.len() != 1 {
            return Err("Centroid requires exactly 1 argument".to_owned());
        }
        let t = match &args[0] {
            Value::Triangle(t) => *t,
            _ => { return Err("Invalid types for triangle".to_owned()) },
        };
        let p = t.centroid(kernel);
        let res: Result<Value, String> = Ok(Value::Point(p));
        proof {
            assert(vals_view(args@)[0]->Triangle_0 == t);
            assert(centroid_rel(*kernel, vals_view(args@)[0]->Triangle_0, p));
            assert(exists|p2: Point|
                #[trigger] centroid_rel(*kernel, vals_view(args@)[0]->Triangle_0, p2) && res_view(res)
                    == Ok::<ValueV, Seq<char>>(ValueV::Point(p2)));
        }
        res
    }
}

/// The inradius of a triangle.
#[derive(Clone)]
pub struct FnInradius;

impl FnInradius {
    /// The kernel inradius of exactly one triangle.
    pub fn call<F: Fn(NumRequest) -> NumResponse>(&self, kernel: &F, args: &[Value]) -> (out:
        Result<Value, String>)
        requires
            kernel_ok(*kernel),
        ensures
            inradius_op_rel(*kernel, vals_view(args@), res_view(out)),
    {
        if args.len() != 1 {
            return Err("Inradius requires exactly 1 argument".to_owned());
        }
        let t = match &args[0] {
            Value::Triangle(t) => *t,
            _ => { return Err("Invalid types for triangle".to_owned()) },
        };
        let p = t.inradius(kernel);
        let res: Result<Value, String> = Ok(Value::Float(p));
        proof {
            assert(vals_view(args@)[0]->Triangle_0 == t);
            assert(inradius_rel(*kernel, vals_view(args@)[0]->Triangle_0, p));
            assert(exists|p2: Real|
                #[trigger] inradius_rel(*kernel, vals_view(args@)[0]->Triangle_0, p2) && res_view(res)
                    == Ok::<ValueV, Seq<char>>(ValueV::Float(p2)));
        }
        res
    }
}

/// A numeric argument (an integer converted by the kernel, or a float) as a
/// float value.
pub open spec fn num_arg_rel<F: Fn(NumRequest) -> NumResponse>(k: F, v: ValueV, r: Real) -> bool {
    match v {
        ValueV::Int(i) => k_of_int(k, i, r),
        ValueV::Float(f) => r == f,
        _ => false,
    }
}

/// Converts an integer or float argument to a float; `None` on any other
/// value kind.
fn numeric_arg<F: Fn(NumRequest) -> NumResponse>(kernel: &F, v: &Value) -> (out: Option<Real>)
    requires
        kernel_ok(*kernel),
    ensures
        match out {
            Some(r) => num_arg_rel(*kernel, v@, r),
            None => !(v@ is Int) && !(v@ is Float),
        },
{
    match v {
        Value::Int(i) => Some(rof_int(kernel, *i)),
        Value::Float(f) => Some(*f),
        _ => None,
    }
}

/// What the point operation returns: a point from exactly two numeric
/// arguments, integers being converted by the kernel.
pub open spec fn point_op_rel<F: Fn(NumRequest) -> NumResponse>(
    k: F,
    args: Seq<ValueV>,
    out: Result<ValueV, Seq<char>>,
) -> bool {
    if args.len() != 2 {
        out == Err::<ValueV, Seq<char>>("Point requires exactly 2 arguments"@)
    } else {
        if !(args[0] is Int || args[0] is Float) || !(args[1] is Int || args[1] is Float) {
            out == Err::<ValueV, Seq<char>>("Invalid types for point"@)
        } else {
            exists|x: Real, y: Real|
                {
                    &&& #[trigger] num_arg_rel(k, args[0], x)
                    &&& #[trigger] num_arg_rel(k, args[1], y)
                    &&& out == Ok::<ValueV, Seq<char>>(ValueV::Point(Point { x, y }))
                }
        }
    }
}

/// A point from two numbers.
#[derive(Clone)]
pub struct FnPoint;

impl FnPoint {
    /// A point from exactly two numeric arguments.
    pub fn call<F: Fn(NumRequest) -> NumResponse>(&self, kernel: &F, args: &[Value]) -> (out:
        Result<Value, String>)
        requires
            kernel_ok(*kernel),
        ensures
            point_op_rel(*kernel, vals_view(args@), res_view(out)),
    {
        if args.len() != 2 {
            return Err("Point requires exactly 2 arguments".to_owned());
        }
        let x = match numeric_arg(kernel, &args[0]) {
            Some(r) => r,
            None => { return Err("Invalid types for point".to_owned()) },
        };
        let y = match numeric_arg(kernel, &args[1]) {
            Some(r) => r,
            None => { return Err("Invalid types for point".to_owned()) },
        };
        Ok(Value::Point(Point { x, y }))
    }
}

/// The retry bound for the randomized constructors: an uncapped rejection
/// loop could in theory run forever, so sampling gives up with a
/// descriptive failure after this many redraws.
pub const SAMPLE_CAP: u64 = 1000;

/// `m` is the first quadratic coefficient drawn from the segment:
/// the quotient of the endpoint height difference over the reversed
/// horizontal difference.
pub open spec fn lsc_m_rel<F: Fn(NumRequest) -> NumResponse>(k: F, l: Lineseg, m: Real) -> bool {
    exists|t1: Real, t2: Real|
        {
            &&& #[trigger] k_sub(k, l.end.y, l.start.y, t1)
            &&& #[trigger] k_sub(k, l.start.x, l.end.x, t2)
            &&& k_div(k, t1, t2, m)
        }
}

/// `n` is the second coefficient drawn from the segment, as written: the
/// difference of the two cross products of endpoint heights over the
/// horizontal difference.
pub open spec fn lsc_n_rel<F: Fn(NumRequest) -> NumResponse>(k: F, l: Lineseg, n: Real) -> bool {
    exists|u1: Real, u2: Real, u3: Real, u4: Real|
        {
            &&& #[trigger] k_mul(k, l.start.y, l.end.y, u1)
            &&& #[trigger] k_mul(k, l.end.y, l.start.y, u2)
            &&& #[trigger] k_sub(k, u1, u2, u3)
            &&& #[trigger] k_sub(k, l.end.x, l.start.x, u4)
            &&& k_div(k, u3, u4, n)
        }
}

/// `qa` is the quadratic's leading coefficient `1 + m * m`.
pub open spec fn lsc_qa_rel<F: Fn(NumRequest) -> NumResponse>(k: F, m: Real, qa: Real) -> bool {
    exists|v1: Real| #[trigger] k_mul(k, m, m, v1) && k_add(k, rc(R_ONE), v1, qa)
}

/// `qb` is the quadratic's middle coefficient `2 (m n - m d - c)`, for the
/// circle center `(c, d)`.
pub open spec fn lsc_qb_rel<F: Fn(NumRequest) -> NumResponse>(
    k: F,
    m: Real,
    n: Real,
    c: Circle,
    qb: Real,
) -> bool {
    exists|w1: Real, w2: Real, w3: Real, w4: Real|
        {
            &&& #[trigger] k_mul(k, m, n, w1)
            &&& #[trigger] k_mul(k, m, c.center.y, w2)
            &&& #[trigger] k_sub(k, w1, w2, w3)
            &&& #[trigger] k_sub(k, w3, c.center.x, w4)
            &&& k_mul(k, rc(R_TWO), w4, qb)
        }
}

/// `qc` is the quadratic's constant coefficient
/// `c c + d d + n n - 2 n d - r r`.
pub open spec fn lsc_qc_rel<F: Fn(NumRequest) -> NumResponse>(
    k: F,
    n: Real,
    c: Circle,
    qc: Real,
) -> bool {
    exists|x1: Real, x2: Real, x3: Real, x4: Real, x5: Real, x6: Real, x7: Real, x8: Real, x9: Real|
        {
            &&& #[trigger] k_mul(k, c.center.x, c.center.x, x1)
            &&& #[trigger] k_mul(k, c.center.y, c.center.y, x2)
            &&& #[trigger] k_mul(k, n, n, x3)
            &&& #[trigger] k_add(k, x1, x2, x4)
            &&& #[trigger] k_add(k, x4, x3, x5)
            &&& #[trigger] k_mul(k, rc(R_TWO), n, x6)
            &&& #[trigger] k_mul(k, x6, c.center.y, x7)
            &&& #[trigger] k_sub(k, x5, x7, x8)
            &&& #[trigger] k_mul(k, c.radius, c.radius, x9)
            &&& k_sub(k, x8, x9, qc)
        }
}

/// `dd` is the discriminant `qb qb - 4 qa qc`.
pub open spec fn lsc_disc_rel<F: Fn(NumRequest) -> NumResponse>(
    k: F,
    qa: Real,
    qb: Real,
    qc: Real,
    dd: Real,
) -> bool {
    exists|bb: Real, f1: Real, f2: Real|
        {
            &&& #[trigger] k_mul(k, qb, qb, bb)
            &&& #[trigger] k_mul(k, rc(R_FOUR), qa, f1)
            &&& #[trigger] k_mul(k, f1, qc, f2)
            &&& k_sub(k, bb, f2, dd)
        }
}

/// The chosen root of the quadratic and its height: rejected when the
/// discriminant compares below zero; otherwise the root `(-qb ± sqrt) / 2 qa`
/// selected by `first`, with `y = m x + n`.
pub open spec fn lsc_roots_rel<F: Fn(NumRequest) -> NumResponse>(
    k: F,
    l: Lineseg,
    c: Circle,
    first: bool,
    out: Result<ValueV, Seq<char>>,
) -> bool {
    exists|m: Real, n: Real, qa: Real, qb: Real, qc: Real, dd: Real, neg: bool|
        {
            &&& #[trigger] lsc_m_rel(k, l, m)
            &&& #[trigger] lsc_n_rel(k, l, n)
            &&& #[trigger] lsc_qa_rel(k, m, qa)
            &&& #[trigger] lsc_qb_rel(k, m, n, c, qb)
            &&& #[trigger] lsc_qc_rel(k, n, c, qc)
            &&& #[trigger] lsc_disc_rel(k, qa, qb, qc, dd)
            &&& #[trigger] k_lt(k, dd, rc(R_ZERO), neg)
            &&& if neg {
                out == Err::<ValueV, Seq<char>>("No intersection points"@)
            } else {
                lsc_pick_rel(k, m, n, qa, qb, dd, first, out)
            }
        }
}

/// The selected intersection point from the solved quadratic.
pub open spec fn lsc_pick_rel<F: Fn(NumRequest) -> NumResponse>(
    k: F,
    m: Real,
    n: Real,
    qa: Real,
    qb: Real,
    dd: Real,
    first: bool,
    out: Result<ValueV, Seq<char>>,
) -> bool {
    exists|
        sq: Real,
        den: Real,
        num1: Real,
        x1: Real,
        t1: Real,
        y1: Real,
        num2: Real,
        x2: Real,
        t2: Real,
        y2: Real,
    |
        {
            &&& #[trigger] k_sqrt(k, dd, sq)
            &&& #[trigger] k_mul(k, rc(R_TWO), qa, den)
            &&& #[trigger] k_add(k, rc(neg_bits_of(qb)), sq, num1)
            &&& #[trigger] k_div(k, num1, den, x1)
            &&& #[trigger] k_mul(k, m, x1, t1)
            &&& #[trigger] k_add(k, t1, n, y1)
            &&& #[trigger] k_sub(k, rc(neg_bits_of(qb)), sq, num2)
            &&& #[trigger] k_div(k, num2, den, x2)
            &&& #[trigger] k_mul(k, m, x2, t2)
            &&& #[trigger] k_add(k, t2, n, y2)
            &&& out == Ok::<ValueV, Seq<char>>(
                ValueV::Point(
                    if first {
                        Point { x: x1, y: y1 }
                    } else {
                        Point { x: x2, y: y2 }
                    },
                ),
            )
        }
}

/// The height of the non-vertical segment at `x`, from its slope and
/// y-intercept.
pub open spec fn seg_height_rel<F: Fn(NumRequest) -> NumResponse>(
    k: F,
    sl: Real,
    l: Lineseg,
    x: Real,
    out: Result<ValueV, Seq<char>>,
) -> bool {
    exists|yi: Real, w: Real, y: Real|
        {
            &&& #[trigger] y_intercept_rel(k, l, yi)
            &&& #[trigger] k_mul(k, sl, x, w)
            &&& #[trigger] k_add(k, w, yi, y)
            &&& out == Ok::<ValueV, Seq<char>>(ValueV::Point(Point { x, y }))
        }
}

/// Where two segments meet: rejected when the slopes compare equal
/// (parallel); a vertical segment contributes its `x` and the other segment
/// its height there; otherwise the intersection of the two lines.
pub open spec fn segs_meet_rel<F: Fn(NumRequest) -> NumResponse>(
    k: F,
    l1: Lineseg,
    l2: Lineseg,
    out: Result<ValueV, Seq<char>>,
) -> bool {
    exists|sl1: Real, sl2: Real, par: bool|
        {
            &&& #[trigger] slope_rel(k, l1, sl1)
            &&& #[trigger] slope_rel(k, l2, sl2)
            &&& #[trigger] k_float_eq(k, sl1, sl2, par)
            &&& if par {
                out == Err::<ValueV, Seq<char>>("Line segments are parallel"@)
            } else {
                exists|v1: bool|
                    #[trigger] k_float_eq(k, rc(abs_bits(sl1.bits)), rc(R_INFINITY), v1) && if v1 {
                        seg_height_rel(k, sl2, l2, l1.start.x, out)
                    } else {
                        exists|v2: bool|
                            #[trigger] k_float_eq(k, rc(abs_bits(sl2.bits)), rc(R_INFINITY), v2)
                                && if v2 {
                                seg_height_rel(k, sl1, l1, l2.start.x, out)
                            } else {
                                segs_cross_rel(k, sl1, sl2, l1, l2, out)
                            }
                    }
            }
        }
}

/// The intersection of two non-vertical, non-parallel lines:
/// `x = (yi2 - yi1) / (sl1 - sl2)` and `y = sl1 x + yi1`.
pub open spec fn segs_cross_rel<F: Fn(NumRequest) -> NumResponse>(
    k: F,
    sl1: Real,
    sl2: Real,
    l1: Lineseg,
    l2: Lineseg,
    out: Result<ValueV, Seq<char>>,
) -> bool {
    exists|yi1: Real, yi2: Real, num: Real, den: Real, x: Real, w: Real, y: Real|
        {
            &&& #[trigger] y_intercept_rel(k, l1, yi1)
            &&& #[trigger] y_intercept_rel(k, l2, yi2)
            &&& #[trigger] k_sub(k, yi2, yi1, num)
            &&& #[trigger] k_sub(k, sl1, sl2, den)
            &&& #[trigger] k_div(k, num, den, x)
            &&& #[trigger] k_mul(k, sl1, x, w)
            &&& #[trigger] k_add(k, w, yi1, y)
            &&& out == Ok::<ValueV, Seq<char>>(ValueV::Point(Point { x, y }))
        }
}

/// What the two-segment reading of intersection returns.
pub open spec fn intersect_segs_rel<F: Fn(NumRequest) -> NumResponse>(
    k: F,
    args: Seq<ValueV>,
    out: Result<ValueV, Seq<char>>,
) -> bool {
    if args.len() != 2 {
        out == Err::<ValueV, Seq<char>>("Intersect requires exactly 2 arguments"@)
    } else if !(args[0] is Lineseg) {
        out == Err::<ValueV, Seq<char>>("Invalid types for line segment"@)
    } else if !(args[1] is Lineseg) {
        out == Err::<ValueV, Seq<char>>("Invalid types for line segment"@)
    } else {
        segs_meet_rel(k, args[0]->Lineseg_0, args[1]->Lineseg_0, out)
    }
}

/// What the segment-and-circle reading of intersection returns.
pub open spec fn intersect_circle_rel<F: Fn(NumRequest) -> NumResponse>(
    k: F,
    args: Seq<ValueV>,
    out: Result<ValueV, Seq<char>>,
) -> bool {
    if args.len() != 3 {
        out == Err::<ValueV, Seq<char>>("Intersect requires exactly 3 arguments"@)
    } else if !(args[0] is Lineseg) {
        out == Err::<ValueV, Seq<char>>("Invalid types for line segment"@)
    } else if !(args[1] is Circle) {
        out == Err::<ValueV, Seq<char>>("Invalid types for circle"@)
    } else if !(args[2] is Int) {
        out == Err::<ValueV, Seq<char>>("Invalid types for index"@)
    } else if args[2]->Int_0 != 0 && args[2]->Int_0 != 1 {
        out == Err::<ValueV, Seq<char>>("Index must be either 0 or 1"@)
    } else {
        lsc_roots_rel(k, args[0]->Lineseg_0, args[1]->Circle_0, args[2]->Int_0 == 0, out)
    }
}

/// What the intersection operation returns: the two-segment reading if it
/// fits, otherwise the segment-and-circle reading with its own failure.
pub open spec fn intersect_op_rel<F: Fn(NumRequest) -> NumResponse>(
    k: F,
    args: Seq<ValueV>,
    out: Result<ValueV, Seq<char>>,
) -> bool {
    exists|r1: Result<ValueV, Seq<char>>|
        #[trigger] intersect_segs_rel(k, args, r1) && match r1 {
            Ok(v) => out == Ok::<ValueV, Seq<char>>(v),
            Err(_) => intersect_circle_rel(k, args, out),
        }
}

/// The intersection of two line segments, or of a line segment and a circle
/// under a root index.
#[derive(Clone)]
pub struct FnIntersect;

impl FnIntersect {
    /// Case 1: two line segments.
    pub fn from_linesegs<F: Fn(NumRequest) -> NumResponse>(&self, kernel: &F, args: &[Value]) -> (out:
        Result<Value, String>)
        requires
            kernel_ok(*kernel),
        ensures
            intersect_segs_rel(*kernel, vals_view(args@), res_view(out)),
    {
        if args.len() != 2 {
            return Err("Intersect requires exactly 2 arguments".to_owned());
        }
        let l1 = match &args[0] {
            Value::Lineseg(l) => *l,
            _ => { return Err("Invalid types for line segment".to_owned()) },
        };
        let l2 = match &args[1] {
            Value::Lineseg(l) => *l,
            _ => { return Err("Invalid types for line segment".to_owned()) },
        };

        let sl1 = l1.slope(kernel);
        let sl2 = l2.slope(kernel);
        let par = rfloat_eq(kernel, sl1, sl2);
        if par {
            let res: Result<Value, String> = Err("Line segments are parallel".to_owned());
            proof {
                assert(segs_meet_rel(*kernel, l1, l2, res_view(res)));
            }
            return res;
        }

        let v1 = rfloat_eq(kernel, sl1.abs(), Real::new(R_INFINITY));
        if v1 {
            let x = l1.start.x;
            let yi = l2.y_intercept(kernel);
            let w = rmul(kernel, sl2, x);
            let y = radd(kernel, w, yi);
            let res: Result<Value, String> = Ok(Value::Point(Point { x, y }));
            proof {
                assert(seg_height_rel(*kernel, sl2, l2, l1.start.x, res_view(res)));
                assert(segs_meet_rel(*kernel, l1, l2, res_view(res)));
            }
            return res;
        }
        let v2 = rfloat_eq(kernel, sl2.abs(), Real::new(R_INFINITY));
        if v2 {
            let x = l2.start.x;
            let yi = l1.y_intercept(kernel);
            let w = rmul(kernel, sl1, x);
            let y = radd(kernel, w, yi);
            let res: Result<Value, String> = Ok(Value::Point(Point { x, y }));
            proof {
                assert(seg_height_rel(*kernel, sl1, l1, l2.start.x, res_view(res)));
                assert(segs_meet_rel(*kernel, l1, l2, res_view(res)));
            }
            return res;
        }

        let yi1 = l1.y_intercept(kernel);
        let yi2 = l2.y_intercept(kernel);
        let num = rsub(kernel, yi2, yi1);
        let den = rsub(kernel, sl1, sl2);
        let x = rdiv(kernel, num, den);
        let w = rmul(kernel, sl1, x);
        let y = radd(kernel, w, yi1);
        let res: Result<Value, String> = Ok(Value::Point(Point { x, y }));
        proof {
            assert(segs_cross_rel(*kernel, sl1, sl2, l1, l2, res_view(res)));
            assert(segs_meet_rel(*kernel, l1, l2, res_view(res)));
        }
        res
    }

    /// Case 2: one line segment and one circle, with a root index.
    pub fn from_lineseg_circle<F: Fn(NumRequest) -> NumResponse>(
        &self,
        kernel: &F,
        args: &[Value],
    ) -> (out: Result<Value, String>)
        requires
            kernel_ok(*kernel),
        ensures
            intersect_circle_rel(*kernel, vals_view(args@), res_view(out)),
    {
        if args.len() != 3 {
            return Err("Intersect requires exactly 3 arguments".to_owned());
        }
        let l = match &args[0] {
            Value::Lineseg(v) => *v,
            _ => { return Err("Invalid types for line segment".to_owned()) },
        };
        let c = match &args[1] {
            Value::Circle(v) => *v,
            _ => { return Err("Invalid types for circle".to_owned()) },
        };
        let index = match &args[2] {
            Value::Int(i) => *i,
            _ => { return Err("Invalid types for index".to_owned()) },
        };
        if index != 0 && index != 1 {
            return Err("Index must be either 0 or 1".to_owned());
        }

        let t1 = rsub(kernel, l.end.y, l.start.y);
        let t2 = rsub(kernel, l.start.x, l.end.x);
        let m = rdiv(kernel, t1, t2);
        let u1 = rmul(kernel, l.start.y, l.end.y);
        let u2 = rmul(kernel, l.end.y, l.start.y);
        let u3 = rsub(kernel, u1, u2);
        let u4 = rsub(kernel, l.end.x, l.start.x);
        let n = rdiv(kernel, u3, u4);
        let v1 = rmul(kernel, m, m);
        let qa = radd(kernel, Real::new(R_ONE), v1);
        let w1 = rmul(kernel, m, n);
        let w2 = rmul(kernel, m, c.center.y);
        let w3 = rsub(kernel, w1, w2);
        let w4 = rsub(kernel, w3, c.center.x);
        let qb = rmul(kernel, Real::new(R_TWO), w4);
        let x1c = rmul(kernel, c.center.x, c.center.x);
        let x2c = rmul(kernel, c.center.y, c.center.y);
        let x3c = rmul(kernel, n, n);
        let x4c = radd(kernel, x1c, x2c);
        let x5c = radd(kernel, x4c, x3c);
        let x6c = rmul(kernel, Real::new(R_TWO), n);
        let x7c = rmul(kernel, x6c, c.center.y);
        let x8c = rsub(kernel, x5c, x7c);
        let x9c = rmul(kernel, c.radius, c.radius);
        let qc = rsub(kernel, x8c, x9c);
        let bb = rmul(kernel, qb, qb);
        let f1 = rmul(kernel, Real::new(R_FOUR), qa);
        let f2 = rmul(kernel, f1, qc);
        let dd = rsub(kernel, bb, f2);
        proof {
            assert(lsc_m_rel(*kernel, l, m));
            assert(lsc_n_rel(*kernel, l, n));
            assert(lsc_qa_rel(*kernel, m, qa));
            assert(lsc_qb_rel(*kernel, m, n, c, qb));
            assert(lsc_qc_rel(*kernel, n, c, qc));
            assert(lsc_disc_rel(*kernel, qa, qb, qc, dd));
        }
        let neg = rlt(kernel, dd, Real::new(R_ZERO));
        if neg {
            let res: Result<Value, String> = Err("No intersection points".to_owned());
            proof {
                assert(lsc_roots_rel(*kernel, l, c, index == 0, res_view(res)));
            }
            return res;
        }
        let sq = rsqrt(kernel, dd);
        let den = rmul(kernel, Real::new(R_TWO), qa);
        let num1 = radd(kernel, qb.neg(), sq);
        let x1 = rdiv(kernel, num1, den);
        let p1 = rmul(kernel, m, x1);
        let y1 = radd(kernel, p1, n);
        let num2 = rsub(kernel, qb.neg(), sq);
        let x2 = rdiv(kernel, num2, den);
        let p2 = rmul(kernel, m, x2);
        let y2 = radd(kernel, p2, n);
        let res: Result<Value, String> = if index == 0 {
            Ok(Value::Point(Point { x: x1, y: y1 }))
        } else {
            Ok(Value::Point(Point { x: x2, y: y2 }))
        };
        proof {
            assert(k_add(*kernel, rc(neg_bits_of(qb)), sq, num1));
            assert(k_sub(*kernel, rc(neg_bits_of(qb)), sq, num2));
            assert(lsc_pick_rel(*kernel, m, n, qa, qb, dd, index == 0, res_view(res)));
            assert(lsc_roots_rel(*kernel, l, c, index == 0, res_view(res)));
        }
        res
    }

    /// The two-segment reading if it fits, then the segment-and-circle one.
    pub fn call<F: Fn(NumRequest) -> NumResponse>(&self, kernel: &F, args: &[Value]) -> (out:
        Result<Value, String>)
        requires
            kernel_ok(*kernel),
        ensures
            intersect_op_rel(*kernel, vals_view(args@), res_view(out)),
    {
        let r1 = self.from_linesegs(kernel, args);
        match r1 {
            Ok(v) => Ok(v),
            Err(_) => self.from_lineseg_circle(kernel, args),
        }
    }
}

/// A circle construction outcome lifted into a value outcome.
pub open spec fn circle_value_rel<F: Fn(NumRequest) -> NumResponse>(
    k: F,
    center: Point,
    radius: Real,
    out: Result<ValueV, Seq<char>>,
) -> bool {
    exists|co: Result<Circle, Seq<char>>|
        #[trigger] circle_new_rel(k, center, radius, co) && match co {
            Ok(c) => out == Ok::<ValueV, Seq<char>>(ValueV::Circle(c)),
            Err(e) => out == Err::<ValueV, Seq<char>>(e),
        }
}

/// What the point-and-radius reading of the circle operation returns.
pub open spec fn circle_point_radius_rel<F: Fn(NumRequest) -> NumResponse>(
    k: F,
    args: Seq<ValueV>,
    out: Result<ValueV, Seq<char>>,
) -> bool {
    if args.len() != 2 {
        out == Err::<ValueV, Seq<char>>("Circle requires exactly 2 arguments"@)
    } else if !(args[0] is Point) {
        out == Err::<ValueV, Seq<char>>("Invalid types for point"@)
    } else if !(args[1] is Int || args[1] is Float) {
        out == Err::<ValueV, Seq<char>>("Invalid types for radius"@)
    } else {
        exists|rad: Real|
            #[trigger] num_arg_rel(k, args[1], rad) && circle_value_rel(
                k,
                args[0]->Point_0,
                rad,
                out,
            )
    }
}

/// What the argument-free reading of the circle operation returns: the
/// canonical circle at the origin with radius five.
pub open spec fn circle_default_rel<F: Fn(NumRequest) -> NumResponse>(
    k: F,
    args: Seq<ValueV>,
    out: Result<ValueV, Seq<char>>,
) -> bool {
    if args.len() != 0 {
        out == Err::<ValueV, Seq<char>>("Circle requires no elements"@)
    } else {
        circle_value_rel(k, Point { x: rc(R_ZERO), y: rc(R_ZERO) }, rc(R_FIVE), out)
    }
}

/// What the circle operation returns: the canonical reading if it fits,
/// otherwise the point-and-radius reading with its own failure.
pub open spec fn circle_op_rel<F: Fn(NumRequest) -> NumResponse>(
    k: F,
    args: Seq<ValueV>,
    out: Result<ValueV, Seq<char>>,
) -> bool {
    exists|r1: Result<ValueV, Seq<char>>|
        #[trigger] circle_default_rel(k, args, r1) && match r1 {
            Ok(v) => out == Ok::<ValueV, Seq<char>>(v),
            Err(_) => circle_point_radius_rel(k, args, out),
        }
}

/// A circle: the canonical one, or one from a point and a radius.
#[derive(Clone)]
pub struct FnCircle;

impl FnCircle {
    /// Case 1: create a circle from a point and a radius.
    pub fn from_point_radius<F: Fn(NumRequest) -> NumResponse>(
        &self,
        kernel: &F,
        args: &[Value],
    ) -> (out: Result<Value, String>)
        requires
            kernel_ok(*kernel),
        ensures
            circle_point_radius_rel(*kernel, vals_view(args@), res_view(out)),
    {
        if args.len() != 2 {
            return Err("Circle requires exactly 2 arguments".to_owned());
        }
        let center = match &args[0] {
            Value::Point(p) => *p,
            _ => { return Err("Invalid types for point".to_owned()) },
        };
        let radius = match &args[1] {
            Value::Int(r) => rof_int(kernel, *r),
            Value::Float(r) => *r,
            _ => { return Err("Invalid types for radius".to_owned()) },
        };
        let res: Result<Value, String> = match Circle::new(center, radius, kernel) {
            Ok(c) => Ok(Value::Circle(c)),
            Err(e) => Err(e),
        };
        proof {
            assert(num_arg_rel(*kernel, vals_view(args@)[1], radius));
            assert(circle_value_rel(*kernel, center, radius, res_view(res)));
            assert(exists|rad: Real|
                #[trigger] num_arg_rel(*kernel, vals_view(args@)[1], rad) && circle_value_rel(
                    *kernel,
                    vals_view(args@)[0]->Point_0,
                    rad,
                    res_view(res),
                ));
        }
        res
    }

    /// Case 2 (reached first): the canonical circle when no arguments are
    /// given.
    pub fn new<F: Fn(NumRequest) -> NumResponse>(&self, kernel: &F, args: &[Value]) -> (out:
        Result<Value, String>)
        requires
            kernel_ok(*kernel),
        ensures
            circle_default_rel(*kernel, vals_view(args@), res_view(out)),
    {
        if args.len() != 0 {
            return Err("Circle requires no elements".to_owned());
        }
        let center = Point { x: Real::new(R_ZERO), y: Real::new(R_ZERO) };
        let res: Result<Value, String> = match Circle::new(center, Real::new(R_FIVE), kernel) {
            Ok(c) => Ok(Value::Circle(c)),
            Err(e) => Err(e),
        };
        proof {
            assert(circle_value_rel(
                *kernel,
                Point { x: rc(R_ZERO), y: rc(R_ZERO) },
                rc(R_FIVE),
                res_view(res),
            ));
        }
        res
    }

    /// The canonical reading if it fits, then the point-and-radius one.
    pub fn call<F: Fn(NumRequest) -> NumResponse>(&self, kernel: &F, args: &[Value]) -> (out:
        Result<Value, String>)
        requires
            kernel_ok(*kernel),
        ensures
            circle_op_rel(*kernel, vals_view(args@), res_view(out)),
    {
        let r1 = self.new(kernel, args);
        match r1 {
            Ok(v) => Ok(v),
            Err(_) => self.from_point_radius(kernel, args),
        }
    }
}

/// A triangle construction outcome lifted into a value outcome.
pub open spec fn triangle_value_rel<F: Fn(NumRequest) -> NumResponse>(
    k: F,
    a: Point,
    b: Point,
    c: Point,
    out: Result<ValueV, Seq<char>>,
) -> bool {
    exists|to: Result<Triangle, Seq<char>>|
        #[trigger] triangle_new_rel(k, a, b, c, to) && match to {
            Ok(t) => out == Ok::<ValueV, Seq<char>>(ValueV::Triangle(t)),
            Err(e) => out == Err::<ValueV, Seq<char>>(e),
        }
}

/// What the three-point reading of the triangle operation returns.
pub open spec fn triangle_points_rel<F: Fn(NumRequest) -> NumResponse>(
    k: F,
    args: Seq<ValueV>,
    out: Result<ValueV, Seq<char>>,
) -> bool {
    if args.len() != 3 {
        out == Err::<ValueV, Seq<char>>("Triangle requires exactly 3 arguments"@)
    } else if !(args[0] is Point) || !(args[1] is Point) || !(args[2] is Point) {
        out == Err::<ValueV, Seq<char>>("Invalid types for point"@)
    } else {
        triangle_value_rel(k, args[0]->Point_0, args[1]->Point_0, args[2]->Point_0, out)
    }
}

/// What the one-angle reading of the triangle operation returns.
pub open spec fn triangle_angle_rel<F: Fn(NumRequest) -> NumResponse>(
    k: F,
    args: Seq<ValueV>,
    out: Result<ValueV, Seq<char>>,
) -> bool {
    if args.len() != 1 {
        out == Err::<ValueV, Seq<char>>("Triangle requires exactly 1 argument"@)
    } else if !(args[0] is Angle) {
        out == Err::<ValueV, Seq<char>>("Invalid types for angle"@)
    } else {
        triangle_value_rel(
            k,
            args[0]->Angle_0.start,
            args[0]->Angle_0.center,
            args[0]->Angle_0.end,
            out,
        )
    }
}

/// Three points drawn on the circle, each pair at least half the radius
/// apart by the final comparisons.
pub open spec fn spread_rel<F: Fn(NumRequest) -> NumResponse>(
    k: F,
    c: Circle,
    p1: Point,
    p2: Point,
    p3: Point,
) -> bool {
    exists|half: Real, d12: Real, d23: Real, d31: Real|
        {
            &&& #[trigger] k_div(k, c.radius, rc(R_TWO), half)
            &&& circle_point_rel(k, c, p1)
            &&& circle_point_rel(k, c, p2)
            &&& circle_point_rel(k, c, p3)
            &&& #[trigger] distance_rel(k, p1, p2, d12)
            &&& k_lt(k, d12, half, false)
            &&& #[trigger] distance_rel(k, p2, p3, d23)
            &&& k_lt(k, d23, half, false)
            &&& #[trigger] distance_rel(k, p3, p1, d31)
            &&& k_lt(k, d31, half, false)
        }
}

/// What the one-circle reading of the triangle operation returns: either
/// the sampling gave up, or three spread draws taken as a triangle.
pub open spec fn triangle_circle_rel<F: Fn(NumRequest) -> NumResponse>(
    k: F,
    args: Seq<ValueV>,
    out: Result<ValueV, Seq<char>>,
) -> bool {
    if args.len() != 1 {
        out == Err::<ValueV, Seq<char>>("Triangle requires exactly 1 argument"@)
    } else if !(args[0] is Circle) {
        out == Err::<ValueV, Seq<char>>("Invalid types for circle"@)
    } else {
        out == Err::<ValueV, Seq<char>>("Could not satisfy the sampling constraint"@) || exists|
            p1: Point,
            p2: Point,
            p3: Point,
        |
            #[trigger] spread_rel(k, args[0]->Circle_0, p1, p2, p3) && triangle_value_rel(
                k,
                p1,
                p2,
                p3,
                out,
            )
    }
}

/// What the triangle operation returns: the three-point reading, then the
/// one-circle reading, then the one-angle reading, with any failure of the
/// last reported under one message.
pub open spec fn triangle_op_rel<F: Fn(NumRequest) -> NumResponse>(
    k: F,
    args: Seq<ValueV>,
    out: Result<ValueV, Seq<char>>,
) -> bool {
    exists|r1: Result<ValueV, Seq<char>>|
        #[trigger] triangle_points_rel(k, args, r1) && match r1 {
            Ok(v) => out == Ok::<ValueV, Seq<char>>(v),
            Err(_) => exists|r2: Result<ValueV, Seq<char>>|
                #[trigger] triangle_circle_rel(k, args, r2) && match r2 {
                    Ok(v) => out == Ok::<ValueV, Seq<char>>(v),
                    Err(_) => exists|r3: Result<ValueV, Seq<char>>|
                        #[trigger] triangle_angle_rel(k, args, r3) && match r3 {
                            Ok(v) => out == Ok::<ValueV, Seq<char>>(v),
                            Err(_) => out == Err::<ValueV, Seq<char>>(
                                "Invalid arguments for triangle"@,
                            ),
                        },
                },
        }
}

/// Draws three points on the circle, redrawing while any pair lies closer
/// than half the radius, up to the retry bound.
fn sample_spread<F: Fn(NumRequest) -> NumResponse>(kernel: &F, c: Circle) -> (out: Result<
    (Point, Point, Point),
    String,
>)
    requires
        kernel_ok(*kernel),
    ensures
        match out {
            Ok(ps) => spread_rel(*kernel, c, ps.0, ps.1, ps.2),
            Err(e) => e@ == "Could not satisfy the sampling constraint"@,
        },
{
    let mut first = c.get_point(kernel);
    let mut second = c.get_point(kernel);
    let mut third = c.get_point(kernel);
    let mut tries: u64 = 0;
    loop
        invariant
            kernel_ok(*kernel),
            circle_point_rel(*kernel, c, first),
            circle_point_rel(*kernel, c, second),
            circle_point_rel(*kernel, c, third),
            tries <= SAMPLE_CAP,
        decreases SAMPLE_CAP - tries,
    {
        let half = rdiv(kernel, c.radius, Real::new(R_TWO));
        let d12 = distance(kernel, first, second);
        let c1 = rlt(kernel, d12, half);
        if !c1 {
            let d23 = distance(kernel, second, third);
            let c2 = rlt(kernel, d23, half);
            if !c2 {
                let d31 = distance(kernel, third, first);
                let c3 = rlt(kernel, d31, half);
                if !c3 {
                    proof {
                        assert(spread_rel(*kernel, c, first, second, third));
                    }
                    return Ok((first, second, third));
                }
            }
        }
        if tries == SAMPLE_CAP {
            return Err("Could not satisfy the sampling constraint".to_owned());
        }
        tries = tries + 1;
        first = c.get_point(kernel);
        second = c.get_point(kernel);
        third = c.get_point(kernel);
    }
}

/// A triangle from points, from a circle, or from an angle.
#[derive(Clone)]
pub struct FnTriangle;

impl FnTriangle {
    /// Case 1: create a triangle from three points.
    pub fn from_points<F: Fn(NumRequest) -> NumResponse>(&self, kernel: &F, args: &[Value]) -> (out:
        Result<Value, String>)
        requires
            kernel_ok(*kernel),
        ensures
            triangle_points_rel(*kernel, vals_view(args@), res_view(out)),
    {
        if args.len() != 3 {
            return Err("Triangle requires exactly 3 arguments".to_owned());
        }
        let pa = match &args[0] {
            Value::Point(p) => *p,
            _ => { return Err("Invalid types for point".to_owned()) },
        };
        let pb = match &args[1] {
            Value::Point(p) => *p,
            _ => { return Err("Invalid types for point".to_owned()) },
        };
        let pc = match &args[2] {
            Value::Point(p) => *p,
            _ => { return Err("Invalid types for point".to_owned()) },
        };
        let res: Result<Value, String> = match Triangle::new(pa, pb, pc, kernel) {
            Ok(t) => Ok(Value::Triangle(t)),
            Err(e) => Err(e),
        };
        proof {
            assert(triangle_value_rel(*kernel, pa, pb, pc, res_view(res)));
        }
        res
    }

    /// Case 2: create a triangle from the three points of an angle.
    pub fn from_angle<F: Fn(NumRequest) -> NumResponse>(&self, kernel: &F, args: &[Value]) -> (out:
        Result<Value, String>)
        requires
            kernel_ok(*kernel),
        ensures
            triangle_angle_rel(*kernel, vals_view(args@), res_view(out)),
    {
        if args.len() != 1 {
            return Err("Triangle requires exactly 1 argument".to_owned());
        }
        let ang = match &args[0] {
            Value::Angle(a) => *a,
            _ => { return Err("Invalid types for angle".to_owned()) },
        };
        let res: Result<Value, String> = match Triangle::new(ang.start, ang.center, ang.end, kernel)
        {
            Ok(t) => Ok(Value::Triangle(t)),
            Err(e) => Err(e),
        };
        proof {
            assert(triangle_value_rel(*kernel, ang.start, ang.center, ang.end, res_view(res)));
        }
        res
    }

    /// Case 3 (tried before the angle reading): a triangle from three
    /// spread random points on a circle.
    pub fn from_circle<F: Fn(NumRequest) -> NumResponse>(&self, kernel: &F, args: &[Value]) -> (out:
        Result<Value, String>)
        requires
            kernel_ok(*kernel),
        ensures
            triangle_circle_rel(*kernel, vals_view(args@), res_view(out)),
    {
        if args.len() != 1 {
            return Err("Triangle requires exactly 1 argument".to_owned());
        }
        let c = match &args[0] {
            Value::Circle(v) => *v,
            _ => { return Err("Invalid types for circle".to_owned()) },
        };
        let ps = match sample_spread(kernel, c) {
            Ok(ps) => ps,
            Err(e) => { return Err(e) },
        };
        let res: Result<Value, String> = match Triangle::new(ps.0, ps.1, ps.2, kernel) {
            Ok(t) => Ok(Value::Triangle(t)),
            Err(e) => Err(e),
        };
        proof {
            assert(triangle_value_rel(*kernel, ps.0, ps.1, ps.2, res_view(res)));
            assert(vals_view(args@)[0]->Circle_0 == c);
            assert(spread_rel(*kernel, vals_view(args@)[0]->Circle_0, ps.0, ps.1, ps.2));
            assert(exists|p1: Point, p2: Point, p3: Point|
                #[trigger] spread_rel(*kernel, vals_view(args@)[0]->Circle_0, p1, p2, p3)
                    && triangle_value_rel(*kernel, p1, p2, p3, res_view(res)));
        }
        res
    }

    /// The three-point reading, then the one-circle reading, then the
    /// one-angle reading.
    pub fn call<F: Fn(NumRequest) -> NumResponse>(&self, kernel: &F, args: &[Value]) -> (out:
        Result<Value, String>)
        requires
            kernel_ok(*kernel),
        ensures
            triangle_op_rel(*kernel, vals_view(args@), res_view(out)),
    {
        let r1 = self.from_points(kernel, args);
        match r1 {
            Ok(v) => Ok(v),
            Err(_) => {
                let r2 = self.from_circle(kernel, args);
                match r2 {
                    Ok(v) => Ok(v),
                    Err(_) => {
                        let r3 = self.from_angle(kernel, args);
                        match r3 {
                            Ok(v) => Ok(v),
                            Err(_) => Err("Invalid arguments for triangle".to_owned()),
                        }
                    },
                }
            },
        }
    }
}

/// The maximum chord length for the inscribed-angle draw:
/// `sin(to_radians(180 - deg)) * radius * 2`.
pub open spec fn iangle_maxd_rel<F: Fn(NumRequest) -> NumResponse>(
    k: F,
    c: Circle,
    deg: Real,
    maxd: Real,
) -> bool {
    exists|t: Real, rad: Real, s: Real, m1: Real|
        {
            &&& #[trigger] k_sub(k, rc(R_ONE_EIGHTY), deg, t)
            &&& #[trigger] k_to_radians(k, t, rad)
            &&& #[trigger] k_sin(k, rad, s)
            &&& #[trigger] k_mul(k, s, c.radius, m1)
            &&& k_mul(k, m1, rc(R_TWO), maxd)
        }
}

/// The final test of the second draw loop: the pair's distance does not
/// compare below the radius, or the maximum chord length does not compare
/// above the radius.
pub open spec fn pair_exit_rel<F: Fn(NumRequest) -> NumResponse>(
    k: F,
    c: Circle,
    maxd: Real,
    start: Point,
    center: Point,
) -> bool {
    exists|d: Real, near: bool|
        {
            &&& #[trigger] distance_rel(k, start, center, d)
            &&& #[trigger] k_lt(k, d, c.radius, near)
            &&& (near ==> k_lt(k, c.radius, maxd, false))
        }
}

/// The arc-endpoint outcome lifted into an angle outcome.
pub open spec fn iangle_arc_rel<F: Fn(NumRequest) -> NumResponse>(
    k: F,
    c: Circle,
    start: Point,
    center: Point,
    deg: Real,
    out: Result<ValueV, Seq<char>>,
) -> bool {
    exists|ao: Result<Point, Seq<char>>|
        #[trigger] arc_point_rel(k, c, start, center, deg, ao) && match ao {
            Ok(end) => out == Ok::<ValueV, Seq<char>>(ValueV::Angle(Angle { start, center, end })),
            Err(m) => out == Err::<ValueV, Seq<char>>(m),
        }
}

/// The sampled reading of the inscribed angle on a circle: either the
/// sampling gave up, or a drawn pair passing the final distance test,
/// completed by the arc endpoint on the larger arc.
pub open spec fn iangle_sample_rel<F: Fn(NumRequest) -> NumResponse>(
    k: F,
    c: Circle,
    deg: Real,
    out: Result<ValueV, Seq<char>>,
) -> bool {
    out == Err::<ValueV, Seq<char>>("Could not satisfy the sampling constraint"@) || exists|
        maxd: Real,
        start: Point,
        center: Point,
    |
        {
            &&& #[trigger] iangle_maxd_rel(k, c, deg, maxd)
            &&& circle_point_rel(k, c, start)
            &&& circle_point_rel(k, c, center)
            &&& #[trigger] pair_exit_rel(k, c, maxd, start, center)
            &&& iangle_arc_rel(k, c, start, center, deg, out)
        }
}

/// What the inscribed-angle operation returns: a circle and a degree value
/// not above 180, then the sampled angle.
pub open spec fn iangle_op_rel<F: Fn(NumRequest) -> NumResponse>(
    k: F,
    args: Seq<ValueV>,
    out: Result<ValueV, Seq<char>>,
) -> bool {
    if args.len() < 2 {
        out == Err::<ValueV, Seq<char>>("Inscribed angle requires exactly 2 arguments"@)
    } else if !(args[0] is Circle) {
        out == Err::<ValueV, Seq<char>>("Invalid types for circle"@)
    } else if !(args[1] is Int || args[1] is Float) {
        out == Err::<ValueV, Seq<char>>("Invalid types for degree"@)
    } else {
        exists|deg: Real, above: bool|
            {
                &&& #[trigger] num_arg_rel(k, args[1], deg)
                &&& #[trigger] k_lt(k, rc(R_ONE_EIGHTY), deg, above)
                &&& if above {
                    out == Err::<ValueV, Seq<char>>("Degree exceeds 180 degrees"@)
                } else {
                    iangle_sample_rel(k, args[0]->Circle_0, deg, out)
                }
            }
    }
}

/// An inscribed angle sampled on a circle.
#[derive(Clone)]
pub struct FnInscribedAngle;

impl FnInscribedAngle {
    /// Case 1: create an inscribed angle given a circle and a degree value.
    #[verifier::loop_isolation(false)]
    pub fn from_circle_degrees<F: Fn(NumRequest) -> NumResponse>(
        &self,
        kernel: &F,
        args: &[Value],
    ) -> (out: Result<Value, String>)
        requires
            kernel_ok(*kernel),
        ensures
            iangle_op_rel(*kernel, vals_view(args@), res_view(out)),
    {
        if args.len() < 2 {
            return Err("Inscribed angle requires exactly 2 arguments".to_owned());
        }
        let c = match &args[0] {
            Value::Circle(v) => *v,
            _ => { return Err("Invalid types for circle".to_owned()) },
        };
        let deg = match &args[1] {
            Value::Int(i) => rof_int(kernel, *i),
            Value::Float(f) => *f,
            _ => { return Err("Invalid types for degree".to_owned()) },
        };
        proof {
            assert(num_arg_rel(*kernel, vals_view(args@)[1], deg));
        }

        let above = rlt(kernel, Real::new(R_ONE_EIGHTY), deg);
        if above {
            let res: Result<Value, String> = Err("Degree exceeds 180 degrees".to_owned());
            proof {
                assert(exists|d2: Real, a2: bool|
                    {
                        &&& #[trigger] num_arg_rel(*kernel, vals_view(args@)[1], d2)
                        &&& #[trigger] k_lt(*kernel, rc(R_ONE_EIGHTY), d2, a2)
                        &&& if a2 {
                            res_view(res) == Err::<ValueV, Seq<char>>(
                                "Degree exceeds 180 degrees"@,
                            )
                        } else {
                            iangle_sample_rel(*kernel, vals_view(args@)[0]->Circle_0, d2, res_view(res))
                        }
                    });
            }
            return res;
        }

        let mut start = c.get_point(kernel);
        let mut center = c.get_point(kernel);

        // limit the maximum distance between the two points when the angle
        // lies beyond a right angle
        let t = rsub(kernel, Real::new(R_ONE_EIGHTY), deg);
        let rad = rto_radians(kernel, t);
        let si = rsin(kernel, rad);
        let m1 = rmul(kernel, si, c.radius);
        let maxd = rmul(kernel, m1, Real::new(R_TWO));
        proof {
            assert(iangle_maxd_rel(*kernel, c, deg, maxd));
        }

        let mut tries: u64 = 0;
        loop
            invariant
                kernel_ok(*kernel),
                circle_point_rel(*kernel, c, start),
                circle_point_rel(*kernel, c, center),
                tries <= SAMPLE_CAP,
            decreases SAMPLE_CAP - tries,
        {
            let d = distance(kernel, start, center);
            let far = rlt(kernel, maxd, d);
            if far {
                let steep = rlt(kernel, Real::new(crate::numeric::R_NINETY), deg);
                if steep {
                    if tries == SAMPLE_CAP {
                        let res: Result<Value, String> = Err(
                            "Could not satisfy the sampling constraint".to_owned(),
                        );
                        proof {
                            lemma_iangle_gave_up(
                                *kernel,
                                vals_view(args@)[0]->Circle_0,
                                deg,
                                res_view(res),
                            );
                            assert(exists|d2: Real, a2: bool|
                                {
                                    &&& #[trigger] num_arg_rel(*kernel, vals_view(args@)[1], d2)
                                    &&& #[trigger] k_lt(*kernel, rc(R_ONE_EIGHTY), d2, a2)
                                    &&& if a2 {
                                        res_view(res) == Err::<ValueV, Seq<char>>(
                                            "Degree exceeds 180 degrees"@,
                                        )
                                    } else {
                                        iangle_sample_rel(
                                            *kernel,
                                            vals_view(args@)[0]->Circle_0,
                                            d2,
                                            res_view(res),
                                        )
                                    }
                                });
                        }
                        return res;
                    }
                    tries = tries + 1;
                    start = c.get_point(kernel);
                    center = c.get_point(kernel);
                    continue;
                }
            }
            break;
        }

        // when the maximum distance still admits short chords, keep the pair
        // at least a radius apart
        let mut tries2: u64 = 0;
        loop
            invariant
                kernel_ok(*kernel),
                circle_point_rel(*kernel, c, start),
                circle_point_rel(*kernel, c, center),
                tries2 <= SAMPLE_CAP,
            decreases SAMPLE_CAP - tries2,
        {
            let d = distance(kernel, start, center);
            let near = rlt(kernel, d, c.radius);
            if near {
                let roomy = rlt(kernel, c.radius, maxd);
                if roomy {
                    if tries2 == SAMPLE_CAP {
                        let res: Result<Value, String> = Err(
                            "Could not satisfy the sampling constraint".to_owned(),
                        );
                        proof {
                            lemma_iangle_gave_up(
                                *kernel,
                                vals_view(args@)[0]->Circle_0,
                                deg,
                                res_view(res),
                            );
                            assert(exists|d2: Real, a2: bool|
                                {
                                    &&& #[trigger] num_arg_rel(*kernel, vals_view(args@)[1], d2)
                                    &&& #[trigger] k_lt(*kernel, rc(R_ONE_EIGHTY), d2, a2)
                                    &&& if a2 {
                                        res_view(res) == Err::<ValueV, Seq<char>>(
                                            "Degree exceeds 180 degrees"@,
                                        )
                                    } else {
                                        iangle_sample_rel(
                                            *kernel,
                                            vals_view(args@)[0]->Circle_0,
                                            d2,
                                            res_view(res),
                                        )
                                    }
                                });
                        }
                        return res;
                    }
                    tries2 = tries2 + 1;
                    start = c.get_point(kernel);
                    center = c.get_point(kernel);
                    continue;
                }
            }
            proof {
                assert(pair_exit_rel(*kernel, c, maxd, start, center));
            }
            break;
        }

        let res: Result<Value, String> = match c.get_point_on_arc(kernel, start, center, deg) {
            Ok(end) => Ok(Value::Angle(Angle { start, center, end })),
            Err(e) => Err(e),
        };
        proof {
            assert(iangle_arc_rel(*kernel, c, start, center, deg, res_view(res)));
            assert(iangle_sample_rel(*kernel, c, deg, res_view(res))) by {
                assert(iangle_maxd_rel(*kernel, c, deg, maxd));
                assert(circle_point_rel(*kernel, c, start));
                assert(circle_point_rel(*kernel, c, center));
                assert(pair_exit_rel(*kernel, c, maxd, start, center));
                assert(iangle_arc_rel(*kernel, c, start, center, deg, res_view(res)));
            }
            assert(vals_view(args@)[0]->Circle_0 == c);
            assert(iangle_sample_rel(
                *kernel,
                vals_view(args@)[0]->Circle_0,
                deg,
                res_view(res),
            ));
            assert(exists|d2: Real, a2: bool|
                {
                    &&& #[trigger] num_arg_rel(*kernel, vals_view(args@)[1], d2)
                    &&& #[trigger] k_lt(*kernel, rc(R_ONE_EIGHTY), d2, a2)
                    &&& if a2 {
                        res_view(res) == Err::<ValueV, Seq<char>>("Degree exceeds 180 degrees"@)
                    } else {
                        iangle_sample_rel(
                            *kernel,
                            vals_view(args@)[0]->Circle_0,
                            d2,
                            res_view(res),
                        )
                    }
                });
        }
        res
    }

    /// The sampled reading, with its failure passed through.
    pub fn call<F: Fn(NumRequest) -> NumResponse>(&self, kernel: &F, args: &[Value]) -> (out:
        Result<Value, String>)
        requires
            kernel_ok(*kernel),
        ensures
            iangle_op_rel(*kernel, vals_view(args@), res_view(out)),
    {
        match self.from_circle_degrees(kernel, args) {
            Ok(angle) => Ok(angle),
            Err(e) => Err(e),
        }
    }
}

/// Giving up the inscribed-angle draw meets the sampled reading.
proof fn lemma_iangle_gave_up<F: Fn(NumRequest) -> NumResponse>(
    k: F,
    c: Circle,
    deg: Real,
    out: Result<ValueV, Seq<char>>,
)
    requires
        out == Err::<ValueV, Seq<char>>("Could not satisfy the sampling constraint"@),
    ensures
        iangle_sample_rel(k, c, deg, out),
{
}

/// What each operation kind returns on a flattened argument list.
pub open spec fn op_rel<F: Fn(NumRequest) -> NumResponse>(
    k: F,
    op: OpKind,
    args: Seq<ValueV>,
    out: Result<ValueV, Seq<char>>,
) -> bool {
    match op {
        OpKind::Add => add_op_rel(k, args, out),
        OpKind::Sub => sub_op_rel(k, args, out),
        OpKind::Mul => mul_op_rel(k, args, out),
        OpKind::Div => div_op_rel(k, args, out),
        OpKind::Setq => set_op_rel(args, out),
        OpKind::Nop => nop_op_rel(out),
        OpKind::InscribedAngle => iangle_op_rel(k, args, out),
        OpKind::Angle => angle_op_rel(args, out),
        OpKind::Lineseg => lineseg_op_rel(args, out),
        OpKind::Midpoint => midpoint_op_rel(k, args, out),
        OpKind::Circumcenter => circumcenter_op_rel(k, args, out),
        OpKind::Incenter => incenter_op_rel(k, args, out),
        OpKind::Orthocenter => orthocenter_op_rel(k, args, out),
        OpKind::Centroid => centroid_op_rel(k, args, out),
        OpKind::Point => point_op_rel(k, args, out),
        OpKind::Intersect => intersect_op_rel(k, args, out),
        OpKind::Inradius => inradius_op_rel(k, args, out),
        OpKind::Circle => circle_op_rel(k, args, out),
        OpKind::Triangle => triangle_op_rel(k, args, out),
    }
}

/// Invokes the operation of the given kind on the flattened arguments.
pub fn apply_op<F: Fn(NumRequest) -> NumResponse>(
    op: OpKind,
    kernel: &F,
    args: &[Value],
) -> (out: Result<Value, String>)
    requires
        kernel_ok(*kernel),
    ensures
        op_rel(*kernel, op, vals_view(args@), res_view(out)),
{
    match op {
        OpKind::Add => FnAdd.call(kernel, args),
        OpKind::Sub => FnSub.call(kernel, args),
        OpKind::Mul => FnMul.call(kernel, args),
        OpKind::Div => FnDiv.call(kernel, args),
        OpKind::Setq => FnSet.call(args),
        OpKind::Nop => FnNop.call(args),
        OpKind::InscribedAngle => FnInscribedAngle.call(kernel, args),
        OpKind::Angle => FnAngle.call(args),
        OpKind::Lineseg => FnLineseg.call(args),
        OpKind::Midpoint => FnMidpoint.call(kernel, args),
        OpKind::Circumcenter => FnCircumcenter.call(kernel, args),
        OpKind::Incenter => FnIncenter.call(kernel, args),
        OpKind::Orthocenter => FnOrthocenter.call(kernel, args),
        OpKind::Centroid => FnCentroid.call(kernel, args),
        OpKind::Point => FnPoint.call(kernel, args),
        OpKind::Intersect => FnIntersect.call(kernel, args),
        OpKind::Inradius => FnInradius.call(kernel, args),
        OpKind::Circle => FnCircle.call(kernel, args),
        OpKind::Triangle => FnTriangle.call(kernel, args),
    }
}

/// The float reading of the add operation meets its relation.
proof fn lemma_add_float<F: Fn(NumRequest) -> NumResponse>(
    k: F,
    args: Seq<ValueV>,
    out: Result<ValueV, Seq<char>>,
    a: Real,
    b: Real,
    r: Real,
)
    requires
        args.len() == 2,
        args[0] == ValueV::Float(a),
        args[1] == ValueV::Float(b),
        k_add(k, a, b, r),
        out == Ok::<ValueV, Seq<char>>(ValueV::Float(r)),
    ensures
        add_op_rel(k, args, out),
{
    assert(args[0]->Float_0 == a);
    assert(k_add(k, args[0]->Float_0, args[1]->Float_0, r));
    assert(exists|r2: Real|
        #[trigger] k_add(k, args[0]->Float_0, args[1]->Float_0, r2) && out == Ok::<
            ValueV,
            Seq<char>,
        >(ValueV::Float(r2)));
}

/// The float reading of the sub operation meets its relation.
proof fn lemma_sub_float<F: Fn(NumRequest) -> NumResponse>(
    k: F,
    args: Seq<ValueV>,
    out: Result<ValueV, Seq<char>>,
    a: Real,
    b: Real,
    r: Real,
)
    requires
        args.len() == 2,
        args[0] == ValueV::Float(a),
        args[1] == ValueV::Float(b),
        k_sub(k, a, b, r),
        out == Ok::<ValueV, Seq<char>>(ValueV::Float(r)),
    ensures
        sub_op_rel(k, args, out),
{
    assert(args[0]->Float_0 == a);
    assert(k_sub(k, args[0]->Float_0, args[1]->Float_0, r));
    assert(exists|r2: Real|
        #[trigger] k_sub(k, args[0]->Float_0, args[1]->Float_0, r2) && out == Ok::<
            ValueV,
            Seq<char>,
        >(ValueV::Float(r2)));
}

/// The float reading of the mul operation meets its relation.
proof fn lemma_mul_float<F: Fn(NumRequest) -> NumResponse>(
    k: F,
    args: Seq<ValueV>,
    out: Result<ValueV, Seq<char>>,
    a: Real,
    b: Real,
    r: Real,
)
    requires
        args.len() == 2,
        args[0] == ValueV::Float(a),
        args[1] == ValueV::Float(b),
        k_mul(k, a, b, r),
        out == Ok::<ValueV, Seq<char>>(ValueV::Float(r)),
    ensures
        mul_op_rel(k, args, out),
{
    assert(args[0]->Float_0 == a);
    assert(k_mul(k, args[0]->Float_0, args[1]->Float_0, r));
    assert(exists|r2: Real|
        #[trigger] k_mul(k, args[0]->Float_0, args[1]->Float_0, r2) && out == Ok::<
            ValueV,
            Seq<char>,
        >(ValueV::Float(r2)));
}

/// The float reading of the div operation meets its relation.
proof fn lemma_div_float<F: Fn(NumRequest) -> NumResponse>(
    k: F,
    args: Seq<ValueV>,
    out: Result<ValueV, Seq<char>>,
    a: Real,
    b: Real,
    r: Real,
)
    requires
        args.len() == 2,
        args[0] == ValueV::Float(a),
        args[1] == ValueV::Float(b),
        k_div(k, a, b, r),
        out == Ok::<ValueV, Seq<char>>(ValueV::Float(r)),
    ensures
        div_op_rel(k, args, out),
{
    assert(args[0]->Float_0 == a);
    assert(k_div(k, args[0]->Float_0, args[1]->Float_0, r));
    assert(exists|r2: Real|
        #[trigger] k_div(k, args[0]->Float_0, args[1]->Float_0, r2) && out == Ok::<
            ValueV,
            Seq<char>,
        >(ValueV::Float(r2)));
}

/// The two-point reading of the midpoint operation meets its relation.
proof fn lemma_midpoint_points<F: Fn(NumRequest) -> NumResponse>(
    k: F,
    args: Seq<ValueV>,
    out: Result<ValueV, Seq<char>>,
    p1: Point,
    p2: Point,
    m: Point,
)
    requires
        args.len() == 2,
        args[0] == ValueV::Point(p1),
        args[1] == ValueV::Point(p2),
        midpoint_rel(k, p1, p2, m),
        out == Ok::<ValueV, Seq<char>>(ValueV::Point(m)),
    ensures
        midpoint_op_rel(k, args, out),
{
    assert(args[0]->Point_0 == p1);
    assert(midpoint_rel(k, args[0]->Point_0, args[1]->Point_0, m));
    assert(exists|m2: Point|
        #[trigger] midpoint_rel(k, args[0]->Point_0, args[1]->Point_0, m2) && out == Ok::<
            ValueV,
            Seq<char>,
        >(ValueV::Point(m2)));
}

} // verus!
