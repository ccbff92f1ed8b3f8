//! Floating-point values and the numeric kernel interface.
//!
//! Verus does not reason about floating-point arithmetic, so the library
//! carries every coordinate, radius and degree value as the IEEE 754 bit
//! pattern of the corresponding 64-bit float ([`Real`]), and performs the
//! arithmetic itself through a *numeric kernel*: a caller-supplied closure
//! that answers one elementary floating-point request at a time. The caller
//! (a command-line front end, or a test) implements the kernel with ordinary
//! float operations; a test may substitute a deterministic one, which also
//! isolates the random-point source behind the same substitutable interface.
//!
//! Contracts describe a kernel answer only through `call_ensures`: a verified
//! function that computes with floats states exactly which requests produced
//! its result, and nothing about the numeric values themselves.

use vstd::prelude::*;

verus! {

/// A 64-bit float carried as its IEEE 754 bit pattern.
#[derive(Clone, Copy, Debug, PartialEq, Eq, Structural)]
pub struct Real {
    pub bits: u64,
}

/// Bit pattern of `0.0`.
pub const R_ZERO: u64 = 0x0000000000000000;

/// Bit pattern of `1.0`.
pub const R_ONE: u64 = 0x3FF0000000000000;

/// Bit pattern of `-1.0`.
pub const R_NEG_ONE: u64 = 0xBFF0000000000000;

/// Bit pattern of `2.0`.
pub const R_TWO: u64 = 0x4000000000000000;

/// Bit pattern of `3.0`.
pub const R_THREE: u64 = 0x4008000000000000;

/// Bit pattern of `5.0`.
pub const R_FIVE: u64 = 0x4014000000000000;

/// Bit pattern of `4.0`.
pub const R_FOUR: u64 = 0x4010000000000000;

/// Bit pattern of `90.0`.
pub const R_NINETY: u64 = 0x4056800000000000;

/// Bit pattern of `180.0`.
pub const R_ONE_EIGHTY: u64 = 0x4066800000000000;

/// Bit pattern of positive infinity: sign 0, exponent all ones, mantissa 0.
pub const R_INFINITY: u64 = 0x7FF0000000000000;

/// Bit pattern of the 64-bit float nearest to the constant pi.
pub const R_PI: u64 = 0x400921FB54442D18;

/// Bit pattern of `1e-10`, the tolerance used when testing whether a point
/// lies on a circle.
pub const R_TOLERANCE: u64 = 0x3DDB7CDFD9D7BDBB;

impl Real {
    /// The float with the given bit pattern.
    pub fn new(bits: u64) -> (r: Real)
        ensures
            r == rc(bits),
    {
        Real { bits }
    }

    /// The absolute value. IEEE 754 defines it as clearing the sign bit,
    /// so no kernel request is needed.
    pub fn abs(self) -> (r: Real)
        ensures
            r == rc(abs_bits(self.bits)),
    {
        Real { bits: self.bits & 0x7FFF_FFFF_FFFF_FFFF }
    }

    /// The negated value. IEEE 754 defines negation as flipping the sign
    /// bit, so no kernel request is needed.
    pub fn neg(self) -> (r: Real)
        ensures
            r == rc(neg_bits(self.bits)),
    {
        Real { bits: self.bits ^ 0x8000_0000_0000_0000 }
    }
}

/// The bit pattern of the absolute value: the same pattern with the sign
/// bit cleared.
pub open spec fn abs_bits(a: u64) -> u64 {
    a & 0x7FFF_FFFF_FFFF_FFFF
}

/// The bit pattern of the negated value: the same pattern with the sign
/// bit flipped.
pub open spec fn neg_bits(a: u64) -> u64 {
    a ^ 0x8000_0000_0000_0000
}

/// The float with the given bit pattern, in spec position.
pub open spec fn rc(bits: u64) -> Real {
    Real { bits }
}

/// One elementary floating-point operation, to be answered by the numeric
/// kernel. Arithmetic requests carry operand bit patterns.
#[derive(Clone, Copy, Debug, PartialEq, Eq, Structural)]
pub enum NumRequest {
    /// The sum of the two operands.
    Add(Real, Real),
    /// The difference of the two operands.
    Sub(Real, Real),
    /// The product of the two operands.
    Mul(Real, Real),
    /// The quotient of the two operands.
    Div(Real, Real),
    /// The square root of the operand.
    Sqrt(Real),
    /// The sine of the operand (radians).
    Sin(Real),
    /// The cosine of the operand (radians).
    Cos(Real),
    /// The four-quadrant arctangent `y.atan2(x)`; the first operand is `y`.
    Atan2(Real, Real),
    /// The hypotenuse `a.hypot(b)`.
    Hypot(Real, Real),
    /// The operand raised to the given integer power.
    PowI(Real, i32),
    /// The operand, taken as degrees, converted to radians.
    ToRadians(Real),
    /// Whether the first operand is strictly less than the second.
    Lt(Real, Real),
    /// Whether the two operands compare equal as floats.
    FloatEq(Real, Real),
    /// The integer converted to the nearest float.
    OfInt(i64),
    /// The decimal text that `Display` prints for the operand.
    Fmt(Real),
    /// A fresh sample, uniform on the half-open unit interval.
    Random,
}

/// A numeric kernel's answer to one request.
#[derive(Clone, Debug, PartialEq)]
pub enum NumResponse {
    /// A float, as its bit pattern.
    Num(Real),
    /// A comparison outcome.
    Truth(bool),
    /// Formatted text.
    Text(String),
}

/// The answer shape that each request calls for: comparisons answer with
/// `Truth`, formatting with `Text`, everything else with `Num`.
pub open spec fn shape_ok(req: NumRequest, resp: NumResponse) -> bool {
    match req {
        NumRequest::Lt(_, _) => resp is Truth,
        NumRequest::FloatEq(_, _) => resp is Truth,
        NumRequest::Fmt(_) => resp is Text,
        _ => resp is Num,
    }
}

/// A well-behaved numeric kernel: callable on every request, and answering
/// each with the shape that [`shape_ok`] calls for.
pub open spec fn kernel_ok<F: Fn(NumRequest) -> NumResponse>(k: F) -> bool {
    &&& forall|req: NumRequest| #[trigger] call_requires(k, (req,))
    &&& forall|req: NumRequest, resp: NumResponse|
        #[trigger] call_ensures(k, (req,), resp) ==> shape_ok(req, resp)
}

/// The kernel may answer `Add(a, b)` with `r`.
pub open spec fn k_add<F: Fn(NumRequest) -> NumResponse>(k: F, a: Real, b: Real, r: Real) -> bool {
    call_ensures(k, (NumRequest::Add(a, b),), NumResponse::Num(r))
}

/// The kernel may answer `Sub(a, b)` with `r`.
pub open spec fn k_sub<F: Fn(NumRequest) -> NumResponse>(k: F, a: Real, b: Real, r: Real) -> bool {
    call_ensures(k, (NumRequest::Sub(a, b),), NumResponse::Num(r))
}

/// The kernel may answer `Mul(a, b)` with `r`.
pub open spec fn k_mul<F: Fn(NumRequest) -> NumResponse>(k: F, a: Real, b: Real, r: Real) -> bool {
    call_ensures(k, (NumRequest::Mul(a, b),), NumResponse::Num(r))
}

/// The kernel may answer `Div(a, b)` with `r`.
pub open spec fn k_div<F: Fn(NumRequest) -> NumResponse>(k: F, a: Real, b: Real, r: Real) -> bool {
    call_ensures(k, (NumRequest::Div(a, b),), NumResponse::Num(r))
}

/// The kernel may answer `Sqrt(a)` with `r`.
pub open spec fn k_sqrt<F: Fn(NumRequest) -> NumResponse>(k: F, a: Real, r: Real) -> bool {
    call_ensures(k, (NumRequest::Sqrt(a),), NumResponse::Num(r))
}

/// The kernel may answer `Sin(a)` with `r`.
pub open spec fn k_sin<F: Fn(NumRequest) -> NumResponse>(k: F, a: Real, r: Real) -> bool {
    call_ensures(k, (NumRequest::Sin(a),), NumResponse::Num(r))
}

/// The kernel may answer `Cos(a)` with `r`.
pub open spec fn k_cos<F: Fn(NumRequest) -> NumResponse>(k: F, a: Real, r: Real) -> bool {
    call_ensures(k, (NumRequest::Cos(a),), NumResponse::Num(r))
}

/// The kernel may answer `Atan2(y, x)` with `r`.
pub open spec fn k_atan2<F: Fn(NumRequest) -> NumResponse>(k: F, y: Real, x: Real, r: Real) -> bool {
    call_ensures(k, (NumRequest::Atan2(y, x),), NumResponse::Num(r))
}

/// The kernel may answer `Hypot(a, b)` with `r`.
pub open spec fn k_hypot<F: Fn(NumRequest) -> NumResponse>(k: F, a: Real, b: Real, r: Real) -> bool {
    call_ensures(k, (NumRequest::Hypot(a, b),), NumResponse::Num(r))
}

/// The kernel may answer `PowI(a, e)` with `r`.
pub open spec fn k_powi<F: Fn(NumRequest) -> NumResponse>(k: F, a: Real, e: i32, r: Real) -> bool {
    call_ensures(k, (NumRequest::PowI(a, e),), NumResponse::Num(r))
}

/// The kernel may answer `ToRadians(a)` with `r`.
pub open spec fn k_to_radians<F: Fn(NumRequest) -> NumResponse>(k: F, a: Real, r: Real) -> bool {
    call_ensures(k, (NumRequest::ToRadians(a),), NumResponse::Num(r))
}

/// The kernel may answer `Lt(a, b)` with `c`.
pub open spec fn k_lt<F: Fn(NumRequest) -> NumResponse>(k: F, a: Real, b: Real, c: bool) -> bool {
    call_ensures(k, (NumRequest::Lt(a, b),), NumResponse::Truth(c))
}

/// The kernel may answer `FloatEq(a, b)` with `c`.
pub open spec fn k_float_eq<F: Fn(NumRequest) -> NumResponse>(k: F, a: Real, b: Real, c: bool) -> bool {
    call_ensures(k, (NumRequest::FloatEq(a, b),), NumResponse::Truth(c))
}

/// The kernel may answer `OfInt(i)` with `r`.
pub open spec fn k_of_int<F: Fn(NumRequest) -> NumResponse>(k: F, i: i64, r: Real) -> bool {
    call_ensures(k, (NumRequest::OfInt(i),), NumResponse::Num(r))
}

/// The kernel may answer `Fmt(a)` with the text `s`.
pub open spec fn k_fmt<F: Fn(NumRequest) -> NumResponse>(k: F, a: Real, s: Seq<char>) -> bool {
    exists|t: String| #[trigger] call_ensures(k, (NumRequest::Fmt(a),), NumResponse::Text(t)) && t@ == s
}

/// The kernel may answer `Random` with `r`.
pub open spec fn k_random<F: Fn(NumRequest) -> NumResponse>(k: F, r: Real) -> bool {
    call_ensures(k, (NumRequest::Random,), NumResponse::Num(r))
}

/// Puts one request to the kernel.
pub fn ask<F: Fn(NumRequest) -> NumResponse>(kernel: &F, req: NumRequest) -> (resp: NumResponse)
    requires
        kernel_ok(*kernel),
    ensures
        call_ensures(*kernel, (req,), resp),
        shape_ok(req, resp),
{
    (*kernel)(req)
}

/// Puts a request whose answer must be a float, and returns that float.
pub fn ask_num<F: Fn(NumRequest) -> NumResponse>(kernel: &F, req: NumRequest) -> (r: Real)
    requires
        kernel_ok(*kernel),
        !(req is Lt),
        !(req is FloatEq),
        !(req is Fmt),
    ensures
        call_ensures(*kernel, (req,), NumResponse::Num(r)),
{
    match ask(kernel, req) {
        NumResponse::Num(r) => r,
        _ => vstd::pervasive::unreached(),
    }
}

/// Puts a comparison request and returns its outcome.
pub fn ask_truth<F: Fn(NumRequest) -> NumResponse>(kernel: &F, req: NumRequest) -> (c: bool)
    requires
        kernel_ok(*kernel),
        req is Lt || req is FloatEq,
    ensures
        call_ensures(*kernel, (req,), NumResponse::Truth(c)),
{
    match ask(kernel, req) {
        NumResponse::Truth(c) => c,
        _ => vstd::pervasive::unreached(),
    }
}

/// Puts a formatting request and returns the text.
pub fn ask_text<F: Fn(NumRequest) -> NumResponse>(kernel: &F, req: NumRequest) -> (s: String)
    requires
        kernel_ok(*kernel),
        req is Fmt,
    ensures
        exists|t: String| #[trigger] call_ensures(*kernel, (req,), NumResponse::Text(t)) && t@ == s@,
{
    let resp = ask(kernel, req);
    let ghost resp0 = resp;
    match resp {
        NumResponse::Text(s) => {
            proof {
                assert(resp0 == NumResponse::Text(s));
                assert(call_ensures(*kernel, (req,), NumResponse::Text(s)));
            }
            s
        },
        _ => vstd::pervasive::unreached(),
    }
}

/// The sum `a + b`, by the kernel.
pub fn radd<F: Fn(NumRequest) -> NumResponse>(kernel: &F, a: Real, b: Real) -> (r: Real)
    requires
        kernel_ok(*kernel),
    ensures
        k_add(*kernel, a, b, r),
{
    ask_num(kernel, NumRequest::Add(a, b))
}

/// The difference `a - b`, by the kernel.
pub fn rsub<F: Fn(NumRequest) -> NumResponse>(kernel: &F, a: Real, b: Real) -> (r: Real)
    requires
        kernel_ok(*kernel),
    ensures
        k_sub(*kernel, a, b, r),
{
    ask_num(kernel, NumRequest::Sub(a, b))
}

/// The product `a * b`, by the kernel.
pub fn rmul<F: Fn(NumRequest) -> NumResponse>(kernel: &F, a: Real, b: Real) -> (r: Real)
    requires
        kernel_ok(*kernel),
    ensures
        k_mul(*kernel, a, b, r),
{
    ask_num(kernel, NumRequest::Mul(a, b))
}

/// The quotient `a / b`, by the kernel.
pub fn rdiv<F: Fn(NumRequest) -> NumResponse>(kernel: &F, a: Real, b: Real) -> (r: Real)
    requires
        kernel_ok(*kernel),
    ensures
        k_div(*kernel, a, b, r),
{
    ask_num(kernel, NumRequest::Div(a, b))
}

/// The square root, by the kernel.
pub fn rsqrt<F: Fn(NumRequest) -> NumResponse>(kernel: &F, a: Real) -> (r: Real)
    requires
        kernel_ok(*kernel),
    ensures
        k_sqrt(*kernel, a, r),
{
    ask_num(kernel, NumRequest::Sqrt(a))
}

/// The sine, by the kernel.
pub fn rsin<F: Fn(NumRequest) -> NumResponse>(kernel: &F, a: Real) -> (r: Real)
    requires
        kernel_ok(*kernel),
    ensures
        k_sin(*kernel, a, r),
{
    ask_num(kernel, NumRequest::Sin(a))
}

/// The cosine, by the kernel.
pub fn rcos<F: Fn(NumRequest) -> NumResponse>(kernel: &F, a: Real) -> (r: Real)
    requires
        kernel_ok(*kernel),
    ensures
        k_cos(*kernel, a, r),
{
    ask_num(kernel, NumRequest::Cos(a))
}

/// The four-quadrant arctangent, by the kernel.
pub fn ratan2<F: Fn(NumRequest) -> NumResponse>(kernel: &F, y: Real, x: Real) -> (r: Real)
    requires
        kernel_ok(*kernel),
    ensures
        k_atan2(*kernel, y, x, r),
{
    ask_num(kernel, NumRequest::Atan2(y, x))
}

/// The hypotenuse, by the kernel.
pub fn rhypot<F: Fn(NumRequest) -> NumResponse>(kernel: &F, a: Real, b: Real) -> (r: Real)
    requires
        kernel_ok(*kernel),
    ensures
        k_hypot(*kernel, a, b, r),
{
    ask_num(kernel, NumRequest::Hypot(a, b))
}

/// The integer power, by the kernel.
pub fn rpowi<F: Fn(NumRequest) -> NumResponse>(kernel: &F, a: Real, e: i32) -> (r: Real)
    requires
        kernel_ok(*kernel),
    ensures
        k_powi(*kernel, a, e, r),
{
    ask_num(kernel, NumRequest::PowI(a, e))
}

/// Degrees to radians, by the kernel.
pub fn rto_radians<F: Fn(NumRequest) -> NumResponse>(kernel: &F, a: Real) -> (r: Real)
    requires
        kernel_ok(*kernel),
    ensures
        k_to_radians(*kernel, a, r),
{
    ask_num(kernel, NumRequest::ToRadians(a))
}

/// The comparison `a < b`, by the kernel.
pub fn rlt<F: Fn(NumRequest) -> NumResponse>(kernel: &F, a: Real, b: Real) -> (c: bool)
    requires
        kernel_ok(*kernel),
    ensures
        k_lt(*kernel, a, b, c),
{
    ask_truth(kernel, NumRequest::Lt(a, b))
}

/// The comparison `a == b` on floats, by the kernel.
pub fn rfloat_eq<F: Fn(NumRequest) -> NumResponse>(kernel: &F, a: Real, b: Real) -> (c: bool)
    requires
        kernel_ok(*kernel),
    ensures
        k_float_eq(*kernel, a, b, c),
{
    ask_truth(kernel, NumRequest::FloatEq(a, b))
}

/// The integer converted to a float, by the kernel.
pub fn rof_int<F: Fn(NumRequest) -> NumResponse>(kernel: &F, i: i64) -> (r: Real)
    requires
        kernel_ok(*kernel),
    ensures
        k_of_int(*kernel, i, r),
{
    ask_num(kernel, NumRequest::OfInt(i))
}

/// The decimal text of a float, by the kernel.
pub fn rfmt<F: Fn(NumRequest) -> NumResponse>(kernel: &F, a: Real) -> (s: String)
    requires
        kernel_ok(*kernel),
    ensures
        k_fmt(*kernel, a, s@),
{
    ask_text(kernel, NumRequest::Fmt(a))
}

/// A fresh uniform sample on the unit interval, by the kernel.
pub fn runit_random<F: Fn(NumRequest) -> NumResponse>(kernel: &F) -> (r: Real)
    requires
        kernel_ok(*kernel),
    ensures
        k_random(*kernel, r),
{
    ask_num(kernel, NumRequest::Random)
}

} // verus!
