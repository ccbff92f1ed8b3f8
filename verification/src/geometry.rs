//! Free-standing geometric helpers: the midpoint of two points and the
//! distance between them.

use vstd::prelude::*;

use crate::numeric::{
    k_add, k_div, k_powi, k_sqrt, k_sub, kernel_ok, radd, rdiv, rpowi, rsqrt, rsub, rc,
    NumRequest, NumResponse, Real, R_TWO,
};
use crate::types::Point;

verus! {

/// `r` is a midpoint of `a` and `b` as the kernel computes it:
/// each coordinate is the sum of the operands' coordinates divided by two.
pub open spec fn midpoint_rel<F: Fn(NumRequest) -> NumResponse>(
    k: F,
    a: Point,
    b: Point,
    r: Point,
) -> bool {
    exists|sx: Real, sy: Real|
        {
            &&& #[trigger] k_add(k, a.x, b.x, sx)
            &&& k_div(k, sx, rc(R_TWO), r.x)
            &&& #[trigger] k_add(k, a.y, b.y, sy)
            &&& k_div(k, sy, rc(R_TWO), r.y)
        }
}

/// The midpoint between two points.
pub fn midpoint<F: Fn(NumRequest) -> NumResponse>(
    kernel: &F,
    first: Point,
    second: Point,
) -> (r: Point)
    requires
        kernel_ok(*kernel),
    ensures
        midpoint_rel(*kernel, first, second, r),
{
    let sx = radd(kernel, first.x, second.x);
    let x = rdiv(kernel, sx, Real::new(R_TWO));
    let sy = radd(kernel, first.y, second.y);
    let y = rdiv(kernel, sy, Real::new(R_TWO));
    Point { x, y }
}

/// `r` is a distance between `a` and `b` as the kernel computes it:
/// the square root of the sum of the squared coordinate differences.
pub open spec fn distance_rel<F: Fn(NumRequest) -> NumResponse>(
    k: F,
    a: Point,
    b: Point,
    r: Real,
) -> bool {
    exists|dx: Real, px: Real, dy: Real, py: Real, s: Real|
        {
            &&& #[trigger] k_sub(k, a.x, b.x, dx)
            &&& #[trigger] k_powi(k, dx, 2, px)
            &&& #[trigger] k_sub(k, a.y, b.y, dy)
            &&& #[trigger] k_powi(k, dy, 2, py)
            &&& #[trigger] k_add(k, px, py, s)
            &&& k_sqrt(k, s, r)
        }
}

/// The distance between two points.
pub fn distance<F: Fn(NumRequest) -> NumResponse>(
    kernel: &F,
    first: Point,
    second: Point,
) -> (r: Real)
    requires
        kernel_ok(*kernel),
    ensures
        distance_rel(*kernel, first, second, r),
{
    let dx = rsub(kernel, first.x, second.x);
    let px = rpowi(kernel, dx, 2);
    let dy = rsub(kernel, first.y, second.y);
    let py = rpowi(kernel, dy, 2);
    let s = radd(kernel, px, py);
    rsqrt(kernel, s)
}

} // verus!
