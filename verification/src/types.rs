//! The value model: the closed union of values a script can produce, and the
//! plain geometric types behind its compound variants.
//!
//! The geometric types carry their coordinates as [`Real`] bit patterns and
//! are plain `Copy` data; the geometric constructions and queries on them
//! live in [`crate::geometry`] and on the types' own methods.

use vstd::prelude::*;

use crate::numeric::{
    abs_bits, k_add, k_atan2, k_cos, k_div, k_float_eq, k_hypot, k_lt, k_mul, k_powi, k_random,
    k_sin, k_sqrt, k_sub, k_to_radians, kernel_ok, radd, ratan2, rcos, rdiv, rfloat_eq, rhypot,
    rlt, rmul, rpowi, rsin, rsqrt, rsub, rto_radians, runit_random, rc, NumRequest, NumResponse,
    Real, R_NEG_ONE, R_ONE, R_PI, R_TOLERANCE, R_TWO, R_ZERO,
};

verus! {

/// A point in the plane.
#[derive(Clone, Copy, Debug, PartialEq, Eq, Structural)]
pub struct Point {
    pub x: Real,
    pub y: Real,
}

/// A line segment between two points.
#[derive(Clone, Copy, Debug, PartialEq, Eq, Structural)]
pub struct Lineseg {
    pub start: Point,
    pub end: Point,
}

/// A circle with a center and a radius.
#[derive(Clone, Copy, Debug, PartialEq, Eq, Structural)]
pub struct Circle {
    pub center: Point,
    pub radius: Real,
}

/// A triangle on three vertices.
#[derive(Clone, Copy, Debug, PartialEq, Eq, Structural)]
pub struct Triangle {
    pub a: Point,
    pub b: Point,
    pub c: Point,
}

/// An angle: two rays from `center`, through `start` and through `end`.
#[derive(Clone, Copy, Debug, PartialEq, Eq, Structural)]
pub struct Angle {
    pub start: Point,
    pub center: Point,
    pub end: Point,
}

/// The view of a result whose success payload is plain data: the payload is
/// kept, the error message becomes its characters.
pub open spec fn plain_res_view<T>(r: Result<T, String>) -> Result<T, Seq<char>> {
    match r {
        Ok(t) => Ok(t),
        Err(e) => Err(e@),
    }
}

/// `r` is a slope of `l` as the kernel computes it:
/// the end-to-start difference of `y` over that of `x`.
pub open spec fn slope_rel<F: Fn(NumRequest) -> NumResponse>(k: F, l: Lineseg, r: Real) -> bool {
    exists|dy: Real, dx: Real|
        {
            &&& #[trigger] k_sub(k, l.end.y, l.start.y, dy)
            &&& #[trigger] k_sub(k, l.end.x, l.start.x, dx)
            &&& k_div(k, dy, dx, r)
        }
}

/// `r` is a y-intercept of `l` as the kernel computes it:
/// `start.y` minus the slope times `start.x`.
pub open spec fn y_intercept_rel<F: Fn(NumRequest) -> NumResponse>(
    k: F,
    l: Lineseg,
    r: Real,
) -> bool {
    exists|sl: Real, m: Real|
        {
            &&& #[trigger] slope_rel(k, l, sl)
            &&& #[trigger] k_mul(k, sl, l.start.x, m)
            &&& k_sub(k, l.start.y, m, r)
        }
}

impl Lineseg {
    /// The slope of the segment (infinite for a vertical segment).
    pub fn slope<F: Fn(NumRequest) -> NumResponse>(&self, kernel: &F) -> (r: Real)
        requires
            kernel_ok(*kernel),
        ensures
            slope_rel(*kernel, *self, r),
    {
        let dy = rsub(kernel, self.end.y, self.start.y);
        let dx = rsub(kernel, self.end.x, self.start.x);
        rdiv(kernel, dy, dx)
    }

    /// The y-intercept of the line through the segment.
    pub fn y_intercept<F: Fn(NumRequest) -> NumResponse>(&self, kernel: &F) -> (r: Real)
        requires
            kernel_ok(*kernel),
        ensures
            y_intercept_rel(*kernel, *self, r),
    {
        let sl = self.slope(kernel);
        let m = rmul(kernel, sl, self.start.x);
        rsub(kernel, self.start.y, m)
    }
}

/// The outcome of constructing a circle: rejected with a message exactly
/// when the kernel finds the radius negative.
pub open spec fn circle_new_rel<F: Fn(NumRequest) -> NumResponse>(
    k: F,
    center: Point,
    radius: Real,
    out: Result<Circle, Seq<char>>,
) -> bool {
    exists|neg: bool|
        {
            &&& #[trigger] k_lt(k, radius, rc(R_ZERO), neg)
            &&& if neg {
                out == Result::<Circle, Seq<char>>::Err("Radius is negative"@)
            } else {
                out == Result::<Circle, Seq<char>>::Ok(Circle { center, radius })
            }
        }
}

/// `p` is a random point on `c` as the kernel draws it: a uniform unit
/// sample scaled to an angle, taken around the center at the radius.
pub open spec fn circle_point_rel<F: Fn(NumRequest) -> NumResponse>(
    k: F,
    c: Circle,
    p: Point,
) -> bool {
    exists|u: Real, t: Real, ang: Real|
        {
            &&& #[trigger] k_random(k, u)
            &&& #[trigger] k_mul(k, u, rc(R_TWO), t)
            &&& #[trigger] k_mul(k, t, rc(R_PI), ang)
            &&& circle_angle_point_rel(k, c, ang, p)
        }
}

/// `p` is the point of `c` at angle `ang` as the kernel computes it.
pub open spec fn circle_angle_point_rel<F: Fn(NumRequest) -> NumResponse>(
    k: F,
    c: Circle,
    ang: Real,
    p: Point,
) -> bool {
    exists|co: Real, mx: Real, si: Real, my: Real|
        {
            &&& #[trigger] k_cos(k, ang, co)
            &&& #[trigger] k_mul(k, c.radius, co, mx)
            &&& k_add(k, c.center.x, mx, p.x)
            &&& #[trigger] k_sin(k, ang, si)
            &&& #[trigger] k_mul(k, c.radius, si, my)
            &&& k_add(k, c.center.y, my, p.y)
        }
}

/// `res` answers whether `p` lies on `c` as the kernel computes it: the
/// squared center distance and the squared radius differ by less than the
/// tolerance in absolute value.
pub open spec fn on_circle_rel<F: Fn(NumRequest) -> NumResponse>(
    k: F,
    c: Circle,
    p: Point,
    res: bool,
) -> bool {
    exists|dx: Real, px: Real, dy: Real, py: Real, lhs: Real, rhs: Real, d: Real|
        {
            &&& #[trigger] k_sub(k, p.x, c.center.x, dx)
            &&& #[trigger] k_powi(k, dx, 2, px)
            &&& #[trigger] k_sub(k, p.y, c.center.y, dy)
            &&& #[trigger] k_powi(k, dy, 2, py)
            &&& #[trigger] k_add(k, px, py, lhs)
            &&& #[trigger] k_powi(k, c.radius, 2, rhs)
            &&& #[trigger] k_sub(k, lhs, rhs, d)
            &&& k_lt(k, rc(abs_bits(d.bits)), rc(R_TOLERANCE), res)
        }
}

/// `a` is the normalized angle of `p` seen from the center of `c`: the
/// four-quadrant arctangent, shifted by a full turn if negative so that it
/// falls in `[0, 2 pi)`.
pub open spec fn norm_angle_rel<F: Fn(NumRequest) -> NumResponse>(
    k: F,
    c: Circle,
    p: Point,
    a: Real,
) -> bool {
    exists|dy: Real, dx: Real, a0: Real, neg: bool|
        {
            &&& #[trigger] k_sub(k, p.y, c.center.y, dy)
            &&& #[trigger] k_sub(k, p.x, c.center.x, dx)
            &&& #[trigger] k_atan2(k, dy, dx, a0)
            &&& #[trigger] k_lt(k, a0, rc(R_ZERO), neg)
            &&& if neg {
                exists|tp: Real|
                    #[trigger] k_mul(k, rc(R_TWO), rc(R_PI), tp) && k_add(k, a0, tp, a)
            } else {
                a == a0
            }
        }
}

/// `dir` is the sweep direction chosen for the arc from the normalized
/// angles `sa` and `ea`: minus one when `sa` compares below `ea`, plus one
/// otherwise (the same branch is taken whether or not the two angles lie
/// within half a turn of each other; the absolute difference is still
/// compared against pi first, as a matter of policy).
pub open spec fn arc_dir_rel<F: Fn(NumRequest) -> NumResponse>(
    k: F,
    sa: Real,
    ea: Real,
    dir: Real,
) -> bool {
    exists|dd: Real, near: bool, below: bool|
        {
            &&& #[trigger] k_sub(k, ea, sa, dd)
            &&& #[trigger] k_lt(k, rc(abs_bits(dd.bits)), rc(R_PI), near)
            &&& #[trigger] k_lt(k, sa, ea, below)
            &&& dir == if below {
                rc(R_NEG_ONE)
            } else {
                rc(R_ONE)
            }
        }
}

/// `p` is the arc endpoint: the point of `c` at the start angle `sa` swept
/// by twice `angle` in direction `dir`.
pub open spec fn arc_end_rel<F: Fn(NumRequest) -> NumResponse>(
    k: F,
    c: Circle,
    sa: Real,
    dir: Real,
    angle: Real,
    p: Point,
) -> bool {
    exists|t2: Real, t3: Real, arg: Real|
        {
            &&& #[trigger] k_mul(k, dir, rc(R_TWO), t2)
            &&& #[trigger] k_mul(k, t2, angle, t3)
            &&& #[trigger] k_add(k, sa, t3, arg)
            &&& circle_angle_point_rel(k, c, arg, p)
        }
}

/// The outcome of selecting the point on the larger arc of `c` from `start`,
/// a center-defining point `end`, and a degree value `deg`: rejected when
/// either given point fails the on-circle test, and otherwise the endpoint
/// swept from the normalized start angle.
pub open spec fn arc_point_rel<F: Fn(NumRequest) -> NumResponse>(
    k: F,
    c: Circle,
    start: Point,
    end: Point,
    deg: Real,
    out: Result<Point, Seq<char>>,
) -> bool {
    exists|on_start: bool|
        #[trigger] on_circle_rel(k, c, start, on_start) && if !on_start {
            out == Result::<Point, Seq<char>>::Err("Points are not on the circle"@)
        } else {
            exists|on_end: bool|
                #[trigger] on_circle_rel(k, c, end, on_end) && if !on_end {
                    out == Result::<Point, Seq<char>>::Err("Points are not on the circle"@)
                } else {
                    exists|angle: Real, sa: Real, ea: Real, dir: Real, p: Point|
                        {
                            &&& k_to_radians(k, deg, angle)
                            &&& norm_angle_rel(k, c, start, sa)
                            &&& #[trigger] norm_angle_rel(k, c, end, ea)
                            &&& arc_dir_rel(k, sa, ea, dir)
                            &&& #[trigger] arc_end_rel(k, c, sa, dir, angle, p)
                            &&& out == Result::<Point, Seq<char>>::Ok(p)
                        }
                }
        }
}

impl Circle {
    /// A circle with the given center and radius; rejected with a message
    /// when the kernel finds the radius negative.
    pub fn new<F: Fn(NumRequest) -> NumResponse>(
        center: Point,
        radius: Real,
        kernel: &F,
    ) -> (out: Result<Circle, String>)
        requires
            kernel_ok(*kernel),
        ensures
            circle_new_rel(*kernel, center, radius, plain_res_view(out)),
    {
        if rlt(kernel, radius, Real::new(R_ZERO)) {
            Err("Radius is negative".to_owned())
        } else {
            Ok(Circle { center, radius })
        }
    }

    /// A random point on the circle: a fresh uniform angle in `[0, 2 pi)`,
    /// taken around the center at the radius.
    pub fn get_point<F: Fn(NumRequest) -> NumResponse>(&self, kernel: &F) -> (p: Point)
        requires
            kernel_ok(*kernel),
        ensures
            circle_point_rel(*kernel, *self, p),
    {
        let u = runit_random(kernel);
        let t = rmul(kernel, u, Real::new(R_TWO));
        let ang = rmul(kernel, t, Real::new(R_PI));
        self.point_at_angle(kernel, ang)
    }

    /// The point of the circle at the given angle.
    fn point_at_angle<F: Fn(NumRequest) -> NumResponse>(&self, kernel: &F, ang: Real) -> (p: Point)
        requires
            kernel_ok(*kernel),
        ensures
            circle_angle_point_rel(*kernel, *self, ang, p),
    {
        let co = rcos(kernel, ang);
        let mx = rmul(kernel, self.radius, co);
        let x = radd(kernel, self.center.x, mx);
        let si = rsin(kernel, ang);
        let my = rmul(kernel, self.radius, si);
        let y = radd(kernel, self.center.y, my);
        Point { x, y }
    }

    /// Whether the point lies on the circle, within the fixed tolerance.
    pub fn is_point_on_circle<F: Fn(NumRequest) -> NumResponse>(
        &self,
        kernel: &F,
        point: Point,
    ) -> (res: bool)
        requires
            kernel_ok(*kernel),
        ensures
            on_circle_rel(*kernel, *self, point, res),
    {
        let dx = rsub(kernel, point.x, self.center.x);
        let px = rpowi(kernel, dx, 2);
        let dy = rsub(kernel, point.y, self.center.y);
        let py = rpowi(kernel, dy, 2);
        let lhs = radd(kernel, px, py);
        let rhs = rpowi(kernel, self.radius, 2);
        let d = rsub(kernel, lhs, rhs);
        rlt(kernel, d.abs(), Real::new(R_TOLERANCE))
    }

    /// The normalized angle of `p` seen from the center.
    fn norm_angle<F: Fn(NumRequest) -> NumResponse>(&self, kernel: &F, p: Point) -> (a: Real)
        requires
            kernel_ok(*kernel),
        ensures
            norm_angle_rel(*kernel, *self, p, a),
    {
        let dy = rsub(kernel, p.y, self.center.y);
        let dx = rsub(kernel, p.x, self.center.x);
        let a0 = ratan2(kernel, dy, dx);
        if rlt(kernel, a0, Real::new(R_ZERO)) {
            let tp = rmul(kernel, Real::new(R_TWO), Real::new(R_PI));
            radd(kernel, a0, tp)
        } else {
            a0
        }
    }

    /// The point on the specified arc reached from `start` by the given
    /// degree value, always choosing the larger arc; rejected when `start`
    /// or `end` does not lie on the circle.
    pub fn get_point_on_arc<F: Fn(NumRequest) -> NumResponse>(
        &self,
        kernel: &F,
        start: Point,
        end: Point,
        deg: Real,
    ) -> (out: Result<Point, String>)
        requires
            kernel_ok(*kernel),
        ensures
            arc_point_rel(*kernel, *self, start, end, deg, plain_res_view(out)),
    {
        if !self.is_point_on_circle(kernel, start) {
            return Err("Points are not on the circle".to_owned());
        }
        if !self.is_point_on_circle(kernel, end) {
            return Err("Points are not on the circle".to_owned());
        }

        let angle = rto_radians(kernel, deg);
        let sa = self.norm_angle(kernel, start);
        let ea = self.norm_angle(kernel, end);

        // always utilize the larger arc; the comparison of the normalized
        // angles decides the direction the same way on both sides of the
        // half-turn test
        let dd = rsub(kernel, ea, sa);
        let near = rlt(kernel, dd.abs(), Real::new(R_PI));
        let mut direction = Real::new(R_ONE);
        if near {
            if rlt(kernel, sa, ea) {
                direction = Real::new(R_NEG_ONE);
            }
        } else {
            if rlt(kernel, sa, ea) {
                direction = Real::new(R_NEG_ONE);
            }
        }

        let t2 = rmul(kernel, direction, Real::new(R_TWO));
        let t3 = rmul(kernel, t2, angle);
        let arg = radd(kernel, sa, t3);
        let p = self.point_at_angle(kernel, arg);
        proof {
            assert(arc_dir_rel(*kernel, sa, ea, direction));
            assert(arc_end_rel(*kernel, *self, sa, direction, angle, p));
        }
        Ok(p)
    }
}

/// `eqb` answers the exact collinearity test on `a`, `b`, `c` as the kernel
/// computes it: whether the two cross products compare equal as floats.
pub open spec fn collinear_rel<F: Fn(NumRequest) -> NumResponse>(
    k: F,
    a: Point,
    b: Point,
    c: Point,
    eqb: bool,
) -> bool {
    exists|d1: Real, e1: Real, m1: Real, d2: Real, e2: Real, m2: Real|
        {
            &&& #[trigger] k_sub(k, a.x, b.x, d1)
            &&& #[trigger] k_sub(k, a.y, c.y, e1)
            &&& #[trigger] k_mul(k, d1, e1, m1)
            &&& #[trigger] k_sub(k, a.x, c.x, d2)
            &&& #[trigger] k_sub(k, a.y, b.y, e2)
            &&& #[trigger] k_mul(k, d2, e2, m2)
            &&& k_float_eq(k, m1, m2, eqb)
        }
}

/// The outcome of constructing a triangle: rejected with a message exactly
/// when the kernel finds the three points collinear.
pub open spec fn triangle_new_rel<F: Fn(NumRequest) -> NumResponse>(
    k: F,
    a: Point,
    b: Point,
    c: Point,
    out: Result<Triangle, Seq<char>>,
) -> bool {
    exists|eqb: bool|
        #[trigger] collinear_rel(k, a, b, c, eqb) && if eqb {
            out == Result::<Triangle, Seq<char>>::Err("Points are collinear"@)
        } else {
            out == Result::<Triangle, Seq<char>>::Ok(Triangle { a, b, c })
        }
}

/// `len` is the length of the side from `p` to `q` as the kernel computes
/// it: the hypotenuse of the coordinate differences.
pub open spec fn side_rel<F: Fn(NumRequest) -> NumResponse>(
    k: F,
    p: Point,
    q: Point,
    len: Real,
) -> bool {
    exists|d1: Real, d2: Real|
        {
            &&& #[trigger] k_sub(k, p.x, q.x, d1)
            &&& #[trigger] k_sub(k, p.y, q.y, d2)
            &&& k_hypot(k, d1, d2, len)
        }
}

/// `s` is the semiperimeter from the three side lengths.
pub open spec fn semi_rel<F: Fn(NumRequest) -> NumResponse>(
    k: F,
    la: Real,
    lb: Real,
    lc: Real,
    s: Real,
) -> bool {
    exists|s1: Real, s2: Real|
        {
            &&& #[trigger] k_add(k, la, lb, s1)
            &&& #[trigger] k_add(k, s1, lc, s2)
            &&& k_div(k, s2, rc(R_TWO), s)
        }
}

/// `r` is the inradius of `t` as the kernel computes it, by Heron's
/// formula: the square root of `s (s-a) (s-b) (s-c)`, divided by the
/// semiperimeter `s`.
pub open spec fn inradius_rel<F: Fn(NumRequest) -> NumResponse>(k: F, t: Triangle, r: Real) -> bool {
    exists|la: Real, lb: Real, lc: Real, s: Real|
        {
            &&& #[trigger] side_rel(k, t.b, t.c, la)
            &&& #[trigger] side_rel(k, t.a, t.c, lb)
            &&& #[trigger] side_rel(k, t.a, t.b, lc)
            &&& #[trigger] semi_rel(k, la, lb, lc, s)
            &&& exists|t1: Real, t2: Real, t3: Real, p1: Real, p2: Real, p3: Real, q: Real|
                {
                    &&& #[trigger] k_sub(k, s, la, t1)
                    &&& #[trigger] k_sub(k, s, lb, t2)
                    &&& #[trigger] k_sub(k, s, lc, t3)
                    &&& #[trigger] k_mul(k, s, t1, p1)
                    &&& #[trigger] k_mul(k, p1, t2, p2)
                    &&& #[trigger] k_mul(k, p2, t3, p3)
                    &&& #[trigger] k_sqrt(k, p3, q)
                    &&& k_div(k, q, s, r)
                }
        }
}

/// `p` is the incenter of `t` as the kernel computes it: the side-length
/// weighted average of the vertices.
pub open spec fn incenter_rel<F: Fn(NumRequest) -> NumResponse>(k: F, t: Triangle, p: Point) -> bool {
    exists|la: Real, lb: Real, lc: Real, den1: Real, den: Real|
        {
            &&& #[trigger] side_rel(k, t.b, t.c, la)
            &&& #[trigger] side_rel(k, t.a, t.c, lb)
            &&& #[trigger] side_rel(k, t.a, t.b, lc)
            &&& #[trigger] k_add(k, la, lb, den1)
            &&& #[trigger] k_add(k, den1, lc, den)
            &&& weighted_avg_rel(k, la, t.a.x, lb, t.b.x, lc, t.c.x, den, p.x)
            &&& weighted_avg_rel(k, la, t.a.y, lb, t.b.y, lc, t.c.y, den, p.y)
        }
}

/// `r` is the weighted average `(la va + lb vb + lc vc) / den`.
pub open spec fn weighted_avg_rel<F: Fn(NumRequest) -> NumResponse>(
    k: F,
    la: Real,
    va: Real,
    lb: Real,
    vb: Real,
    lc: Real,
    vc: Real,
    den: Real,
    r: Real,
) -> bool {
    exists|m1: Real, m2: Real, m3: Real, s1: Real, s2: Real|
        {
            &&& #[trigger] k_mul(k, la, va, m1)
            &&& #[trigger] k_mul(k, lb, vb, m2)
            &&& #[trigger] k_mul(k, lc, vc, m3)
            &&& #[trigger] k_add(k, m1, m2, s1)
            &&& #[trigger] k_add(k, s1, m3, s2)
            &&& k_div(k, s2, den, r)
        }
}

/// `p` is the orthocenter of `t` as the kernel computes it: the
/// intersection of two altitudes, built from the perpendicular slopes of
/// two sides.
pub open spec fn orthocenter_rel<F: Fn(NumRequest) -> NumResponse>(
    k: F,
    t: Triangle,
    p: Point,
) -> bool {
    exists|m1: Real, m2: Real, p1: Real, p2: Real|
        {
            &&& #[trigger] quot_diff_rel(k, t.b.y, t.a.y, t.b.x, t.a.x, m1)
            &&& #[trigger] quot_diff_rel(k, t.c.y, t.b.y, t.c.x, t.b.x, m2)
            &&& #[trigger] k_div(k, rc(R_NEG_ONE), m1, p1)
            &&& #[trigger] k_div(k, rc(R_NEG_ONE), m2, p2)
            &&& exists|w1: Real, w2: Real, s1: Real, s2: Real, num: Real, den: Real|
                {
                    &&& #[trigger] k_mul(k, rc(neg_bits_of(p1)), t.c.x, w1)
                    &&& #[trigger] k_mul(k, p2, t.a.x, w2)
                    &&& #[trigger] k_add(k, w1, w2, s1)
                    &&& #[trigger] k_add(k, s1, t.c.y, s2)
                    &&& #[trigger] k_sub(k, s2, t.a.y, num)
                    &&& #[trigger] k_sub(k, p2, p1, den)
                    &&& k_div(k, num, den, p.x)
                    &&& through_point_rel(k, p1, p.x, t.c.x, t.c.y, p.y)
                }
        }
}

/// The bit pattern of a negated float, as a value.
pub open spec fn neg_bits_of(a: Real) -> u64 {
    crate::numeric::neg_bits(a.bits)
}

/// `r` is the quotient `(ya - yb) / (xa - xb)`.
pub open spec fn quot_diff_rel<F: Fn(NumRequest) -> NumResponse>(
    k: F,
    ya: Real,
    yb: Real,
    xa: Real,
    xb: Real,
    r: Real,
) -> bool {
    exists|dy: Real, dx: Real|
        {
            &&& #[trigger] k_sub(k, ya, yb, dy)
            &&& #[trigger] k_sub(k, xa, xb, dx)
            &&& k_div(k, dy, dx, r)
        }
}

/// `y` is `sl * (x - x0) + y0`: the line of slope `sl` through `(x0, y0)`,
/// sampled at `x`.
pub open spec fn through_point_rel<F: Fn(NumRequest) -> NumResponse>(
    k: F,
    sl: Real,
    x: Real,
    x0: Real,
    y0: Real,
    y: Real,
) -> bool {
    exists|d: Real, m: Real|
        {
            &&& #[trigger] k_sub(k, x, x0, d)
            &&& #[trigger] k_mul(k, sl, d, m)
            &&& k_add(k, m, y0, y)
        }
}

/// `p` is the centroid of `t` as the kernel computes it: the arithmetic
/// mean of the vertices.
pub open spec fn centroid_rel<F: Fn(NumRequest) -> NumResponse>(k: F, t: Triangle, p: Point) -> bool {
    exists|sx1: Real, sx2: Real, sy1: Real, sy2: Real|
        {
            &&& #[trigger] k_add(k, t.a.x, t.b.x, sx1)
            &&& #[trigger] k_add(k, sx1, t.c.x, sx2)
            &&& k_div(k, sx2, rc(crate::numeric::R_THREE), p.x)
            &&& #[trigger] k_add(k, t.a.y, t.b.y, sy1)
            &&& #[trigger] k_add(k, sy1, t.c.y, sy2)
            &&& k_div(k, sy2, rc(crate::numeric::R_THREE), p.y)
        }
}

/// `p` is the circumcenter of `t` as the kernel computes it: the
/// intersection of the perpendicular bisectors of two sides.
pub open spec fn circumcenter_rel<F: Fn(NumRequest) -> NumResponse>(
    k: F,
    t: Triangle,
    p: Point,
) -> bool {
    exists|m1: Point, m2: Point, s1: Real, s2: Real, p1: Real, p2: Real|
        {
            &&& #[trigger] crate::geometry::midpoint_rel(k, t.a, t.b, m1)
            &&& #[trigger] crate::geometry::midpoint_rel(k, t.b, t.c, m2)
            &&& #[trigger] quot_diff_rel(k, t.b.y, t.a.y, t.b.x, t.a.x, s1)
            &&& #[trigger] quot_diff_rel(k, t.c.y, t.b.y, t.c.x, t.b.x, s2)
            &&& #[trigger] k_div(k, rc(R_NEG_ONE), s1, p1)
            &&& #[trigger] k_div(k, rc(R_NEG_ONE), s2, p2)
            &&& exists|w1: Real, w2: Real, u1: Real, u2: Real, num: Real, den: Real|
                {
                    &&& #[trigger] k_sub(k, m2.y, m1.y, w1)
                    &&& #[trigger] k_mul(k, p1, m1.x, u1)
                    &&& #[trigger] k_add(k, w1, u1, w2)
                    &&& #[trigger] k_mul(k, p2, m2.x, u2)
                    &&& #[trigger] k_sub(k, w2, u2, num)
                    &&& #[trigger] k_sub(k, p1, p2, den)
                    &&& k_div(k, num, den, p.x)
                    &&& through_point_rel(k, p1, p.x, m1.x, m1.y, p.y)
                }
        }
}

impl Triangle {
    /// A triangle on the three points; rejected with a message when the
    /// kernel finds them collinear (an exact equality test, not a
    /// tolerance-based one).
    pub fn new<F: Fn(NumRequest) -> NumResponse>(
        a: Point,
        b: Point,
        c: Point,
        kernel: &F,
    ) -> (out: Result<Triangle, String>)
        requires
            kernel_ok(*kernel),
        ensures
            triangle_new_rel(*kernel, a, b, c, plain_res_view(out)),
    {
        let d1 = rsub(kernel, a.x, b.x);
        let e1 = rsub(kernel, a.y, c.y);
        let m1 = rmul(kernel, d1, e1);
        let d2 = rsub(kernel, a.x, c.x);
        let e2 = rsub(kernel, a.y, b.y);
        let m2 = rmul(kernel, d2, e2);
        let eqb = rfloat_eq(kernel, m1, m2);
        proof {
            assert(collinear_rel(*kernel, a, b, c, eqb));
        }
        if eqb {
            Err("Points are collinear".to_owned())
        } else {
            Ok(Triangle { a, b, c })
        }
    }

    /// The length of the side from `p` to `q`.
    fn side<F: Fn(NumRequest) -> NumResponse>(kernel: &F, p: Point, q: Point) -> (len: Real)
        requires
            kernel_ok(*kernel),
        ensures
            side_rel(*kernel, p, q, len),
    {
        let d1 = rsub(kernel, p.x, q.x);
        let d2 = rsub(kernel, p.y, q.y);
        rhypot(kernel, d1, d2)
    }

    /// The inradius, by Heron's formula.
    pub fn inradius<F: Fn(NumRequest) -> NumResponse>(&self, kernel: &F) -> (r: Real)
        requires
            kernel_ok(*kernel),
        ensures
            inradius_rel(*kernel, *self, r),
    {
        let la = Self::side(kernel, self.b, self.c);
        let lb = Self::side(kernel, self.a, self.c);
        let lc = Self::side(kernel, self.a, self.b);
        let s1 = radd(kernel, la, lb);
        let s2 = radd(kernel, s1, lc);
        let s = rdiv(kernel, s2, Real::new(R_TWO));
        proof {
            assert(semi_rel(*kernel, la, lb, lc, s));
        }
        let t1 = rsub(kernel, s, la);
        let t2 = rsub(kernel, s, lb);
        let t3 = rsub(kernel, s, lc);
        let p1 = rmul(kernel, s, t1);
        let p2 = rmul(kernel, p1, t2);
        let p3 = rmul(kernel, p2, t3);
        let q = rsqrt(kernel, p3);
        rdiv(kernel, q, s)
    }

    /// The incenter: the side-length weighted average of the vertices.
    pub fn incenter<F: Fn(NumRequest) -> NumResponse>(&self, kernel: &F) -> (p: Point)
        requires
            kernel_ok(*kernel),
        ensures
            incenter_rel(*kernel, *self, p),
    {
        let la = Self::side(kernel, self.b, self.c);
        let lb = Self::side(kernel, self.a, self.c);
        let lc = Self::side(kernel, self.a, self.b);
        let den1 = radd(kernel, la, lb);
        let den = radd(kernel, den1, lc);
        let x = Self::weighted_avg(kernel, la, self.a.x, lb, self.b.x, lc, self.c.x, den);
        let y = Self::weighted_avg(kernel, la, self.a.y, lb, self.b.y, lc, self.c.y, den);
        Point { x, y }
    }

    /// The weighted average `(la va + lb vb + lc vc) / den`.
    fn weighted_avg<F: Fn(NumRequest) -> NumResponse>(
        kernel: &F,
        la: Real,
        va: Real,
        lb: Real,
        vb: Real,
        lc: Real,
        vc: Real,
        den: Real,
    ) -> (r: Real)
        requires
            kernel_ok(*kernel),
        ensures
            weighted_avg_rel(*kernel, la, va, lb, vb, lc, vc, den, r),
    {
        let m1 = rmul(kernel, la, va);
        let m2 = rmul(kernel, lb, vb);
        let m3 = rmul(kernel, lc, vc);
        let s1 = radd(kernel, m1, m2);
        let s2 = radd(kernel, s1, m3);
        rdiv(kernel, s2, den)
    }

    /// The orthocenter, via the perpendicular slopes of two sides.
    pub fn orthocenter<F: Fn(NumRequest) -> NumResponse>(&self, kernel: &F) -> (p: Point)
        requires
            kernel_ok(*kernel),
        ensures
            orthocenter_rel(*kernel, *self, p),
    {
        let m1 = Self::quot_diff(kernel, self.b.y, self.a.y, self.b.x, self.a.x);
        let m2 = Self::quot_diff(kernel, self.c.y, self.b.y, self.c.x, self.b.x);
        let p1 = rdiv(kernel, Real::new(R_NEG_ONE), m1);
        let p2 = rdiv(kernel, Real::new(R_NEG_ONE), m2);
        let w1 = rmul(kernel, p1.neg(), self.c.x);
        proof {
            assert(k_mul(*kernel, rc(neg_bits_of(p1)), self.c.x, w1));
        }
        let w2 = rmul(kernel, p2, self.a.x);
        let s1 = radd(kernel, w1, w2);
        let s2 = radd(kernel, s1, self.c.y);
        let num = rsub(kernel, s2, self.a.y);
        let den = rsub(kernel, p2, p1);
        let x = rdiv(kernel, num, den);
        let y = Self::through_point(kernel, p1, x, self.c.x, self.c.y);
        Point { x, y }
    }

    /// The quotient `(ya - yb) / (xa - xb)`.
    fn quot_diff<F: Fn(NumRequest) -> NumResponse>(
        kernel: &F,
        ya: Real,
        yb: Real,
        xa: Real,
        xb: Real,
    ) -> (r: Real)
        requires
            kernel_ok(*kernel),
        ensures
            quot_diff_rel(*kernel, ya, yb, xa, xb, r),
    {
        let dy = rsub(kernel, ya, yb);
        let dx = rsub(kernel, xa, xb);
        rdiv(kernel, dy, dx)
    }

    /// The line of slope `sl` through `(x0, y0)`, sampled at `x`.
    fn through_point<F: Fn(NumRequest) -> NumResponse>(
        kernel: &F,
        sl: Real,
        x: Real,
        x0: Real,
        y0: Real,
    ) -> (y: Real)
        requires
            kernel_ok(*kernel),
        ensures
            through_point_rel(*kernel, sl, x, x0, y0, y),
    {
        let d = rsub(kernel, x, x0);
        let m = rmul(kernel, sl, d);
        radd(kernel, m, y0)
    }

    /// The centroid: the arithmetic mean of the vertices.
    pub fn centroid<F: Fn(NumRequest) -> NumResponse>(&self, kernel: &F) -> (p: Point)
        requires
            kernel_ok(*kernel),
        ensures
            centroid_rel(*kernel, *self, p),
    {
        let sx1 = radd(kernel, self.a.x, self.b.x);
        let sx2 = radd(kernel, sx1, self.c.x);
        let x = rdiv(kernel, sx2, Real::new(crate::numeric::R_THREE));
        let sy1 = radd(kernel, self.a.y, self.b.y);
        let sy2 = radd(kernel, sy1, self.c.y);
        let y = rdiv(kernel, sy2, Real::new(crate::numeric::R_THREE));
        Point { x, y }
    }

    /// The circumcenter, via the perpendicular bisectors of two sides.
    pub fn circumcenter<F: Fn(NumRequest) -> NumResponse>(&self, kernel: &F) -> (p: Point)
        requires
            kernel_ok(*kernel),
        ensures
            circumcenter_rel(*kernel, *self, p),
    {
        let m1 = crate::geometry::midpoint(kernel, self.a, self.b);
        let m2 = crate::geometry::midpoint(kernel, self.b, self.c);
        let s1 = Self::quot_diff(kernel, self.b.y, self.a.y, self.b.x, self.a.x);
        let s2 = Self::quot_diff(kernel, self.c.y, self.b.y, self.c.x, self.b.x);
        let p1 = rdiv(kernel, Real::new(R_NEG_ONE), s1);
        let p2 = rdiv(kernel, Real::new(R_NEG_ONE), s2);
        let w1 = rsub(kernel, m2.y, m1.y);
        let u1 = rmul(kernel, p1, m1.x);
        let w2 = radd(kernel, w1, u1);
        let u2 = rmul(kernel, p2, m2.x);
        let num = rsub(kernel, w2, u2);
        let den = rsub(kernel, p1, p2);
        let x = rdiv(kernel, num, den);
        let y = Self::through_point(kernel, p1, x, m1.x, m1.y);
        Point { x, y }
    }
}

/// A value produced by evaluating a script: the closed tagged union of
/// everything an operation can accept or return.
#[derive(Clone, Debug, PartialEq)]
pub enum Value {
    /// An integer literal or integer arithmetic result.
    Int(i64),
    /// A float, carried as its bit pattern.
    Float(Real),
    /// A piece of text: an unresolved variable name handed to assignment,
    /// or a synthesized point label.
    Text(String),
    /// A truth value.
    Bool(bool),
    /// The placeholder a variable reference carries before substitution.
    Indeterminate,
    /// The result of the assignment operation: nothing to display.
    Undefined,
    /// A point.
    Point(Point),
    /// A triangle.
    Triangle(Triangle),
    /// An angle.
    Angle(Angle),
    /// A circle.
    Circle(Circle),
    /// A line segment.
    Lineseg(Lineseg),
}

/// The mathematical shadow of a [`Value`]: identical except that text is a
/// character sequence. Contracts speak of values through this type.
pub enum ValueV {
    /// An integer.
    Int(i64),
    /// A float bit pattern.
    Float(Real),
    /// A piece of text.
    Text(Seq<char>),
    /// A truth value.
    Bool(bool),
    /// The pre-substitution placeholder.
    Indeterminate,
    /// The no-display result of assignment.
    Undefined,
    /// A point.
    Point(Point),
    /// A triangle.
    Triangle(Triangle),
    /// An angle.
    Angle(Angle),
    /// A circle.
    Circle(Circle),
    /// A line segment.
    Lineseg(Lineseg),
}

impl View for Value {
    type V = ValueV;

    open spec fn view(&self) -> ValueV {
        match self {
            Value::Int(i) => ValueV::Int(*i),
            Value::Float(r) => ValueV::Float(*r),
            Value::Text(s) => ValueV::Text(s@),
            Value::Bool(b) => ValueV::Bool(*b),
            Value::Indeterminate => ValueV::Indeterminate,
            Value::Undefined => ValueV::Undefined,
            Value::Point(p) => ValueV::Point(*p),
            Value::Triangle(t) => ValueV::Triangle(*t),
            Value::Angle(a) => ValueV::Angle(*a),
            Value::Circle(c) => ValueV::Circle(*c),
            Value::Lineseg(l) => ValueV::Lineseg(*l),
        }
    }
}

impl Value {
    /// An independent copy with the same view. (A derived `Clone` would say
    /// nothing about the copy, so the copy is spelled out.)
    pub fn duplicate(&self) -> (r: Value)
        ensures
            r@ == self@,
    {
        match self {
            Value::Int(i) => Value::Int(*i),
            Value::Float(r) => Value::Float(*r),
            Value::Text(s) => Value::Text(s.clone()),
            Value::Bool(b) => Value::Bool(*b),
            Value::Indeterminate => Value::Indeterminate,
            Value::Undefined => Value::Undefined,
            Value::Point(p) => Value::Point(*p),
            Value::Triangle(t) => Value::Triangle(*t),
            Value::Angle(a) => Value::Angle(*a),
            Value::Circle(c) => Value::Circle(*c),
            Value::Lineseg(l) => Value::Lineseg(*l),
        }
    }
}

/// The views of a list of values.
pub open spec fn vals_view(vs: Seq<Value>) -> Seq<ValueV> {
    vs.map_values(|v: Value| v@)
}

/// The view of an evaluation outcome: the value's view on success, the
/// message's characters on failure.
pub open spec fn res_view(r: Result<Value, String>) -> Result<ValueV, Seq<char>> {
    match r {
        Ok(v) => Ok(v@),
        Err(e) => Err(e@),
    }
}

} // verus!
