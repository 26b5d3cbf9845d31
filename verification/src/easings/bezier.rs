//! Cubic bezier easing: an immutable solver built from two control points,
//! evaluated by sample-table bracketing plus guarded root refinement.
//!
//! All arithmetic is exact micro-unit fixed point; every step is pinned to
//! a spec function stating the value it produces, and the parametric guess
//! is kept inside its unit domain by clamping.

use vstd::arithmetic::div_mod::{lemma_div_is_ordered, lemma_div_multiples_vanish};
use vstd::prelude::*;

use crate::easings::math::{clamp, divf, half, spec_clamp, spec_divf, spec_half, spec_mulf, SCALE};

verus! {

/// How far a control-point coordinate may lie outside the unit square.
pub const COORD_BOUND: i64 = 100_000_000;

/// A bound every derived coefficient stays within.
pub const VALUE_BOUND: i64 = 2_000_000_000;

/// Multiply a bounded micro-unit value by a unit-domain one; the result is
/// no larger in magnitude than the first factor.
fn scale_mul(a: i64, t: i64) -> (r: i64)
    requires
        -(8 * VALUE_BOUND) <= a <= 8 * VALUE_BOUND,
        -SCALE <= t <= SCALE,
    ensures
        r == spec_mulf(a as int, t as int),
        0 <= a ==> -a <= r <= a,
        a < 0 ==> a <= r <= -a,
{
    assert(-0x7fff_ffff_ffff_ffff <= a * t <= 0x7fff_ffff_ffff_ffff) by (nonlinear_arith)
        requires
            -(8 * VALUE_BOUND) <= a <= 8 * VALUE_BOUND,
            -SCALE <= t <= SCALE,
    ;
    let p: i64 = a * t;
    proof {
        let aa = if a >= 0 {
            a as int
        } else {
            -(a as int)
        };
        assert(-(aa * SCALE) <= a * t <= aa * SCALE) by (nonlinear_arith)
            requires
                aa == (if a >= 0 {
                    a as int
                } else {
                    -(a as int)
                }),
                -SCALE <= t <= SCALE,
        ;
        if a * t >= 0 {
            lemma_div_is_ordered(a * t, aa * SCALE, SCALE as int);
        } else {
            lemma_div_is_ordered(-(a * t), aa * SCALE, SCALE as int);
        }
        lemma_div_multiples_vanish(aa, SCALE as int);
        assert((SCALE as int * aa) == (aa * SCALE)) by (nonlinear_arith);
    }
    if p >= 0 {
        p / SCALE
    } else {
        -((-p) / SCALE)
    }
}

/// A point of the curve, in micro-units per axis.
#[derive(Debug, Clone, Copy, PartialEq, Eq, Structural)]
pub struct Point {
    pub x: i64,
    pub y: i64,
}

/// A cubic bezier curve with endpoints fixed at (0,0) and (1,1), with the
/// control points pre-decomposed to polynomial coefficients:
///
/// `B(t) = ((A * t + B) * t + C) * t`, `B'(t) = 3At^2 + 2Bt + C`
///
/// where `A = 1 - 3P_2 + 3P_1`, `B = 3P_2 - 6P_1`, `C = 3P_1`.
#[derive(Debug, Clone, Copy, PartialEq, Eq, Structural)]
pub struct CubicBezier {
    pub a: Point,
    pub b: Point,
    pub c: Point,
}

/// The solver: the curve and its precalculated sample table of points and
/// parametric values.
#[derive(Debug, Clone, PartialEq)]
pub struct CubicBezierSolver {
    pub curve: CubicBezier,
    pub interpolants: Vec<(Point, i64)>,
}

/// Minimum slope at which the Newton-Raphson refinement is used.
pub const NEWTON_RAPHSON_MIN_SLOPE: i64 = 1_000;

/// The parameter distance between interior samples.
pub const SAMPLE_STEP: i64 = 100_000;

impl CubicBezier {
    /// Every coefficient is within [`VALUE_BOUND`].
    pub open spec fn wf(self) -> bool {
        &&& -VALUE_BOUND <= self.a.x <= VALUE_BOUND
        &&& -VALUE_BOUND <= self.a.y <= VALUE_BOUND
        &&& -VALUE_BOUND <= self.b.x <= VALUE_BOUND
        &&& -VALUE_BOUND <= self.b.y <= VALUE_BOUND
        &&& -VALUE_BOUND <= self.c.x <= VALUE_BOUND
        &&& -VALUE_BOUND <= self.c.y <= VALUE_BOUND
    }
}

/// One axis of `B(t)`: the Horner chain in micro-units.
pub open spec fn spec_eval_axis(a: int, b: int, c: int, t: int) -> int {
    spec_mulf(spec_mulf(spec_mulf(a, t) + b, t) + c, t)
}

fn eval_axis(a: i64, b: i64, c: i64, t: i64) -> (r: i64)
    requires
        -VALUE_BOUND <= a <= VALUE_BOUND,
        -VALUE_BOUND <= b <= VALUE_BOUND,
        -VALUE_BOUND <= c <= VALUE_BOUND,
        0 <= t <= SCALE,
    ensures
        r == spec_eval_axis(a as int, b as int, c as int, t as int),
        -(3 * VALUE_BOUND) <= r <= 3 * VALUE_BOUND,
{
    let h1 = scale_mul(a, t);
    let h2 = scale_mul(h1 + b, t);
    let h3 = scale_mul(h2 + c, t);
    h3
}

/// One axis of `B'(t)`: the derivative chain in micro-units.
pub open spec fn spec_deriv_axis(a: int, b: int, c: int, t: int) -> int {
    spec_mulf(spec_mulf(3 * a, t), t) + spec_mulf(2 * b, t) + c
}

fn deriv_axis(a: i64, b: i64, c: i64, t: i64) -> (r: i64)
    requires
        -VALUE_BOUND <= a <= VALUE_BOUND,
        -VALUE_BOUND <= b <= VALUE_BOUND,
        -VALUE_BOUND <= c <= VALUE_BOUND,
        0 <= t <= SCALE,
    ensures
        r == spec_deriv_axis(a as int, b as int, c as int, t as int),
        -(6 * VALUE_BOUND) <= r <= 6 * VALUE_BOUND,
{
    let u1 = scale_mul(3 * a, t);
    let u2 = scale_mul(u1, t);
    let u3 = scale_mul(2 * b, t);
    u2 + u3 + c
}

impl CubicBezier {
    /// `B(t)`, with the fixed endpoints returned exactly.
    pub open spec fn spec_evaluate(self, t: int) -> Point {
        if t <= 0 {
            Point { x: 0, y: 0 }
        } else if t >= SCALE as int {
            Point { x: SCALE as i64, y: SCALE as i64 }
        } else {
            Point {
                x: spec_eval_axis(self.a.x as int, self.b.x as int, self.c.x as int, t) as i64,
                y: spec_eval_axis(self.a.y as int, self.b.y as int, self.c.y as int, t) as i64,
            }
        }
    }

    /// Note: `t` here is not time, but the parametric for the bezier curve.
    /// In the easing, `x` is fractional time, and `y` is fractional output.
    fn evaluate(&self, t: i64) -> (r: Point)
        requires
            self.wf(),
        ensures
            r == self.spec_evaluate(t as int),
            -(3 * VALUE_BOUND) <= r.x <= 3 * VALUE_BOUND,
            -(3 * VALUE_BOUND) <= r.y <= 3 * VALUE_BOUND,
    {
        if t <= 0 {
            return Point { x: 0, y: 0 };
        }
        if t >= SCALE {
            return Point { x: SCALE, y: SCALE };
        }
        Point {
            x: eval_axis(self.a.x, self.b.x, self.c.x, t),
            y: eval_axis(self.a.y, self.b.y, self.c.y, t),
        }
    }

    /// The x component of `B(t)`, without the endpoint shortcut.
    fn evaluate_x(&self, t: i64) -> (r: i64)
        requires
            self.wf(),
            0 <= t <= SCALE,
        ensures
            r == spec_eval_axis(self.a.x as int, self.b.x as int, self.c.x as int, t as int),
            -(3 * VALUE_BOUND) <= r <= 3 * VALUE_BOUND,
    {
        eval_axis(self.a.x, self.b.x, self.c.x, t)
    }

    /// The y component of `B(t)`, without the endpoint shortcut.
    fn evaluate_y(&self, t: i64) -> (r: i64)
        requires
            self.wf(),
            0 <= t <= SCALE,
        ensures
            r == spec_eval_axis(self.a.y as int, self.b.y as int, self.c.y as int, t as int),
    {
        eval_axis(self.a.y, self.b.y, self.c.y, t)
    }

    /// The x component of `B'(t)`.
    fn evaluate_x_deriv(&self, t: i64) -> (r: i64)
        requires
            self.wf(),
            0 <= t <= SCALE,
        ensures
            r == spec_deriv_axis(self.a.x as int, self.b.x as int, self.c.x as int, t as int),
            -(6 * VALUE_BOUND) <= r <= 6 * VALUE_BOUND,
    {
        deriv_axis(self.a.x, self.b.x, self.c.x, t)
    }
}

/// The sample table of a curve: endpoints fixed exactly, nine interior
/// samples at every tenth of the parameter.
pub open spec fn spec_table(curve: CubicBezier) -> Seq<(Point, i64)> {
    Seq::new(11, |i: int|
        if i == 0 {
            (Point { x: 0, y: 0 }, 0i64)
        } else if i == 10 {
            (Point { x: SCALE as i64, y: SCALE as i64 }, SCALE as i64)
        } else {
            (curve.spec_evaluate(i * SAMPLE_STEP as int), (i * SAMPLE_STEP as int) as i64)
        })
}

impl CubicBezierSolver {
    /// The curve's coefficients are bounded; the table is the curve's
    /// sample table, its points bounded and its parameters in unit range.
    pub open spec fn wf(self) -> bool {
        &&& self.curve.wf()
        &&& self.interpolants@ == spec_table(self.curve)
        &&& forall|j: int|
            0 <= j < self.interpolants@.len() ==> {
                &&& -(3 * VALUE_BOUND) <= #[trigger] self.interpolants@[j].0.x <= 3 * VALUE_BOUND
                &&& -(3 * VALUE_BOUND) <= self.interpolants@[j].0.y <= 3 * VALUE_BOUND
                &&& 0 <= self.interpolants@[j].1 <= SCALE
            }
    }

    /// The curve a solver was built over.
    pub open spec fn spec_curve(self) -> CubicBezier {
        self.curve
    }
}

/// The coefficient decomposition of two control points.
pub open spec fn spec_coefficients(x1: int, y1: int, x2: int, y2: int) -> CubicBezier {
    CubicBezier {
        a: Point {
            x: (SCALE as int - 3 * x2 + 3 * x1) as i64,
            y: (SCALE as int - 3 * y2 + 3 * y1) as i64,
        },
        b: Point { x: (3 * x2 - 6 * x1) as i64, y: (3 * y2 - 6 * y1) as i64 },
        c: Point { x: (3 * x1) as i64, y: (3 * y1) as i64 },
    }
}

impl CubicBezier {
    /// Build a solver: decompose the control points into coefficients and
    /// precalculate the sample table.
    pub fn solver(x1: i64, y1: i64, x2: i64, y2: i64) -> (r: CubicBezierSolver)
        requires
            -COORD_BOUND <= x1 <= COORD_BOUND,
            -COORD_BOUND <= y1 <= COORD_BOUND,
            -COORD_BOUND <= x2 <= COORD_BOUND,
            -COORD_BOUND <= y2 <= COORD_BOUND,
        ensures
            r.wf(),
            r.spec_curve() == spec_coefficients(x1 as int, y1 as int, x2 as int, y2 as int),
    {
        let curve = CubicBezier {
            a: Point { x: SCALE - 3 * x2 + 3 * x1, y: SCALE - 3 * y2 + 3 * y1 },
            b: Point { x: 3 * x2 - 6 * x1, y: 3 * y2 - 6 * y1 },
            c: Point { x: 3 * x1, y: 3 * y1 },
        };
        let mut interpolants: Vec<(Point, i64)> = Vec::new();
        interpolants.push((Point { x: 0, y: 0 }, 0));
        let mut i: i64 = 1;
        while i < 10
            invariant
                1 <= i <= 10,
                curve.wf(),
                interpolants@.len() == i,
                forall|j: int| 0 <= j < i ==> interpolants@[j] == spec_table(curve)[j],
                forall|j: int|
                    0 <= j < i ==> {
                        &&& -(3 * VALUE_BOUND) <= #[trigger] interpolants@[j].0.x <= 3
                            * VALUE_BOUND
                        &&& -(3 * VALUE_BOUND) <= interpolants@[j].0.y <= 3 * VALUE_BOUND
                        &&& 0 <= interpolants@[j].1 <= SCALE
                    },
            decreases 10 - i,
        {
            let t = i * SAMPLE_STEP;
            let p = curve.evaluate(t);
            interpolants.push((p, t));
            i = i + 1;
        }
        interpolants.push((Point { x: SCALE, y: SCALE }, SCALE));
        proof {
            assert(interpolants@ =~= spec_table(curve));
        }
        CubicBezierSolver { curve, interpolants }
    }
}

/// The Newton-Raphson refinement: up to `fuel` steps of `t - error/slope`,
/// stopping on a flat slope, the parameter clamped into its unit domain.
pub open spec fn spec_newton(curve: CubicBezier, x: int, t: int, fuel: nat) -> int
    decreases fuel,
{
    if fuel == 0 {
        t
    } else {
        let d = spec_deriv_axis(curve.a.x as int, curve.b.x as int, curve.c.x as int, t);
        if d == 0 {
            t
        } else {
            let e = spec_eval_axis(curve.a.x as int, curve.b.x as int, curve.c.x as int, t) - x;
            let next = spec_clamp(t - spec_divf(e, d), 0, SCALE as int);
            spec_newton(curve, x, next, (fuel - 1) as nat)
        }
    }
}

/// One clamped refinement step.
fn clamp_step(t: i64, q: i64) -> (r: i64)
    requires
        0 <= t <= SCALE,
    ensures
        r == spec_clamp(t as int - q as int, 0, SCALE as int),
{
    if q >= 0 {
        if t - q < 0 {
            0
        } else {
            t - q
        }
    } else {
        if q < -SCALE {
            SCALE
        } else if t - q > SCALE {
            SCALE
        } else {
            t - q
        }
    }
}

fn newton_refine(curve: &CubicBezier, x: i64, t: i64, fuel: u32) -> (r: i64)
    requires
        curve.wf(),
        0 <= t <= SCALE,
        0 <= x <= SCALE,
    ensures
        r == spec_newton(*curve, x as int, t as int, fuel as nat),
        0 <= r <= SCALE,
    decreases fuel,
{
    if fuel == 0 {
        return t;
    }
    let d = curve.evaluate_x_deriv(t);
    if d == 0 {
        return t;
    }
    let e = curve.evaluate_x(t) - x;
    let q = divf(e, d);
    let next = clamp_step(t, q);
    newton_refine(curve, x, next, fuel - 1)
}

/// The binary-subdivision refinement: check the current guess, then bisect
/// the bracket, up to `fuel` checks, stopping on an exact hit.
pub open spec fn spec_bisect(curve: CubicBezier, x: int, ta: int, tb: int, t: int, fuel: nat) -> int
    decreases fuel,
{
    if fuel <= 1 {
        t
    } else {
        let e = spec_eval_axis(curve.a.x as int, curve.b.x as int, curve.c.x as int, t) - x;
        if e == 0 {
            t
        } else if e > 0 {
            spec_bisect(curve, x, ta, t, ta + spec_half(t - ta), (fuel - 1) as nat)
        } else {
            spec_bisect(curve, x, t, tb, t + spec_half(tb - t), (fuel - 1) as nat)
        }
    }
}

fn bisect_refine(curve: &CubicBezier, x: i64, ta: i64, tb: i64, t: i64, fuel: u32) -> (r: i64)
    requires
        curve.wf(),
        0 <= ta <= SCALE,
        0 <= tb <= SCALE,
        0 <= t <= SCALE,
        0 <= x <= SCALE,
    ensures
        r == spec_bisect(*curve, x as int, ta as int, tb as int, t as int, fuel as nat),
        0 <= r <= SCALE,
    decreases fuel,
{
    if fuel <= 1 {
        return t;
    }
    let e = curve.evaluate_x(t) - x;
    if e == 0 {
        t
    } else if e > 0 {
        let m = half(t - ta);
        bisect_refine(curve, x, ta, t, ta + m, fuel - 1)
    } else {
        let m = half(tb - t);
        bisect_refine(curve, x, t, tb, t + m, fuel - 1)
    }
}

/// The bracket scan and refinement for one time fraction: the table entry
/// at or below `x` answers directly; a strict bracket interpolates a first
/// guess and refines it by Newton-Raphson on a healthy slope, by bisection
/// on a shallow one, and not at all on a flat one.
pub open spec fn spec_scan(s: Seq<(Point, i64)>, curve: CubicBezier, x: int, i: int) -> int
    decreases s.len() - i,
{
    if i + 1 >= s.len() {
        SCALE as int
    } else {
        let pa = s[i].0;
        let ta = s[i].1;
        let pb = s[i + 1].0;
        let tb = s[i + 1].1;
        if x <= pa.x as int {
            pa.y as int
        } else if x == pb.x as int {
            pb.y as int
        } else if x < pb.x as int {
            let ratio = spec_clamp(spec_divf(x - pa.x as int, pb.x as int - pa.x as int), 0,
                SCALE as int);
            let guess = spec_clamp(ta as int + spec_mulf(tb as int - ta as int, ratio), 0,
                SCALE as int);
            let d = spec_deriv_axis(curve.a.x as int, curve.b.x as int, curve.c.x as int, guess);
            let refined = if d >= NEWTON_RAPHSON_MIN_SLOPE as int {
                spec_newton(curve, x, guess, 4)
            } else if d != 0 {
                spec_bisect(curve, x, ta as int, tb as int, guess, 10)
            } else {
                guess
            };
            spec_eval_axis(curve.a.y as int, curve.b.y as int, curve.c.y as int, refined)
        } else {
            spec_scan(s, curve, x, i + 1)
        }
    }
}

impl CubicBezierSolver {
    /// What one evaluation answers: the endpoint shortcuts, then the
    /// bracket scan.
    pub open spec fn spec_update(self, x: int) -> int {
        if x <= 0 {
            0
        } else if x >= SCALE as int {
            SCALE as int
        } else {
            spec_scan(self.interpolants@, self.curve, x, 0)
        }
    }

    fn scan(&self, x: i64, i: usize) -> (r: i64)
        requires
            self.wf(),
            0 < x < SCALE,
            i <= self.interpolants@.len(),
        ensures
            r == spec_scan(self.interpolants@, self.curve, x as int, i as int),
        decreases self.interpolants@.len() - i,
    {
        if i + 1 >= self.interpolants.len() {
            return SCALE;
        }
        let (pa, ta) = self.interpolants[i];
        let (pb, tb) = self.interpolants[i + 1];
        if x <= pa.x {
            pa.y
        } else if x == pb.x {
            pb.y
        } else if x < pb.x {
            let ratio = clamp(divf(x - pa.x, pb.x - pa.x), 0, SCALE);
            let guess = clamp(ta + scale_mul(tb - ta, ratio), 0, SCALE);
            let d = self.curve.evaluate_x_deriv(guess);
            let refined = if d >= NEWTON_RAPHSON_MIN_SLOPE {
                newton_refine(&self.curve, x, guess, 4)
            } else if d != 0 {
                bisect_refine(&self.curve, x, ta, tb, guess, 10)
            } else {
                guess
            };
            self.curve.evaluate_y(refined)
        } else {
            self.scan(x, i + 1)
        }
    }

    /// Map a time fraction to an output fraction along the curve.
    pub fn update_animation(&self, fraction: i64) -> (r: i64)
        requires
            self.wf(),
        ensures
            r == self.spec_update(fraction as int),
    {
        if fraction <= 0 {
            return 0;
        }
        if fraction >= SCALE {
            return SCALE;
        }
        self.scan(fraction, 0)
    }
}

} // verus!
