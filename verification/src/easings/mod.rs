//! The easing-curve engine: closed-form curve families, the direction
//! compositor, and the bezier and spring solvers.
//!
//! An easing maps a normalized time fraction to an output fraction. All
//! values are integers in micro-units ([`math::SCALE`] stands for 1.0), so
//! every curve is an exact function with a matching spec; the host-facing
//! layer converts its own number format at the boundary. Evaluation first
//! clamps the fraction and answers the endpoints exactly, whatever the
//! curve.

use vstd::prelude::*;

pub mod bezier;
pub mod helpers;
pub mod laws;
pub mod math;
pub mod spring;

use crate::easings::math::{
    acos_micro, clamp, cos_micro, divf, exp_neg_micro, half, isqrt_exact, mul_clamp_signed,
    mul_unit, mulf, sin_micro, spec_acos, spec_asin, spec_clamp, spec_cos, spec_divf,
    spec_exp_neg, spec_half, spec_isqrt, spec_mulf, spec_sin, HALF_PI, PI, SCALE,
};

verus! {

/// `ln(2)` in micro-units.
pub const LN2: i64 = 693_147;

/// The bounce magnification.
pub const BOUNCE_SCALE: i64 = 7_562_500;

/// Where the first bounce ends: `1/2.75`.
pub const BOUNCE_1_END: i64 = 363_636;

/// The centre of the second bounce: `1.5/2.75`.
pub const BOUNCE_2_CENTER: i64 = 545_454;

/// Where the second bounce ends: `2/2.75`.
pub const BOUNCE_2_END: i64 = 727_272;

/// The centre of the third bounce: `2.25/2.75`.
pub const BOUNCE_3_CENTER: i64 = 818_181;

/// Where the third bounce ends: `2.5/2.75`.
pub const BOUNCE_3_END: i64 = 909_090;

/// The centre of the last bounce: `2.625/2.75`.
pub const BOUNCE_4_CENTER: i64 = 954_545;

/// The height the second bounce rests on.
pub const BOUNCE_2_OFFSET: i64 = 750_000;

/// The height the third bounce rests on.
pub const BOUNCE_3_OFFSET: i64 = 937_500;

/// The height the last bounce rests on.
pub const BOUNCE_4_OFFSET: i64 = 984_375;

/// A cap the elastic oscillation terms are held inside.
pub const ELASTIC_BOUND: i64 = 1_000_000_000;

/// Which portion/reflection of a base easing curve is active.
#[derive(Debug, Clone, PartialEq)]
pub enum Direction {
    In,
    Out,
    InOut,
    OutIn,
}

/// A tagged easing curve: one family with its parameters.
#[derive(Debug, Clone, PartialEq)]
pub enum Easing {
    Linear,
    Quad(Direction),
    Cubic(Direction),
    Quart(Direction),
    Quint(Direction),
    Expo(Direction),
    Sine(Direction),
    Circ(Direction),
    Back(Direction),
    Bounce(Direction),
    CubicBezier(bezier::CubicBezierSolver),
    Spring(spring::Spring),
    Elastic { amplitude: i64, period: i64, direction: Direction },
    Steps(u32),
}

impl Easing {
    /// The constructed solvers carry their construction invariants.
    pub open spec fn wf(self) -> bool {
        match self {
            Easing::CubicBezier(solver) => solver.wf(),
            Easing::Spring(s) => s.wf(),
            _ => true,
        }
    }
}

/// The power of a unit fraction: `t` multiplied into itself `k` times.
pub open spec fn spec_power(t: int, k: nat) -> int
    decreases k,
{
    if k <= 1 {
        t
    } else {
        spec_mulf(spec_power(t, (k - 1) as nat), t)
    }
}

/// `t^k` for a unit fraction, in micro-units.
fn power(t: i64, k: u32) -> (r: i64)
    requires
        0 <= t <= SCALE,
        1 <= k,
    ensures
        r == spec_power(t as int, k as nat),
        0 <= r <= t,
    decreases k,
{
    if k <= 1 {
        t
    } else {
        let p = power(t, k - 1);
        mul_unit(p, t)
    }
}

/// The exponential curve: `2^(10(t-1))`, as the decaying exponential of
/// `10(1-t)` units of `ln 2`.
pub open spec fn spec_expo(t: int) -> int {
    spec_exp_neg(spec_mulf(10 * (SCALE as int - t), LN2 as int))
}

fn expo(t: i64) -> (r: i64)
    requires
        0 <= t <= SCALE,
    ensures
        r == spec_expo(t as int),
        -(2 * SCALE) <= r <= 2 * SCALE,
{
    exp_neg_micro(mulf(10 * (SCALE - t), LN2))
}

/// The overshoot curve: `t^2 (3t - 2)`, held inside a two-unit cap.
pub open spec fn spec_back(t: int) -> int {
    spec_clamp(spec_mulf(spec_mulf(t, t), 3 * t - 2 * (SCALE as int)), -(2 * SCALE as int), 2 * (
    SCALE as int))
}

fn back(t: i64) -> (r: i64)
    requires
        0 <= t <= SCALE,
    ensures
        r == spec_back(t as int),
        -(2 * SCALE) <= r <= 2 * SCALE,
{
    let q = mul_unit(t, t);
    mul_clamp_signed(q, 3 * t - 2 * SCALE, 2 * SCALE)
}

/// The square root of a micro-unit radicand, floored to zero: the radicand
/// is `base - sq` where `sq` never truly exceeds `base`.
pub open spec fn spec_root_gap(base: int, sq: int) -> int {
    if sq > base {
        0
    } else {
        spec_isqrt((base - sq) * (SCALE as int))
    }
}

fn root_gap(base: i64, sq: i64) -> (r: i64)
    requires
        0 <= base <= SCALE,
        0 <= sq,
    ensures
        r == spec_root_gap(base as int, sq as int),
        0 <= r <= SCALE,
{
    if sq > base {
        0
    } else {
        let root = isqrt_exact((base - sq) * SCALE);
        proof {
            assert(root as int * root as int <= SCALE as int * SCALE);
            assert(root <= SCALE) by (nonlinear_arith)
                requires
                    0 <= root,
                    root as int * root as int <= SCALE as int * SCALE,
            ;
        }
        root
    }
}

/// One magnified parabola arch of the bounce, held inside a wide cap its
/// true values never reach.
pub open spec fn spec_arch(d: int) -> int {
    spec_clamp(spec_mulf(BOUNCE_SCALE as int, spec_clamp(spec_mulf(d, d), 0, 10 * (
    SCALE as int))), 0, 100 * (SCALE as int))
}

/// A single piecewise bounce: four decreasing-amplitude parabolas.
pub open spec fn spec_bounce_out(t: int) -> int {
    if t < BOUNCE_1_END as int {
        spec_arch(t)
    } else if t < BOUNCE_2_END as int {
        spec_arch(t - BOUNCE_2_CENTER as int) + BOUNCE_2_OFFSET as int
    } else if t < BOUNCE_3_END as int {
        spec_arch(t - BOUNCE_3_CENTER as int) + BOUNCE_3_OFFSET as int
    } else {
        spec_arch(t - BOUNCE_4_CENTER as int) + BOUNCE_4_OFFSET as int
    }
}

/// One bounce arch at a signed offset from its centre.
fn arch(d: i64) -> (r: i64)
    requires
        -(4 * SCALE) <= d <= 4 * SCALE,
    ensures
        r == spec_arch(d as int),
        0 <= r <= 100 * SCALE,
{
    let q = mul_clamp_signed(d, d, 10 * SCALE);
    proof {
        assert(0 <= d as int * d as int) by (nonlinear_arith);
    }
    let m = mul_clamp_signed(BOUNCE_SCALE, q, 100 * SCALE);
    proof {
        assert(0 <= BOUNCE_SCALE as int * q as int) by (nonlinear_arith)
            requires
                0 <= q,
        ;
    }
    m
}

fn bounce_out(t: i64) -> (r: i64)
    requires
        -(2 * SCALE) <= t <= 2 * SCALE,
    ensures
        r == spec_bounce_out(t as int),
        0 <= r <= 101 * SCALE,
{
    if t < BOUNCE_1_END {
        arch(t)
    } else if t < BOUNCE_2_END {
        arch(t - BOUNCE_2_CENTER) + BOUNCE_2_OFFSET
    } else if t < BOUNCE_3_END {
        arch(t - BOUNCE_3_CENTER) + BOUNCE_3_OFFSET
    } else {
        arch(t - BOUNCE_4_CENTER) + BOUNCE_4_OFFSET
    }
}

/// The elastic curve at amplitude `a` and period `p` (both taken already
/// clamped): a decaying exponential times a sine whose phase starts at the
/// curve's peak.
pub open spec fn spec_elastic(a: int, p: int, t: int) -> int {
    let aa = spec_clamp(a, SCALE as int, 10 * (SCALE as int));
    let pp = spec_clamp(p, 100_000, 2 * (SCALE as int));
    let w = 10 * (SCALE as int - t);
    let decay = spec_exp_neg(spec_mulf(w, LN2 as int));
    let period_scale = spec_divf(math::TWO_PI as int, pp);
    let shift = spec_asin(spec_divf(SCALE as int, aa));
    let angle = -spec_clamp(spec_mulf(w, period_scale), -(ELASTIC_BOUND as int),
        ELASTIC_BOUND as int) - shift;
    -spec_clamp(spec_mulf(spec_clamp(spec_mulf(aa, decay), -(ELASTIC_BOUND as int),
        ELASTIC_BOUND as int), spec_sin(angle)), -(ELASTIC_BOUND as int), ELASTIC_BOUND as int)
}

fn elastic(a: i64, p: i64, t: i64) -> (r: i64)
    requires
        0 <= t <= SCALE,
    ensures
        r == spec_elastic(a as int, p as int, t as int),
        -ELASTIC_BOUND <= r <= ELASTIC_BOUND,
{
    let aa = clamp(a, SCALE, 10 * SCALE);
    let pp = clamp(p, 100_000, 2 * SCALE);
    let w = 10 * (SCALE - t);
    let decay = exp_neg_micro(mulf(w, LN2));
    let period_scale = divf(math::TWO_PI, pp);
    let shift = math::asin_micro(divf(SCALE, aa));
    let angle = -mul_clamp_signed(w, period_scale, ELASTIC_BOUND) - shift;
    let ad = mul_clamp_signed(aa, decay, ELASTIC_BOUND);
    let s = sin_micro(angle);
    -mul_clamp_signed(ad, s, ELASTIC_BOUND)
}

/// The base curve a compositor direction is applied to.
#[derive(Debug, Clone, Copy, PartialEq, Eq, Structural)]
pub enum BaseCurve {
    Quad,
    Cubic,
    Quart,
    Quint,
    Expo,
    Back,
    Elastic { amplitude: i64, period: i64 },
}

/// The base curve's value at a unit fraction.
pub open spec fn spec_base(base: BaseCurve, t: int) -> int {
    match base {
        BaseCurve::Quad => spec_power(t, 2),
        BaseCurve::Cubic => spec_power(t, 3),
        BaseCurve::Quart => spec_power(t, 4),
        BaseCurve::Quint => spec_power(t, 5),
        BaseCurve::Expo => spec_expo(t),
        BaseCurve::Back => spec_back(t),
        BaseCurve::Elastic { amplitude, period } => spec_elastic(amplitude as int, period as int,
            t),
    }
}

fn base_eval(base: BaseCurve, t: i64) -> (r: i64)
    requires
        0 <= t <= SCALE,
    ensures
        r == spec_base(base, t as int),
        -(2 * ELASTIC_BOUND) <= r <= 2 * ELASTIC_BOUND,
{
    match base {
        BaseCurve::Quad => power(t, 2),
        BaseCurve::Cubic => power(t, 3),
        BaseCurve::Quart => power(t, 4),
        BaseCurve::Quint => power(t, 5),
        BaseCurve::Expo => expo(t),
        BaseCurve::Back => back(t),
        BaseCurve::Elastic { amplitude, period } => elastic(amplitude, period, t),
    }
}

/// The direction compositor over a base curve `f` with `f(0) == 0` and
/// `f(1) == 1`: `In` is `f`; `Out` plays it backwards; `InOut` and `OutIn`
/// splice the two halves at the midpoint.
pub open spec fn spec_calculate(direction: Direction, base: BaseCurve, t: int) -> int {
    match direction {
        Direction::In => spec_base(base, t),
        Direction::Out => SCALE as int - spec_base(base, SCALE as int - t),
        Direction::InOut => if t < 500_000 {
            spec_half(spec_base(base, 2 * t))
        } else {
            spec_half(spec_base(base, 2 * (SCALE as int) - 2 * t))
        },
        Direction::OutIn => if t < 500_000 {
            spec_half(SCALE as int - spec_base(base, SCALE as int - 2 * t))
        } else {
            spec_half(SCALE as int + spec_base(base, 2 * t - SCALE as int))
        },
    }
}

impl Direction {
    fn calculate(&self, base: BaseCurve, t: i64) -> (r: i64)
        requires
            0 <= t <= SCALE,
        ensures
            r == spec_calculate(*self, base, t as int),
    {
        match self {
            Direction::In => base_eval(base, t),
            Direction::Out => SCALE - base_eval(base, SCALE - t),
            Direction::InOut => if t < 500_000 {
                half(base_eval(base, 2 * t))
            } else {
                half(base_eval(base, 2 * SCALE - 2 * t))
            },
            Direction::OutIn => if t < 500_000 {
                half(SCALE - base_eval(base, SCALE - 2 * t))
            } else {
                half(SCALE + base_eval(base, 2 * t - SCALE))
            },
        }
    }
}

/// The staircase curve: `ceil(t n) / n`; a zero step count leaves the
/// fraction unchanged.
pub open spec fn spec_steps(n: u32, t: int) -> int {
    if n == 0 {
        t
    } else {
        ((t * n + SCALE as int - 1) / (SCALE as int)) * (SCALE as int) / (n as int)
    }
}

fn steps_eval(n: u32, t: i64) -> (r: i64)
    requires
        0 <= t <= SCALE,
    ensures
        r == spec_steps(n, t as int),
{
    if n == 0 {
        t
    } else {
        proof {
            assert(0 <= t as int * n as int <= SCALE as int * 0xffff_ffffi64 as int)
                by (nonlinear_arith)
                requires
                    0 <= t <= SCALE,
                    1 <= n as int <= 0xffff_ffffi64 as int,
            ;
        }
        let p: i64 = t * (n as i64);
        proof {
            vstd::arithmetic::div_mod::lemma_div_is_ordered(p as int + SCALE - 1,
                SCALE as int * 0xffff_ffffi64 as int + SCALE, SCALE as int);
        }
        let c: i64 = (p + SCALE - 1) / SCALE;
        c * SCALE / (n as i64)
    }
}

/// What the dispatch answers for a clamped, interior fraction.
pub open spec fn spec_dispatch(e: Easing, t: int) -> int {
    match e {
        Easing::Linear => t,
        Easing::Quad(d) => spec_calculate(d, BaseCurve::Quad, t),
        Easing::Cubic(d) => spec_calculate(d, BaseCurve::Cubic, t),
        Easing::Quart(d) => spec_calculate(d, BaseCurve::Quart, t),
        Easing::Quint(d) => spec_calculate(d, BaseCurve::Quint, t),
        Easing::Expo(d) => spec_calculate(d, BaseCurve::Expo, t),
        Easing::Sine(Direction::In) => SCALE as int - spec_cos(spec_mulf(t, HALF_PI as int)),
        Easing::Sine(Direction::Out) => spec_sin(spec_mulf(t, HALF_PI as int)),
        Easing::Sine(Direction::InOut) => spec_half(
            SCALE as int - spec_cos(spec_mulf(t, PI as int)),
        ),
        Easing::Sine(Direction::OutIn) => spec_divf(spec_acos(SCALE as int - 2 * t), PI as int),
        Easing::Circ(Direction::In) => SCALE as int - spec_root_gap(SCALE as int, spec_mulf(t,
            t)),
        Easing::Circ(Direction::Out) => spec_root_gap(SCALE as int, spec_mulf(
            SCALE as int - t,
            SCALE as int - t,
        )),
        Easing::Circ(Direction::InOut) => if t < 500_000 {
            500_000 - spec_root_gap(250_000, spec_mulf(t, t))
        } else {
            500_000 + spec_root_gap(250_000, spec_mulf(SCALE as int - t, SCALE as int - t))
        },
        Easing::Circ(Direction::OutIn) => if t < 500_000 {
            spec_root_gap(250_000, spec_mulf(500_000 - t, 500_000 - t))
        } else {
            SCALE as int - spec_root_gap(250_000, spec_mulf(t - 500_000, t - 500_000))
        },
        Easing::Back(d) => spec_calculate(d, BaseCurve::Back, t),
        Easing::Bounce(Direction::In) => SCALE as int - spec_bounce_out(SCALE as int - t),
        Easing::Bounce(Direction::Out) => spec_bounce_out(t),
        Easing::Bounce(Direction::InOut) => if t < 500_000 {
            500_000 - spec_half(spec_bounce_out(SCALE as int - 2 * t))
        } else {
            500_000 - spec_half(spec_bounce_out(2 * (SCALE as int) - t - SCALE as int))
        },
        Easing::Bounce(Direction::OutIn) => if t < 500_000 {
            spec_half(spec_bounce_out(2 * t))
        } else {
            spec_half(spec_bounce_out(2 * (SCALE as int) - 2 * t))
        },
        Easing::CubicBezier(solver) => solver.spec_update(t),
        Easing::Spring(s) => s.spec_update(t),
        Easing::Elastic { amplitude, period, direction } => spec_calculate(direction,
            BaseCurve::Elastic { amplitude, period }, t),
        Easing::Steps(n) => spec_steps(n, t),
    }
}

/// What an evaluation answers: the fraction clamped into the unit range,
/// the endpoints answered exactly, and the interior dispatched to the
/// curve.
pub open spec fn spec_at(e: Easing, fraction: int) -> int {
    let t = spec_clamp(fraction, 0, SCALE as int);
    if t == 0 {
        0
    } else if t == SCALE as int {
        SCALE as int
    } else {
        spec_dispatch(e, t)
    }
}

impl Easing {
    /// The eased output fraction for a time fraction.
    ///
    /// At and below zero the answer is exactly zero; at and above one it
    /// is exactly one, whatever the curve. Elastic and spring curves may
    /// legitimately answer outside the unit range in between.
    pub fn at(&self, fraction: i64) -> (r: i64)
        requires
            self.wf(),
        ensures
            r == spec_at(*self, fraction as int),
            fraction <= 0 ==> r == 0,
            fraction >= SCALE ==> r == SCALE,
    {
        let t = clamp(fraction, 0, SCALE);
        if t == 0 {
            return 0;
        }
        if t == SCALE {
            return SCALE;
        }
        match self {
            Easing::Linear => t,
            Easing::Quad(d) => d.calculate(BaseCurve::Quad, t),
            Easing::Cubic(d) => d.calculate(BaseCurve::Cubic, t),
            Easing::Quart(d) => d.calculate(BaseCurve::Quart, t),
            Easing::Quint(d) => d.calculate(BaseCurve::Quint, t),
            Easing::Expo(d) => d.calculate(BaseCurve::Expo, t),
            // Flipped first quarter cosine curve
            Easing::Sine(Direction::In) => SCALE - cos_micro(mulf(t, HALF_PI)),
            // First quarter sine curve
            Easing::Sine(Direction::Out) => sin_micro(mulf(t, HALF_PI)),
            // Negative half cosine (shifted for 0-1)
            Easing::Sine(Direction::InOut) => half(SCALE - cos_micro(mulf(t, PI))),
            // Sine InOut flipped along the y = x axis
            Easing::Sine(Direction::OutIn) => divf(acos_micro(SCALE - 2 * t), PI),
            // Quarter circle, concave up
            Easing::Circ(Direction::In) => SCALE - root_gap(SCALE, mul_unit(t, t)),
            // Quarter circle, concave down
            Easing::Circ(Direction::Out) => root_gap(SCALE, mul_unit(SCALE - t, SCALE - t)),
            // Two quarter circles (up-down)
            Easing::Circ(Direction::InOut) => if t < 500_000 {
                500_000 - root_gap(250_000, mul_unit(t, t))
            } else {
                500_000 + root_gap(250_000, mul_unit(SCALE - t, SCALE - t))
            },
            // Two quarter circles (down-up)
            Easing::Circ(Direction::OutIn) => if t < 500_000 {
                root_gap(250_000, mul_unit(500_000 - t, 500_000 - t))
            } else {
                SCALE - root_gap(250_000, mul_unit(t - 500_000, t - 500_000))
            },
            Easing::Back(d) => d.calculate(BaseCurve::Back, t),
            // The bounce directions are hand-spliced rather than routed
            // through the generic compositor
            Easing::Bounce(Direction::In) => SCALE - bounce_out(SCALE - t),
            Easing::Bounce(Direction::Out) => bounce_out(t),
            Easing::Bounce(Direction::InOut) => if t < 500_000 {
                500_000 - half(bounce_out(SCALE - 2 * t))
            } else {
                500_000 - half(bounce_out(2 * SCALE - t - SCALE))
            },
            Easing::Bounce(Direction::OutIn) => if t < 500_000 {
                half(bounce_out(2 * t))
            } else {
                half(bounce_out(2 * SCALE - 2 * t))
            },
            Easing::CubicBezier(solver) => solver.update_animation(t),
            Easing::Spring(s) => s.update_animation(t),
            Easing::Elastic { amplitude, period, direction } => direction.calculate(
                BaseCurve::Elastic { amplitude: *amplitude, period: *period },
                t,
            ),
            Easing::Steps(n) => steps_eval(*n, t),
        }
    }
}

} // verus!
