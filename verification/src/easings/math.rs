//! Exact fixed-point arithmetic for the easing curves.
//!
//! Curve fractions are integers in micro-units: [`SCALE`] stands for 1.0.
//! The transcendental pieces the curves need — square root, sine and
//! cosine, the decaying exponential, and the two inverse trigonometric
//! lookups — are defined here as exact integer computations (truncated
//! series with quadrant folding), each pinned to a spec function that
//! states precisely the value it returns.

use vstd::prelude::*;

verus! {

/// Micro-units in one: curve fractions are scaled by this.
pub const SCALE: i64 = 1_000_000;

/// A quarter turn, in micro-radians.
pub const QUARTER_PI: i64 = 785_399;

/// A half turn, in micro-radians.
pub const HALF_PI: i64 = 1_570_797;

/// Half a revolution, in micro-radians.
pub const PI: i64 = 3_141_593;

/// A full revolution, in micro-radians.
pub const TWO_PI: i64 = 6_283_185;

/// What a product scaled back by [`SCALE`] is: truncating division, as the
/// machine divides.
pub open spec fn spec_mulf(a: int, b: int) -> int {
    if a * b >= 0 {
        (a * b) / (SCALE as int)
    } else {
        -((-(a * b)) / (SCALE as int))
    }
}

/// Multiply two micro-unit values.
pub fn mulf(a: i64, b: i64) -> (r: i64)
    requires
        -0x7fff_ffff_ffff_ffff <= a * b <= 0x7fff_ffff_ffff_ffff,
    ensures
        r == spec_mulf(a as int, b as int),
{
    let p: i64 = a * b;
    if p >= 0 {
        p / SCALE
    } else {
        -((-p) / SCALE)
    }
}

/// What a quotient raised by [`SCALE`] is: truncating division.
pub open spec fn spec_divf(a: int, b: int) -> int
    recommends
        b != 0,
{
    let p = a * (SCALE as int);
    if (p >= 0) == (b > 0) {
        abs_int(p) / abs_int(b)
    } else {
        -(abs_int(p) / abs_int(b))
    }
}

/// The magnitude of an integer.
pub open spec fn abs_int(a: int) -> int {
    if a >= 0 {
        a
    } else {
        -a
    }
}

/// Divide two micro-unit values, keeping the scale.
pub fn divf(a: i64, b: i64) -> (r: i64)
    requires
        b != 0,
        -0x7fff_ffff_ffff_ffff <= b,
        -0x7fff_ffff_ffff_ffff <= a * SCALE <= 0x7fff_ffff_ffff_ffff,
    ensures
        r == spec_divf(a as int, b as int),
{
    let p: i64 = a * SCALE;
    if p >= 0 {
        if b > 0 {
            p / b
        } else {
            -(p / (-b))
        }
    } else {
        if b > 0 {
            -((-p) / b)
        } else {
            (-p) / (-b)
        }
    }
}

/// `r` is the integer square root of `n`.
pub open spec fn is_isqrt(n: int, r: int) -> bool {
    &&& 0 <= r
    &&& r * r <= n
    &&& n < (r + 1) * (r + 1)
}

/// The integer square root, by bisection.
pub fn isqrt(n: i64) -> (r: i64)
    requires
        0 <= n,
    ensures
        is_isqrt(n as int, r as int),
{
    if n == 0 {
        return 0;
    }
    let mut lo: i64 = 0;
    let mut hi: i64 = 3_037_000_500;
    assert(n < hi * hi);
    while hi - lo > 1
        invariant
            0 <= lo < hi <= 3_037_000_500,
            lo * lo <= n,
            n < hi * hi,
        decreases hi - lo,
    {
        let mid: i64 = lo + (hi - lo) / 2;
        assert(mid * mid <= 3_037_000_499i64 * 3_037_000_499) by (nonlinear_arith)
            requires
                0 <= mid <= 3_037_000_499i64,
        ;
        if mid * mid <= n {
            lo = mid;
        } else {
            hi = mid;
        }
    }
    lo
}

/// The model sine on the first eighth of a turn: the degree-seven series,
/// term by term in micro-units.
pub open spec fn spec_sin_quarter(x: int) -> int {
    let s = SCALE as int;
    let t2 = (x * x) / s;
    let t3 = (t2 * x) / s;
    let t5 = (t3 * t2) / s;
    let t7 = (t5 * t2) / s;
    x - t3 / 6 + t5 / 120 - t7 / 5040
}

fn sin_quarter(x: i64) -> (r: i64)
    requires
        0 <= x <= QUARTER_PI,
    ensures
        r == spec_sin_quarter(x as int),
        -SCALE <= r <= SCALE,
{
    assert(x * x <= QUARTER_PI as int * QUARTER_PI as int) by (nonlinear_arith)
        requires
            0 <= x <= QUARTER_PI,
    ;
    let t2: i64 = (x * x) / SCALE;
    assert(t2 * x <= 616_852i64 * QUARTER_PI as int && 0 <= t2 * x) by (nonlinear_arith)
        requires
            0 <= t2 <= 616_852i64,
            0 <= x <= QUARTER_PI,
    ;
    let t3: i64 = (t2 * x) / SCALE;
    assert(t3 * t2 <= 484_474i64 * 616_852 && 0 <= t3 * t2) by (nonlinear_arith)
        requires
            0 <= t3 <= 484_474i64,
            0 <= t2 <= 616_852i64,
    ;
    let t5: i64 = (t3 * t2) / SCALE;
    assert(t5 * t2 <= 298_856i64 * 616_852 && 0 <= t5 * t2) by (nonlinear_arith)
        requires
            0 <= t5 <= 298_856i64,
            0 <= t2 <= 616_852i64,
    ;
    let t7: i64 = (t5 * t2) / SCALE;
    x - t3 / 6 + t5 / 120 - t7 / 5040
}

/// The model cosine on the first eighth of a turn: the degree-eight series,
/// term by term in micro-units.
pub open spec fn spec_cos_quarter(x: int) -> int {
    let s = SCALE as int;
    let t2 = (x * x) / s;
    let t4 = (t2 * t2) / s;
    let t6 = (t4 * t2) / s;
    let t8 = (t6 * t2) / s;
    (SCALE as int) - t2 / 2 + t4 / 24 - t6 / 720 + t8 / 40320
}

fn cos_quarter(x: i64) -> (r: i64)
    requires
        0 <= x <= QUARTER_PI,
    ensures
        r == spec_cos_quarter(x as int),
        -SCALE <= r <= SCALE + SCALE,
{
    assert(x * x <= QUARTER_PI as int * QUARTER_PI as int) by (nonlinear_arith)
        requires
            0 <= x <= QUARTER_PI,
    ;
    let t2: i64 = (x * x) / SCALE;
    assert(t2 * t2 <= 616_852i64 * 616_852 && 0 <= t2 * t2) by (nonlinear_arith)
        requires
            0 <= t2 <= 616_852i64,
    ;
    let t4: i64 = (t2 * t2) / SCALE;
    assert(t4 * t2 <= 380_507i64 * 616_852 && 0 <= t4 * t2) by (nonlinear_arith)
        requires
            0 <= t4 <= 380_507i64,
            0 <= t2 <= 616_852i64,
    ;
    let t6: i64 = (t4 * t2) / SCALE;
    assert(t6 * t2 <= 234_727i64 * 616_852 && 0 <= t6 * t2) by (nonlinear_arith)
        requires
            0 <= t6 <= 234_727i64,
            0 <= t2 <= 616_852i64,
    ;
    let t8: i64 = (t6 * t2) / SCALE;
    SCALE - t2 / 2 + t4 / 24 - t6 / 720 + t8 / 40320
}

/// The model sine on the first quarter turn: the series around whichever of
/// the two ends is nearer.
pub open spec fn spec_sin_half(x: int) -> int {
    if x <= QUARTER_PI as int {
        spec_sin_quarter(x)
    } else {
        spec_cos_quarter(HALF_PI as int - x)
    }
}

fn sin_half(x: i64) -> (r: i64)
    requires
        0 <= x <= HALF_PI,
    ensures
        r == spec_sin_half(x as int),
        -(2 * SCALE) <= r <= 2 * SCALE,
{
    if x <= QUARTER_PI {
        sin_quarter(x)
    } else {
        cos_quarter(HALF_PI - x)
    }
}

/// The model sine of a nonnegative angle, folded into the first quarter
/// turn by period and quadrant.
pub open spec fn spec_sin_pos(x: int) -> int {
    let u = x % (TWO_PI as int);
    if u <= HALF_PI as int {
        spec_sin_half(u)
    } else if u <= PI as int {
        spec_sin_half(PI as int - u)
    } else if u <= PI as int + HALF_PI as int {
        -spec_sin_half(u - PI as int)
    } else {
        -spec_sin_half(TWO_PI as int - u)
    }
}

/// The model sine everywhere: an odd function of the folded angle.
pub open spec fn spec_sin(x: int) -> int {
    if x < 0 {
        -spec_sin_pos(-x)
    } else {
        spec_sin_pos(x)
    }
}

/// The model sine of a micro-radian angle.
pub fn sin_micro(x: i64) -> (r: i64)
    requires
        -0x7fff_ffff_ffff_ffff <= x,
    ensures
        r == spec_sin(x as int),
        -(2 * SCALE) <= r <= 2 * SCALE,
{
    let neg = x < 0;
    let a: i64 = if neg {
        -x
    } else {
        x
    };
    let u: i64 = a % TWO_PI;
    let m: i64 = if u <= HALF_PI {
        sin_half(u)
    } else if u <= PI {
        sin_half(PI - u)
    } else if u <= PI + HALF_PI {
        let w = sin_half(u - PI);
        -w
    } else {
        let w = sin_half(TWO_PI - u);
        -w
    };
    if neg {
        -m
    } else {
        m
    }
}

/// The model cosine: the sine a quarter turn along.
pub open spec fn spec_cos(x: int) -> int {
    spec_sin(abs_int(x) % (TWO_PI as int) + HALF_PI as int)
}

/// The model cosine of a micro-radian angle.
pub fn cos_micro(x: i64) -> (r: i64)
    requires
        -0x7fff_ffff_ffff_ffff <= x,
    ensures
        r == spec_cos(x as int),
        -(2 * SCALE) <= r <= 2 * SCALE,
{
    let u: i64 = if x < 0 {
        (-x) % TWO_PI
    } else {
        x % TWO_PI
    };
    sin_micro(u + HALF_PI)
}

/// The reciprocal of Euler's number, in micro-units.
pub const E_INV: i64 = 367_879;

/// `E_INV` taken to a power, one scaled multiplication at a time.
pub open spec fn spec_pow_einv(q: nat) -> int
    decreases q,
{
    if q == 0 {
        SCALE as int
    } else {
        spec_mulf(spec_pow_einv((q - 1) as nat), E_INV as int)
    }
}

/// The model decaying exponential on one unit: the degree-eight series in
/// micro-units.
pub open spec fn spec_exp_frac(x: int) -> int {
    let s = SCALE as int;
    let t2 = (x * x) / s;
    let t3 = (t2 * x) / s;
    let t4 = (t3 * x) / s;
    let t5 = (t4 * x) / s;
    let t6 = (t5 * x) / s;
    let t7 = (t6 * x) / s;
    let t8 = (t7 * x) / s;
    s - x + t2 / 2 - t3 / 6 + t4 / 24 - t5 / 120 + t6 / 720 - t7 / 5040 + t8 / 40320
}

fn exp_frac(x: i64) -> (r: i64)
    requires
        0 <= x < SCALE,
    ensures
        r == spec_exp_frac(x as int),
        -SCALE <= r <= 2 * SCALE,
{
    assert(x * x < SCALE as int * SCALE as int && 0 <= x * x) by (nonlinear_arith)
        requires
            0 <= x < SCALE,
    ;
    let t2: i64 = (x * x) / SCALE;
    assert(t2 * x < SCALE as int * SCALE as int && 0 <= t2 * x) by (nonlinear_arith)
        requires
            0 <= t2 < SCALE,
            0 <= x < SCALE,
    ;
    let t3: i64 = (t2 * x) / SCALE;
    assert(t3 * x < SCALE as int * SCALE as int && 0 <= t3 * x) by (nonlinear_arith)
        requires
            0 <= t3 < SCALE,
            0 <= x < SCALE,
    ;
    let t4: i64 = (t3 * x) / SCALE;
    assert(t4 * x < SCALE as int * SCALE as int && 0 <= t4 * x) by (nonlinear_arith)
        requires
            0 <= t4 < SCALE,
            0 <= x < SCALE,
    ;
    let t5: i64 = (t4 * x) / SCALE;
    assert(t5 * x < SCALE as int * SCALE as int && 0 <= t5 * x) by (nonlinear_arith)
        requires
            0 <= t5 < SCALE,
            0 <= x < SCALE,
    ;
    let t6: i64 = (t5 * x) / SCALE;
    assert(t6 * x < SCALE as int * SCALE as int && 0 <= t6 * x) by (nonlinear_arith)
        requires
            0 <= t6 < SCALE,
            0 <= x < SCALE,
    ;
    let t7: i64 = (t6 * x) / SCALE;
    assert(t7 * x < SCALE as int * SCALE as int && 0 <= t7 * x) by (nonlinear_arith)
        requires
            0 <= t7 < SCALE,
            0 <= x < SCALE,
    ;
    let t8: i64 = (t7 * x) / SCALE;
    SCALE - x + t2 / 2 - t3 / 6 + t4 / 24 - t5 / 120 + t6 / 720 - t7 / 5040 + t8 / 40320
}

/// The model decaying exponential: whole units by repeated `E_INV` factors,
/// the remainder by the series.
pub open spec fn spec_exp_neg(x: int) -> int
    recommends
        x >= 0,
{
    spec_mulf(spec_pow_einv((x / (SCALE as int)) as nat), spec_exp_frac(x % (SCALE as int)))
}

/// The model of `e^(-x)` for a nonnegative micro-unit exponent.
pub fn exp_neg_micro(x: i64) -> (r: i64)
    requires
        0 <= x <= 100_000_000,
    ensures
        r == spec_exp_neg(x as int),
        -(2 * SCALE) <= r <= 2 * SCALE,
{
    let q: i64 = x / SCALE;
    let rem: i64 = x % SCALE;
    let mut p: i64 = SCALE;
    let mut i: i64 = 0;
    while i < q
        invariant
            0 <= i <= q <= 100,
            p == spec_pow_einv(i as nat),
            0 <= p <= SCALE,
        decreases q - i,
    {
        p = mulf(p, E_INV);
        assert(0 <= p <= SCALE) by (nonlinear_arith)
            requires
                p == spec_mulf(spec_pow_einv(i as nat), E_INV as int),
                0 <= spec_pow_einv(i as nat) <= SCALE,
        ;
        i = i + 1;
    }
    let f = exp_frac(rem);
    assert(-(2_000_000_000_000i64 as int) <= p * f <= 2_000_000_000_000i64 as int) by (nonlinear_arith)
        requires
            0 <= p <= SCALE,
            -SCALE <= f <= 2 * SCALE,
    ;
    let r = mulf(p, f);
    assert(-(2 * SCALE) <= r <= 2 * SCALE);
    r
}


/// The integer square root as a mathematical function, counted up one step
/// at a time.
pub open spec fn spec_isqrt(n: int) -> int
    decreases n,
{
    if n < 1 {
        0
    } else {
        let p = spec_isqrt(n - 1);
        if (p + 1) * (p + 1) <= n {
            p + 1
        } else {
            p
        }
    }
}

/// Any two integer square roots of the same number agree.
proof fn lemma_isqrt_unique(n: int, a: int, b: int)
    requires
        is_isqrt(n, a),
        is_isqrt(n, b),
    ensures
        a == b,
{
    if a < b {
        assert((a + 1) * (a + 1) <= b * b) by (nonlinear_arith)
            requires
                0 <= a,
                0 <= b,
                a + 1 <= b,
        ;
    }
    if b < a {
        assert((b + 1) * (b + 1) <= a * a) by (nonlinear_arith)
            requires
                0 <= a,
                0 <= b,
                b + 1 <= a,
        ;
    }
}

/// [`spec_isqrt`] is an integer square root.
proof fn lemma_spec_isqrt_is(n: int)
    requires
        0 <= n,
    ensures
        is_isqrt(n, spec_isqrt(n)),
    decreases n,
{
    if n < 1 {
        assert(is_isqrt(n, 0));
    } else {
        lemma_spec_isqrt_is(n - 1);
        let p = spec_isqrt(n - 1);
        if (p + 1) * (p + 1) <= n {
            assert((p + 2) * (p + 2) > n) by (nonlinear_arith)
                requires
                    0 <= p,
                    n - 1 < (p + 1) * (p + 1),
            ;
        }
    }
}

/// The integer square root, pinned to [`spec_isqrt`].
pub fn isqrt_exact(n: i64) -> (r: i64)
    requires
        0 <= n,
    ensures
        r == spec_isqrt(n as int),
        is_isqrt(n as int, r as int),
{
    let r = isqrt(n);
    proof {
        lemma_spec_isqrt_is(n as int);
        lemma_isqrt_unique(n as int, r as int, spec_isqrt(n as int));
    }
    r
}

/// Truncating halving, as the machine halves a signed value.
pub open spec fn spec_half(v: int) -> int {
    if v >= 0 {
        v / 2
    } else {
        -((-v) / 2)
    }
}

/// Halve a signed micro-unit value.
pub fn half(v: i64) -> (r: i64)
    requires
        -0x7fff_ffff_ffff_ffff <= v,
    ensures
        r == spec_half(v as int),
{
    if v >= 0 {
        v / 2
    } else {
        -((-v) / 2)
    }
}

/// A value forced into a closed interval.
pub open spec fn spec_clamp(v: int, lo: int, hi: int) -> int {
    if v < lo {
        lo
    } else if v > hi {
        hi
    } else {
        v
    }
}

/// Force a value into a closed interval.
pub fn clamp(v: i64, lo: i64, hi: i64) -> (r: i64)
    requires
        lo <= hi,
    ensures
        r == spec_clamp(v as int, lo as int, hi as int),
{
    if v < lo {
        lo
    } else if v > hi {
        hi
    } else {
        v
    }
}

/// The model arcsine: bisection of the model sine over the first quarter
/// turn, to micro-radian precision.
pub open spec fn spec_asin_step(y: int, lo: int, hi: int, fuel: nat) -> int
    decreases fuel,
{
    if fuel == 0 || hi - lo <= 1 {
        lo
    } else {
        let mid = lo + (hi - lo) / 2;
        if spec_sin_half(mid) <= y {
            spec_asin_step(y, mid, hi, (fuel - 1) as nat)
        } else {
            spec_asin_step(y, lo, mid, (fuel - 1) as nat)
        }
    }
}

/// The model arcsine of a micro-unit value in [0, 1].
pub open spec fn spec_asin(y: int) -> int {
    spec_asin_step(y, 0, HALF_PI as int, 24)
}

fn asin_step(y: i64, lo: i64, hi: i64, fuel: u32) -> (r: i64)
    requires
        0 <= lo <= hi <= HALF_PI,
    ensures
        r == spec_asin_step(y as int, lo as int, hi as int, fuel as nat),
    decreases fuel,
{
    if fuel == 0 || hi - lo <= 1 {
        lo
    } else {
        let mid = lo + (hi - lo) / 2;
        let s = sin_half(mid);
        if s <= y {
            asin_step(y, mid, hi, fuel - 1)
        } else {
            asin_step(y, lo, mid, fuel - 1)
        }
    }
}

/// The model arcsine of a micro-unit value.
pub fn asin_micro(y: i64) -> (r: i64)
    ensures
        r == spec_asin(y as int),
        0 <= r <= HALF_PI,
{
    let r = asin_step(y, 0, HALF_PI, 24);
    proof {
        lemma_asin_step_range(y as int, 0, HALF_PI as int, 24);
    }
    r
}

proof fn lemma_asin_step_range(y: int, lo: int, hi: int, fuel: nat)
    requires
        0 <= lo <= hi,
    ensures
        lo <= spec_asin_step(y, lo, hi, fuel) <= hi,
    decreases fuel,
{
    if !(fuel == 0 || hi - lo <= 1) {
        let mid = lo + (hi - lo) / 2;
        if spec_sin_half(mid) <= y {
            lemma_asin_step_range(y, mid, hi, (fuel - 1) as nat);
        } else {
            lemma_asin_step_range(y, lo, mid, (fuel - 1) as nat);
        }
    }
}

/// The model arccosine: bisection of the model cosine over the first half
/// turn, to micro-radian precision.
pub open spec fn spec_acos_step(y: int, lo: int, hi: int, fuel: nat) -> int
    decreases fuel,
{
    if fuel == 0 || hi - lo <= 1 {
        lo
    } else {
        let mid = lo + (hi - lo) / 2;
        if spec_cos(mid) >= y {
            spec_acos_step(y, mid, hi, (fuel - 1) as nat)
        } else {
            spec_acos_step(y, lo, mid, (fuel - 1) as nat)
        }
    }
}

/// The model arccosine of a micro-unit value.
pub open spec fn spec_acos(y: int) -> int {
    spec_acos_step(y, 0, PI as int, 25)
}

fn acos_step(y: i64, lo: i64, hi: i64, fuel: u32) -> (r: i64)
    requires
        0 <= lo <= hi <= PI,
    ensures
        r == spec_acos_step(y as int, lo as int, hi as int, fuel as nat),
    decreases fuel,
{
    if fuel == 0 || hi - lo <= 1 {
        lo
    } else {
        let mid = lo + (hi - lo) / 2;
        let c = cos_micro(mid);
        if c >= y {
            acos_step(y, mid, hi, fuel - 1)
        } else {
            acos_step(y, lo, mid, fuel - 1)
        }
    }
}

proof fn lemma_acos_step_range(y: int, lo: int, hi: int, fuel: nat)
    requires
        0 <= lo <= hi,
    ensures
        lo <= spec_acos_step(y, lo, hi, fuel) <= hi,
    decreases fuel,
{
    if !(fuel == 0 || hi - lo <= 1) {
        let mid = lo + (hi - lo) / 2;
        if spec_cos(mid) >= y {
            lemma_acos_step_range(y, mid, hi, (fuel - 1) as nat);
        } else {
            lemma_acos_step_range(y, lo, mid, (fuel - 1) as nat);
        }
    }
}

/// The model arccosine of a micro-unit value.
pub fn acos_micro(y: i64) -> (r: i64)
    ensures
        r == spec_acos(y as int),
        0 <= r <= PI,
{
    let r = acos_step(y, 0, PI, 25);
    proof {
        lemma_acos_step_range(y as int, 0, PI as int, 25);
    }
    r
}


/// Pin the integer square root of a number to [`spec_isqrt`].
pub proof fn lemma_isqrt_value(n: int, r: int)
    requires
        0 <= n,
        is_isqrt(n, r),
    ensures
        spec_isqrt(n) == r,
{
    lemma_spec_isqrt_is(n);
    lemma_isqrt_unique(n, r, spec_isqrt(n));
}

/// A scaled product of nonnegative values, held below a cap.
pub fn mul_div_clamp(a: i64, b: i64, hi: i64) -> (r: i64)
    requires
        0 <= a,
        0 <= b,
        0 <= hi,
    ensures
        r == spec_clamp(spec_mulf(a as int, b as int), 0, hi as int),
{
    assert((a as i128) * (b as i128) <= 0x8000_0000_0000_0000_i128 * 0x8000_0000_0000_0000
        && -(0x8000_0000_0000_0000_i128 * 0x8000_0000_0000_0000) <= (a as i128) * (b as i128))
        by (nonlinear_arith)
        requires
            -0x8000_0000_0000_0000_i128 <= a as i128 <= 0x7fff_ffff_ffff_ffff_i128,
            -0x8000_0000_0000_0000_i128 <= b as i128 <= 0x7fff_ffff_ffff_ffff_i128,
    ;
    let p: i128 = (a as i128) * (b as i128);
    let q: i128 = p / (SCALE as i128);
    if q > hi as i128 {
        hi
    } else {
        q as i64
    }
}

/// A scaled product of signed values, held inside a symmetric cap.
pub fn mul_clamp_signed(a: i64, b: i64, bound: i64) -> (r: i64)
    requires
        0 < bound,
    ensures
        r == spec_clamp(spec_mulf(a as int, b as int), -(bound as int), bound as int),
{
    assert((a as i128) * (b as i128) <= 0x8000_0000_0000_0000_i128 * 0x8000_0000_0000_0000
        && -(0x8000_0000_0000_0000_i128 * 0x8000_0000_0000_0000) <= (a as i128) * (b as i128))
        by (nonlinear_arith)
        requires
            -0x8000_0000_0000_0000_i128 <= a as i128 <= 0x7fff_ffff_ffff_ffff_i128,
            -0x8000_0000_0000_0000_i128 <= b as i128 <= 0x7fff_ffff_ffff_ffff_i128,
    ;
    let p: i128 = (a as i128) * (b as i128);
    let q: i128 = if p >= 0 {
        p / (SCALE as i128)
    } else {
        -((-p) / (SCALE as i128))
    };
    if q > bound as i128 {
        bound
    } else if q < -(bound as i128) {
        -bound
    } else {
        q as i64
    }
}

/// A scaled product of nonnegative values, folded into one revolution.
pub fn mul_mod_two_pi(a: i64, b: i64) -> (r: i64)
    requires
        0 <= a,
        0 <= b,
    ensures
        r == spec_mulf(a as int, b as int) % (TWO_PI as int),
        0 <= r < TWO_PI,
{
    assert((a as i128) * (b as i128) <= 0x8000_0000_0000_0000_i128 * 0x8000_0000_0000_0000
        && -(0x8000_0000_0000_0000_i128 * 0x8000_0000_0000_0000) <= (a as i128) * (b as i128))
        by (nonlinear_arith)
        requires
            -0x8000_0000_0000_0000_i128 <= a as i128 <= 0x7fff_ffff_ffff_ffff_i128,
            -0x8000_0000_0000_0000_i128 <= b as i128 <= 0x7fff_ffff_ffff_ffff_i128,
    ;
    let p: i128 = (a as i128) * (b as i128);
    let q: i128 = p / (SCALE as i128);
    (q % (TWO_PI as i128)) as i64
}


/// Multiply a bounded micro-unit value by a unit-domain one; the result is
/// no larger in magnitude than the first factor.
pub fn mul_unit(a: i64, b: i64) -> (r: i64)
    requires
        -2_000_000_000_000 <= a <= 2_000_000_000_000i64,
        -SCALE <= b <= SCALE,
    ensures
        r == spec_mulf(a as int, b as int),
        0 <= a ==> -a <= r <= a,
        a < 0 ==> a <= r <= -a,
{
    assert(-0x7fff_ffff_ffff_ffff <= a * b <= 0x7fff_ffff_ffff_ffff) by (nonlinear_arith)
        requires
            -2_000_000_000_000 <= a <= 2_000_000_000_000i64,
            -SCALE <= b <= SCALE,
    ;
    let p: i64 = a * b;
    proof {
        let aa = if a >= 0 {
            a as int
        } else {
            -(a as int)
        };
        assert(-(aa * SCALE) <= a * b <= aa * SCALE) by (nonlinear_arith)
            requires
                aa == (if a >= 0 {
                    a as int
                } else {
                    -(a as int)
                }),
                -SCALE <= b <= SCALE,
        ;
        if a * b >= 0 {
            vstd::arithmetic::div_mod::lemma_div_is_ordered(a * b, aa * SCALE, SCALE as int);
        } else {
            vstd::arithmetic::div_mod::lemma_div_is_ordered(-(a * b), aa * SCALE, SCALE as int);
        }
        vstd::arithmetic::div_mod::lemma_div_multiples_vanish(aa, SCALE as int);
        assert((SCALE as int * aa) == (aa * SCALE)) by (nonlinear_arith);
    }
    if p >= 0 {
        p / SCALE
    } else {
        -((-p) / SCALE)
    }
}


/// [`spec_isqrt`] of a nonnegative number is its integer square root.
pub proof fn lemma_isqrt_facts(n: int)
    requires
        0 <= n,
    ensures
        is_isqrt(n, spec_isqrt(n)),
{
    lemma_spec_isqrt_is(n);
}

/// Integer square roots keep the order of their radicands.
pub proof fn lemma_isqrt_monotone(n1: int, n2: int)
    requires
        0 <= n1 <= n2,
    ensures
        spec_isqrt(n1) <= spec_isqrt(n2),
{
    lemma_spec_isqrt_is(n1);
    lemma_spec_isqrt_is(n2);
    let r1 = spec_isqrt(n1);
    let r2 = spec_isqrt(n2);
    if r1 > r2 {
        assert((r2 + 1) * (r2 + 1) <= r1 * r1) by (nonlinear_arith)
            requires
                0 <= r2,
                r2 + 1 <= r1,
        ;
    }
}

} // verus!
