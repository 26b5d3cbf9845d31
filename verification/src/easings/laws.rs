//! Laws of the curve engine, stated over the evaluation spec.

use vstd::arithmetic::div_mod::lemma_div_is_ordered;
use vstd::prelude::*;

use crate::easings::math::{
    is_isqrt, lemma_isqrt_value, spec_clamp, spec_divf, spec_mulf, SCALE,
};
use crate::easings::spring::{spec_new, SpringInner, SpringProps};
use crate::easings::{
    spec_at, spec_power, spec_steps, BaseCurve, Direction, Easing,
};

verus! {

/// Every curve starts exactly at zero and ends exactly at one: at or below
/// a zero fraction the answer is zero, at or above a full fraction it is
/// one, whatever the easing.
pub proof fn lemma_endpoints(e: Easing, fraction: int)
    ensures
        fraction <= 0 ==> spec_at(e, fraction) == 0,
        fraction >= SCALE as int ==> spec_at(e, fraction) == SCALE as int,
{
}

/// A scaled product of larger nonnegative factors is no smaller.
proof fn lemma_mulf_monotone(a1: int, a2: int, b1: int, b2: int)
    requires
        0 <= a1 <= a2,
        0 <= b1 <= b2,
    ensures
        spec_mulf(a1, b1) <= spec_mulf(a2, b2),
        0 <= spec_mulf(a1, b1),
{
    assert(a1 * b1 <= a2 * b2 && 0 <= a1 * b1) by (nonlinear_arith)
        requires
            0 <= a1 <= a2,
            0 <= b1 <= b2,
    ;
    lemma_div_is_ordered(a1 * b1, a2 * b2, SCALE as int);
}

/// Powers of unit fractions keep their order, and never exceed their base.
proof fn lemma_power_monotone(t1: int, t2: int, k: nat)
    requires
        0 <= t1 <= t2 <= SCALE,
    ensures
        spec_power(t1, k) <= spec_power(t2, k),
        0 <= spec_power(t1, k) <= t1,
    decreases k,
{
    if k <= 1 {
    } else {
        lemma_power_monotone(t1, t2, (k - 1) as nat);
        lemma_mulf_monotone(spec_power(t1, (k - 1) as nat), spec_power(t2, (k - 1) as nat), t1,
            t2);
        lemma_mulf_monotone(spec_power(t1, (k - 1) as nat), t1, t1, SCALE as int);
        vstd::arithmetic::div_mod::lemma_div_multiples_vanish(t1, SCALE as int);
        assert(t1 * (SCALE as int) == (SCALE as int) * t1) by (nonlinear_arith);
    }
}

/// Which power family an easing belongs to, if any.
pub open spec fn power_order(e: Easing) -> Option<(nat, Direction)> {
    match e {
        Easing::Quad(d) => Some((2nat, d)),
        Easing::Cubic(d) => Some((3nat, d)),
        Easing::Quart(d) => Some((4nat, d)),
        Easing::Quint(d) => Some((5nat, d)),
        _ => None,
    }
}

/// The power curves with direction `In` or `Out` are non-decreasing over
/// the whole unit domain.
pub proof fn lemma_power_in_out_monotone(e: Easing, f1: int, f2: int)
    requires
        f1 <= f2,
        power_order(e) matches Some((k, d)) && (d == Direction::In || d == Direction::Out),
    ensures
        spec_at(e, f1) <= spec_at(e, f2),
{
    let (k, d) = power_order(e).unwrap();
    let t1 = spec_clamp(f1, 0, SCALE as int);
    let t2 = spec_clamp(f2, 0, SCALE as int);
    lemma_power_monotone(t1, t2, k);
    lemma_power_monotone(SCALE as int - t2, SCALE as int - t1, k);
    lemma_power_monotone(0, t1, k);
    lemma_power_monotone(0, SCALE as int - t1, k);
    lemma_power_monotone(t2, SCALE as int, k);
    lemma_power_monotone(SCALE as int - t2, SCALE as int, k);
}

/// A narrower gap under the same base keeps the root-gap order.
proof fn lemma_root_gap_antitone(base: int, sq1: int, sq2: int)
    requires
        0 <= base <= SCALE,
        0 <= sq1 <= sq2,
    ensures
        crate::easings::spec_root_gap(base, sq2) <= crate::easings::spec_root_gap(base, sq1),
        0 <= crate::easings::spec_root_gap(base, sq1) <= SCALE,
{
    if sq1 <= base {
        crate::easings::math::lemma_isqrt_monotone((base - sq1) * (SCALE as int), SCALE as int
            * SCALE);
        assert(crate::easings::math::is_isqrt(SCALE as int * SCALE, SCALE as int))
            by (nonlinear_arith);
        crate::easings::math::lemma_isqrt_value(SCALE as int * SCALE, SCALE as int);
        crate::easings::math::lemma_isqrt_facts((base - sq1) * (SCALE as int));
        if sq2 <= base {
            lemma_isqrt_gap_pair(base, sq1, sq2);
        }
    }
}

/// The two radicands of an ordered pair of gaps keep their root order.
proof fn lemma_isqrt_gap_pair(base: int, sq1: int, sq2: int)
    requires
        0 <= sq1 <= sq2 <= base <= SCALE,
    ensures
        crate::easings::math::spec_isqrt((base - sq2) * (SCALE as int)) <= crate::easings::math::spec_isqrt(
            (base - sq1) * (SCALE as int),
        ),
{
    crate::easings::math::lemma_isqrt_monotone((base - sq2) * (SCALE as int), (base - sq1) * (
    SCALE as int));
}

/// The quarter-circle curves with direction `In` or `Out` are
/// non-decreasing over the whole unit domain.
pub proof fn lemma_circ_in_out_monotone(e: Easing, f1: int, f2: int)
    requires
        f1 <= f2,
        e == Easing::Circ(Direction::In) || e == Easing::Circ(Direction::Out),
    ensures
        spec_at(e, f1) <= spec_at(e, f2),
{
    let t1 = spec_clamp(f1, 0, SCALE as int);
    let t2 = spec_clamp(f2, 0, SCALE as int);
    lemma_mulf_monotone(t1, t2, t1, t2);
    lemma_mulf_monotone(SCALE as int - t2, SCALE as int - t1, SCALE as int - t2, SCALE as int
        - t1);
    lemma_mulf_monotone(0, t1, 0, t1);
    lemma_mulf_monotone(0, SCALE as int - t2, 0, SCALE as int - t2);
    lemma_root_gap_antitone(SCALE as int, spec_mulf(t1, t1), spec_mulf(t2, t2));
    lemma_root_gap_antitone(SCALE as int, spec_mulf(SCALE as int - t2, SCALE as int - t2),
        spec_mulf(SCALE as int - t1, SCALE as int - t1));
    lemma_root_gap_antitone(SCALE as int, 0, spec_mulf(t1, t1));
    lemma_root_gap_antitone(SCALE as int, 0, spec_mulf(SCALE as int - t2, SCALE as int - t2));
}

/// The staircase is non-decreasing over the whole unit domain.
pub proof fn lemma_steps_monotone(n: u32, f1: int, f2: int)
    requires
        f1 <= f2,
    ensures
        spec_at(Easing::Steps(n), f1) <= spec_at(Easing::Steps(n), f2),
{
    let t1 = spec_clamp(f1, 0, SCALE as int);
    let t2 = spec_clamp(f2, 0, SCALE as int);
    if n > 0 {
        assert(t1 * n <= t2 * n && 0 <= t1 * n) by (nonlinear_arith)
            requires
                0 <= t1 <= t2,
                0 < n,
        ;
        lemma_div_is_ordered(t1 * n + SCALE - 1, t2 * n + SCALE - 1, SCALE as int);
        let c1 = (t1 * n + SCALE as int - 1) / (SCALE as int);
        let c2 = (t2 * n + SCALE as int - 1) / (SCALE as int);
        assert(c1 * SCALE <= c2 * SCALE) by (nonlinear_arith)
            requires
                c1 <= c2,
        ;
        lemma_div_is_ordered(c1 * SCALE, c2 * SCALE, n as int);
        lemma_steps_in_range(n, t1);
        lemma_steps_in_range(n, t2);
    }
}

/// An interior staircase value never leaves the unit range.
proof fn lemma_steps_in_range(n: u32, t: int)
    requires
        0 <= t <= SCALE,
        0 < n,
    ensures
        0 <= spec_steps(n, t) <= SCALE,
{
    assert(t * n <= SCALE as int * n && 0 <= t * n) by (nonlinear_arith)
        requires
            0 <= t <= SCALE,
            0 < n,
    ;
    lemma_div_is_ordered(t * n + SCALE - 1, SCALE as int * n + SCALE - 1, SCALE as int);
    let c = (t * n + SCALE as int - 1) / (SCALE as int);
    assert((SCALE as int * n + SCALE as int - 1) / (SCALE as int) == n as int) by {
        vstd::arithmetic::div_mod::lemma_fundamental_div_mod_converse(
            SCALE as int * n + SCALE as int - 1,
            SCALE as int,
            n as int,
            SCALE as int - 1,
        );
    }
    assert(c * SCALE <= n as int * SCALE) by (nonlinear_arith)
        requires
            c <= n as int,
    ;
    lemma_div_is_ordered(0, c * SCALE, n as int);
    lemma_div_is_ordered(c * SCALE, n as int * SCALE, n as int);
    vstd::arithmetic::div_mod::lemma_div_multiples_vanish(SCALE as int, n as int);
    assert(n as int * SCALE == SCALE as int * n) by (nonlinear_arith);
}

/// At the exact midpoint, every symmetric `InOut` curve answers exactly
/// one half. Bounce's hand-spliced halves and the elastic approximation
/// are not exactly symmetric and are left out.
pub proof fn lemma_inout_midpoint(e: Easing)
    requires
        e == Easing::Quad(Direction::InOut) || e == Easing::Cubic(Direction::InOut) || e
            == Easing::Quart(Direction::InOut) || e == Easing::Quint(Direction::InOut) || e
            == Easing::Expo(Direction::InOut) || e == Easing::Back(Direction::InOut) || e
            == Easing::Sine(Direction::InOut) || e == Easing::Circ(Direction::InOut),
    ensures
        spec_at(e, 500_000) == 500_000,
{
    reveal_with_fuel(spec_power, 6);
    reveal_with_fuel(crate::easings::math::spec_pow_einv, 2);
    reveal_with_fuel(crate::easings::math::spec_isqrt, 2);
    assert(spec_power(SCALE as int, 2) == SCALE as int);
    assert(spec_power(SCALE as int, 3) == SCALE as int);
    assert(spec_power(SCALE as int, 4) == SCALE as int);
    assert(spec_power(SCALE as int, 5) == SCALE as int);
    assert(crate::easings::spec_calculate(Direction::InOut, BaseCurve::Quad, 500_000)
        == 500_000);
    assert(crate::easings::spec_calculate(Direction::InOut, BaseCurve::Cubic, 500_000)
        == 500_000);
    assert(crate::easings::spec_calculate(Direction::InOut, BaseCurve::Quart, 500_000)
        == 500_000);
    assert(crate::easings::spec_calculate(Direction::InOut, BaseCurve::Quint, 500_000)
        == 500_000);
    assert(crate::easings::math::spec_exp_neg(0) == SCALE as int);
    assert(crate::easings::spec_expo(SCALE as int) == SCALE as int);
    assert(crate::easings::spec_calculate(Direction::InOut, BaseCurve::Expo, 500_000)
        == 500_000);
    assert(crate::easings::spec_back(SCALE as int) == SCALE as int);
    assert(crate::easings::spec_calculate(Direction::InOut, BaseCurve::Back, 500_000)
        == 500_000);
    assert(spec_mulf(500_000, crate::easings::math::PI as int) == 1_570_796);
    assert(crate::easings::math::spec_cos(1_570_796) == 0);
    assert(spec_mulf(500_000, 500_000) == 250_000);
    assert(crate::easings::spec_root_gap(250_000, 250_000) == 0);
}

/// The worked spring examples classify as their damping ratios say: half
/// the critical damping oscillates, the critical value is the boundary,
/// and twice the critical value crawls.
pub proof fn lemma_spring_classification(props: SpringProps)
    requires
        props.mass == 1_000_000,
        props.stiffness == 100_000_000,
        props.initial_velocity == 0,
    ensures
        props.damping == 10_000_000 ==> spec_new(props).inner is Underdamped,
        props.damping == 20_000_000 ==> spec_new(props).inner is CriticallyDamped,
        props.damping == 40_000_000 ==> spec_new(props).inner is Overdamped,
{
    assert(is_isqrt(100_000_000_000_000i64 as int, 10_000_000)) by (nonlinear_arith);
    lemma_isqrt_value(100_000_000_000_000i64 as int, 10_000_000);
    vstd::arithmetic::div_mod::lemma_fundamental_div_mod_converse(
        10_000_000_000_000i64 as int,
        20_000_000,
        500_000,
        0,
    );
    vstd::arithmetic::div_mod::lemma_fundamental_div_mod_converse(
        20_000_000_000_000i64 as int,
        20_000_000,
        1_000_000,
        0,
    );
    vstd::arithmetic::div_mod::lemma_fundamental_div_mod_converse(
        40_000_000_000_000i64 as int,
        20_000_000,
        2_000_000,
        0,
    );
    assert(crate::easings::spring::spec_zeta(100_000_000, 1_000_000, 10_000_000) == 500_000);
    assert(crate::easings::spring::spec_zeta(100_000_000, 1_000_000, 20_000_000) == 1_000_000);
    assert(crate::easings::spring::spec_zeta(100_000_000, 1_000_000, 40_000_000) == 2_000_000);
}

} // verus!
