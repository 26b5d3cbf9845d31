//! Spring easing: a damped harmonic oscillator classified at construction
//! into one of three closed-form regimes, all in exact micro-unit fixed
//! point.
//!
//! Construction clamps the physical parameters, classifies the system by
//! its damping ratio, precomputes the regime's coefficients and fixes the
//! duration to the settling time of the decay envelope. Every quantity is
//! pinned to a spec function. Intermediate products are held inside fixed
//! caps, and where the real overdamped formula multiplies a growing and a
//! decaying exponential, the model folds each pair into one decaying
//! exponential, which is equal in exact arithmetic.

use vstd::prelude::*;

use crate::easings::math::{
    clamp, divf, exp_neg_micro, isqrt_exact, mul_clamp_signed, mul_div_clamp, mul_mod_two_pi,
    mulf, sin_micro, spec_clamp, spec_divf, spec_exp_neg, spec_isqrt, spec_mulf, spec_sin,
    HALF_PI, SCALE, TWO_PI,
};

verus! {

/// The smallest value a physical parameter is clamped up to.
pub const SPRING_PARAM_MIN: i64 = 100_000;

/// The largest value a physical parameter is clamped down to.
pub const SPRING_PARAM_MAX: i64 = 100_000_000;

/// `-ln(1e-4)` in micro-units: how long the decay envelope takes to fall
/// to the settling threshold, in units of its rate.
pub const SETTLING_LOG: i64 = 9_210_340;

/// A cap every precomputed frequency product is held inside.
pub const COEFF_BOUND: i64 = 1_000_000_000_000;

/// A cap the oscillation coefficients are held inside. Near the critical
/// boundary the damped frequency quantizes down to a few dozen micro-units
/// and the quotients grow toward 2.3e12, so the cap leaves that reachable
/// range untouched.
pub const OSC_BOUND: i64 = 4_000_000_000_000;

/// A cap the decay exponents are held inside; far beyond it the decay is
/// indistinguishable from zero anyway.
pub const EXP_ARG_BOUND: i64 = 100_000_000;

/// The physical parameters a spring is built from, in micro-units.
#[derive(Debug, Clone, Copy, PartialEq, Eq, Structural)]
pub struct SpringProps {
    pub mass: i64,
    pub stiffness: i64,
    pub damping: i64,
    pub initial_velocity: i64,
}

impl Default for SpringProps {
    /// One unit of mass, a hundred of stiffness, ten of damping, at rest.
    fn default() -> (r: Self)
        ensures
            r == (SpringProps {
                mass: 1_000_000i64,
                stiffness: 100_000_000i64,
                damping: 10_000_000i64,
                initial_velocity: 0i64,
            }),
    {
        Self { mass: 1_000_000, stiffness: 100_000_000, damping: 10_000_000, initial_velocity: 0 }
    }
}

impl SpringProps {
    /// The default parameters.
    pub fn new() -> (r: Self)
        ensures
            r == (SpringProps {
                mass: 1_000_000i64,
                stiffness: 100_000_000i64,
                damping: 10_000_000i64,
                initial_velocity: 0i64,
            }),
    {
        Self::default()
    }

    /// Replace the mass.
    pub fn mass(&mut self, m: i64) -> (ret: &mut Self)
        ensures
            *ret == (SpringProps { mass: m, ..*old(self) }),
            *final(self) == *final(ret),
    {
        self.mass = m;
        self
    }

    /// Replace the stiffness.
    pub fn stiffness(&mut self, s: i64) -> (ret: &mut Self)
        ensures
            *ret == (SpringProps { stiffness: s, ..*old(self) }),
            *final(self) == *final(ret),
    {
        self.stiffness = s;
        self
    }

    /// Replace the damping.
    pub fn damping(&mut self, d: i64) -> (ret: &mut Self)
        ensures
            *ret == (SpringProps { damping: d, ..*old(self) }),
            *final(self) == *final(ret),
    {
        self.damping = d;
        self
    }

    /// Replace the initial velocity.
    pub fn initial_velocity(&mut self, v: i64) -> (ret: &mut Self)
        ensures
            *ret == (SpringProps { initial_velocity: v, ..*old(self) }),
            *final(self) == *final(ret),
    {
        self.initial_velocity = v;
        self
    }
}

/// An oscillating spring: the damping ratio is below one.
#[derive(Debug, Clone, Copy, PartialEq, Eq, Structural)]
pub struct UnderdampedSpring {
    pub natural_frequency: i64,
    pub damping_ratio: i64,
    pub damped_frequency: i64,
    pub oscillation_const: i64,
}

/// The fastest non-oscillating spring: the damping ratio is exactly one.
#[derive(Debug, Clone, Copy, PartialEq, Eq, Structural)]
pub struct CriticallyDampedSpring {
    pub initial_velocity: i64,
    pub natural_frequency: i64,
}

/// A slow non-oscillating spring: the damping ratio is above one.
#[derive(Debug, Clone, Copy, PartialEq, Eq, Structural)]
pub struct OverdampedSpring {
    pub natural_frequency: i64,
    pub damping_ratio: i64,
    pub damped_frequency: i64,
    pub c1: i64,
    pub c2: i64,
}

/// The regime a spring was classified into.
#[derive(Debug, Clone, Copy, PartialEq, Eq, Structural)]
pub enum SpringInner {
    Underdamped(UnderdampedSpring),
    CriticallyDamped(CriticallyDampedSpring),
    Overdamped(OverdampedSpring),
}

/// A constructed spring easing: its regime and its fixed duration, in
/// micro-seconds.
#[derive(Debug, Clone, Copy, PartialEq, Eq, Structural)]
pub struct Spring {
    pub duration: i64,
    pub inner: SpringInner,
}

/// A parameter clamped into the physical range.
pub open spec fn spec_param(v: int) -> int {
    spec_clamp(v, SPRING_PARAM_MIN as int, SPRING_PARAM_MAX as int)
}

/// The magnitude of the requested initial velocity, clamped and negated:
/// the internal solution runs from one toward zero, so the sign flips at
/// this boundary.
pub open spec fn spec_velocity(v: int) -> int {
    -spec_param(if v >= 0 {
        v
    } else {
        -v
    })
}

/// A product of nonnegative micro-unit values held below a cap.
pub open spec fn spec_mul_cap(a: int, b: int, hi: int) -> int {
    spec_clamp(spec_mulf(a, b), 0, hi)
}

/// The natural frequency of clamped parameters: the square root of
/// stiffness over mass.
pub open spec fn spec_omega0(k: int, m: int) -> int {
    spec_isqrt(spec_clamp(spec_divf(k, m), 0, COEFF_BOUND as int) * (SCALE as int))
}

/// The damping ratio of clamped parameters: damping over twice the square
/// root of stiffness times mass.
pub open spec fn spec_zeta(k: int, m: int, d: int) -> int {
    spec_divf(d, 2 * spec_isqrt(k * m))
}

/// The settling time of a decay rate: where its envelope falls to the
/// settling threshold.
pub open spec fn spec_settling(rate: int) -> int {
    if rate == 0 {
        0
    } else {
        spec_divf(SETTLING_LOG as int, rate)
    }
}

/// What construction builds from the given parameters.
pub open spec fn spec_new(props: SpringProps) -> Spring {
    let m = spec_param(props.mass as int);
    let k = spec_param(props.stiffness as int);
    let d = spec_param(props.damping as int);
    let v = spec_velocity(props.initial_velocity as int);
    let w0 = spec_omega0(k, m);
    let zeta = spec_zeta(k, m, d);
    let zw = spec_mul_cap(zeta, w0, COEFF_BOUND as int);
    if zeta < SCALE as int {
        let zz = spec_mul_cap(zeta, zeta, SCALE as int);
        let wd = spec_mul_cap(w0, spec_isqrt((SCALE as int - zz) * (SCALE as int)),
            COEFF_BOUND as int);
        let osc = if wd == 0 {
            0
        } else {
            spec_clamp(spec_divf(v + zw, wd), -(OSC_BOUND as int), OSC_BOUND as int)
        };
        Spring {
            duration: spec_settling(zw) as i64,
            inner: SpringInner::Underdamped(UnderdampedSpring {
                natural_frequency: w0 as i64,
                damping_ratio: zeta as i64,
                damped_frequency: wd as i64,
                oscillation_const: osc as i64,
            }),
        }
    } else if zeta == SCALE as int {
        Spring {
            duration: spec_settling(spec_clamp(w0, 0, COEFF_BOUND as int)) as i64,
            inner: SpringInner::CriticallyDamped(CriticallyDampedSpring {
                initial_velocity: v as i64,
                natural_frequency: w0 as i64,
            }),
        }
    } else {
        let zz = spec_mul_cap(zeta, zeta, COEFF_BOUND as int);
        let root_arg = if zz > SCALE as int {
            (zz - SCALE as int) * (SCALE as int)
        } else {
            0
        };
        let wd = spec_mul_cap(w0, spec_isqrt(root_arg), COEFF_BOUND as int);
        let c1 = if wd == 0 {
            0
        } else {
            spec_clamp(spec_divf(v + zw + wd, 2 * wd), -(OSC_BOUND as int), OSC_BOUND as int)
        };
        let c2 = if wd == 0 {
            0
        } else {
            spec_clamp(spec_divf(v + zw - wd, 2 * wd), -(OSC_BOUND as int), OSC_BOUND as int)
        };
        Spring {
            duration: spec_settling(zw) as i64,
            inner: SpringInner::Overdamped(OverdampedSpring {
                natural_frequency: w0 as i64,
                damping_ratio: zeta as i64,
                damped_frequency: wd as i64,
                c1: c1 as i64,
                c2: c2 as i64,
            }),
        }
    }
}

impl Spring {
    /// The constructed fields all lie inside their caps.
    pub open spec fn wf(self) -> bool {
        &&& 0 <= self.duration <= 10_000_000_000_000i64
        &&& self.inner.wf()
    }

    /// Create a new spring easing. Returns none if the damping ratio is
    /// not a real number — which exact integer arithmetic rules out, so
    /// the answer is always the constructed spring; the fallible signature
    /// is kept for the callers' sake.
    pub fn new(props: SpringProps) -> (r: Option<Spring>)
        ensures
            r == Some(spec_new(props)),
            spec_new(props).wf(),
    {
        let m = clamp(props.mass, SPRING_PARAM_MIN, SPRING_PARAM_MAX);
        let k = clamp(props.stiffness, SPRING_PARAM_MIN, SPRING_PARAM_MAX);
        let d = clamp(props.damping, SPRING_PARAM_MIN, SPRING_PARAM_MAX);
        let v0 = if props.initial_velocity >= 0 {
            props.initial_velocity
        } else if props.initial_velocity == i64::MIN {
            i64::MAX
        } else {
            -props.initial_velocity
        };
        proof {
            assert(spec_param(i64::MAX as int) == spec_param(-(i64::MIN as int)));
        }
        let v = -clamp(v0, SPRING_PARAM_MIN, SPRING_PARAM_MAX);

        let ratio = clamp(divf(k, m), 0, COEFF_BOUND);
        let w0 = isqrt_exact(ratio * SCALE);
        proof {
            assert(w0 as int * w0 as int <= COEFF_BOUND as int * SCALE);
            assert(w0 <= 1_000_000_000i64) by (nonlinear_arith)
                requires
                    0 <= w0,
                    w0 as int * w0 as int <= COEFF_BOUND as int * SCALE,
            ;
        }

        proof {
            assert(k as int * m as int >= 10_000_000_000i64 as int) by (nonlinear_arith)
                requires
                    k >= SPRING_PARAM_MIN,
                    m >= SPRING_PARAM_MIN,
            ;
            assert(k as int * m as int <= 10_000_000_000_000_000i64 as int) by (nonlinear_arith)
                requires
                    0 <= k <= SPRING_PARAM_MAX,
                    0 <= m <= SPRING_PARAM_MAX,
            ;
        }
        let sqrt_km = isqrt_exact(k * m);
        proof {
            assert(sqrt_km >= 100_000i64) by (nonlinear_arith)
                requires
                    0 <= sqrt_km,
                    (sqrt_km as int + 1) * (sqrt_km as int + 1) > 10_000_000_000i64 as int,
            ;
            assert(sqrt_km <= 200_000_000i64) by (nonlinear_arith)
                requires
                    0 <= sqrt_km,
                    sqrt_km as int * sqrt_km as int <= 10_000_000_000_000_000i64 as int,
            ;
        }
        let zeta = divf(d, 2 * sqrt_km);
        proof {
            vstd::arithmetic::div_mod::lemma_div_is_ordered_by_denominator(
                d as int * SCALE,
                200_000,
                2 * sqrt_km as int,
            );
            vstd::arithmetic::div_mod::lemma_div_is_ordered(
                d as int * SCALE,
                100_000_000_000_000i64 as int,
                200_000,
            );
            assert(0 <= zeta <= 500_000_000i64);
        }
        let zw = mul_div_clamp(zeta, w0, COEFF_BOUND);

        if zeta < SCALE {
            let zz = mul_div_clamp(zeta, zeta, SCALE);
            let wd = mul_div_clamp(w0, isqrt_exact((SCALE - zz) * SCALE), COEFF_BOUND);
            let osc = if wd == 0 {
                0
            } else {
                clamp(divf(v + zw, wd), -OSC_BOUND, OSC_BOUND)
            };
            let duration = if zw == 0 {
                0
            } else {
                divf(SETTLING_LOG, zw)
            };
            Some(
                Spring {
                    duration,
                    inner: SpringInner::Underdamped(
                        UnderdampedSpring {
                            natural_frequency: w0,
                            damping_ratio: zeta,
                            damped_frequency: wd,
                            oscillation_const: osc,
                        },
                    ),
                },
            )
        } else if zeta == SCALE {
            let w0c = clamp(w0, 0, COEFF_BOUND);
            let duration = if w0c == 0 {
                0
            } else {
                divf(SETTLING_LOG, w0c)
            };
            Some(
                Spring {
                    duration,
                    inner: SpringInner::CriticallyDamped(
                        CriticallyDampedSpring { initial_velocity: v, natural_frequency: w0 },
                    ),
                },
            )
        } else {
            let zz = mul_div_clamp(zeta, zeta, COEFF_BOUND);
            let root_arg = if zz > SCALE {
                (zz - SCALE) * SCALE
            } else {
                0
            };
            let root = isqrt_exact(root_arg);
            proof {
                assert(root as int * root as int <= COEFF_BOUND as int * SCALE);
                assert(root <= 1_000_000_000i64) by (nonlinear_arith)
                    requires
                        0 <= root,
                        root as int * root as int <= COEFF_BOUND as int * SCALE,
                ;
            }
            let wd = mul_div_clamp(w0, root, COEFF_BOUND);
            let c1 = if wd == 0 {
                0
            } else {
                clamp(divf(v + zw + wd, 2 * wd), -OSC_BOUND, OSC_BOUND)
            };
            let c2 = if wd == 0 {
                0
            } else {
                clamp(divf(v + zw - wd, 2 * wd), -OSC_BOUND, OSC_BOUND)
            };
            let duration = if zw == 0 {
                0
            } else {
                divf(SETTLING_LOG, zw)
            };
            Some(
                Spring {
                    duration,
                    inner: SpringInner::Overdamped(
                        OverdampedSpring {
                            natural_frequency: w0,
                            damping_ratio: zeta,
                            damped_frequency: wd,
                            c1,
                            c2,
                        },
                    ),
                },
            )
        }
    }
}

/// One decaying term: a coefficient times the decaying exponential of a
/// capped rate-times-time product.
pub open spec fn spec_decay_term(coeff: int, rate: int, t: int) -> int {
    spec_clamp(spec_mulf(coeff, spec_exp_neg(spec_mul_cap(rate, t, EXP_ARG_BOUND as int))), -(2
        * OSC_BOUND as int), 2 * (OSC_BOUND as int))
}

fn decay_term(coeff: i64, rate: i64, t: i64) -> (r: i64)
    requires
        -OSC_BOUND <= coeff <= OSC_BOUND,
        0 <= rate,
        0 <= t,
    ensures
        r == spec_decay_term(coeff as int, rate as int, t as int),
        -(2 * OSC_BOUND) <= r <= 2 * OSC_BOUND,
{
    let arg = mul_div_clamp(rate, t, EXP_ARG_BOUND);
    let e = exp_neg_micro(arg);
    mul_clamp_signed(coeff, e, 2 * OSC_BOUND)
}

impl SpringInner {
    /// Solve for position x as a function of time t, where for calculation
    /// the initial position is one but the output range is reversed (the
    /// mass travels from 0 to 1 rather than 1 to 0), so the velocity was
    /// negated at construction.
    pub open spec fn spec_solve(self, t: int) -> int {
        match self {
            SpringInner::Underdamped(s) => {
                let zw = spec_mul_cap(s.damping_ratio as int, s.natural_frequency as int,
                    EXP_ARG_BOUND as int);
                let decay = spec_exp_neg(spec_mul_cap(zw, t, EXP_ARG_BOUND as int));
                let phase = spec_mulf(s.damped_frequency as int, t) % (TWO_PI as int);
                // the position: decay times (cos + oscillation * sin)
                spec_clamp(spec_mulf(decay, spec_sin(phase + HALF_PI as int) + spec_clamp(
                    spec_mulf(s.oscillation_const as int, spec_sin(phase)), -(2 * OSC_BOUND as int),
                    2 * (OSC_BOUND as int))), -(4 * OSC_BOUND as int), 4 * (OSC_BOUND as int))
            },
            SpringInner::CriticallyDamped(s) => {
                let lin = SCALE as int + spec_clamp(spec_mulf(
                    s.initial_velocity as int + s.natural_frequency as int, t), -(
                COEFF_BOUND as int), COEFF_BOUND as int);
                spec_mulf(lin, spec_exp_neg(spec_mul_cap(spec_clamp(s.natural_frequency as int,
                    0, COEFF_BOUND as int), t, EXP_ARG_BOUND as int)))
            },
            SpringInner::Overdamped(s) => {
                let zw = spec_mul_cap(s.damping_ratio as int, s.natural_frequency as int,
                    COEFF_BOUND as int);
                let slow = if zw > s.damped_frequency as int {
                    zw - s.damped_frequency as int
                } else {
                    0
                };
                let fast = zw + s.damped_frequency as int;
                spec_decay_term(s.c1 as int, slow, t) - spec_decay_term(s.c2 as int, fast, t)
            },
        }
    }
}


impl SpringInner {
    /// The regime's fields all lie inside their caps.
    pub open spec fn wf(self) -> bool {
        match self {
            SpringInner::Underdamped(s) => {
                &&& 0 <= s.natural_frequency <= 1_000_000_000i64
                &&& 0 <= s.damping_ratio <= SCALE
                &&& 0 <= s.damped_frequency <= COEFF_BOUND
                &&& -OSC_BOUND <= s.oscillation_const <= OSC_BOUND
            },
            SpringInner::CriticallyDamped(s) => {
                &&& 0 <= s.natural_frequency <= 1_000_000_000i64
                &&& -SPRING_PARAM_MAX <= s.initial_velocity <= 0
            },
            SpringInner::Overdamped(s) => {
                &&& 0 <= s.natural_frequency <= 1_000_000_000i64
                &&& SCALE < s.damping_ratio <= COEFF_BOUND
                &&& 0 <= s.damped_frequency <= COEFF_BOUND
                &&& -OSC_BOUND <= s.c1 <= OSC_BOUND
                &&& -OSC_BOUND <= s.c2 <= OSC_BOUND
            },
        }
    }

    /// Solve for position at a micro-second time.
    fn solve_x(&self, t: i64) -> (r: i64)
        requires
            self.wf(),
            0 <= t <= 10_000_000_000_000i64,
        ensures
            r == self.spec_solve(t as int),
    {
        match self {
            SpringInner::Underdamped(s) => {
                let zw = mul_div_clamp(s.damping_ratio, s.natural_frequency, EXP_ARG_BOUND);
                let decay = exp_neg_micro(mul_div_clamp(zw, t, EXP_ARG_BOUND));
                let phase = mul_mod_two_pi(s.damped_frequency, t);
                let cos_part = sin_micro(phase + HALF_PI);
                let sin_part = sin_micro(phase);
                let osc_term = mul_clamp_signed(s.oscillation_const, sin_part, 2 * OSC_BOUND);
                let sum = cos_part + osc_term;
                mul_clamp_signed(decay, sum, 4 * OSC_BOUND)
            },
            SpringInner::CriticallyDamped(s) => {
                let lin = SCALE + mul_clamp_signed(
                    s.initial_velocity + s.natural_frequency,
                    t,
                    COEFF_BOUND,
                );
                let w0c = clamp(s.natural_frequency, 0, COEFF_BOUND);
                let decay = exp_neg_micro(mul_div_clamp(w0c, t, EXP_ARG_BOUND));
                assert(-(3_000_000_000_000_000_000i64 as int) <= lin as int * decay as int
                    <= 3_000_000_000_000_000_000i64 as int) by (nonlinear_arith)
                    requires
                        -(COEFF_BOUND + SCALE) <= lin <= COEFF_BOUND + SCALE,
                        -(2 * SCALE) <= decay <= 2 * SCALE,
                ;
                mulf(lin, decay)
            },
            SpringInner::Overdamped(s) => {
                let zw = mul_div_clamp(s.damping_ratio, s.natural_frequency, COEFF_BOUND);
                let slow = if zw > s.damped_frequency {
                    zw - s.damped_frequency
                } else {
                    0
                };
                let fast = zw + s.damped_frequency;
                let a = decay_term(s.c1, slow, t);
                let b = decay_term(s.c2, fast, t);
                a - b
            },
        }
    }
}

impl Spring {
    /// What one evaluation answers: progress scaled into elapsed time by
    /// the fixed duration, then the regime's closed form. The output may
    /// legitimately leave the unit range: oscillation overshoots.
    pub open spec fn spec_update(self, progress: int) -> int {
        self.inner.spec_solve(spec_mul_cap(progress, self.duration as int, self.duration as int))
    }

    /// Update the spring animation with a fractional progress.
    pub fn update_animation(&self, progress: i64) -> (r: i64)
        requires
            self.wf(),
            0 <= progress,
        ensures
            r == self.spec_update(progress as int),
    {
        let t = mul_div_clamp(progress, self.duration, self.duration);
        self.inner.solve_x(t)
    }
}

} // verus!
