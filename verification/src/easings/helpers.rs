//! Construction helpers, one per named easing family. Numeric parameters
//! are micro-unit fractions.

use vstd::prelude::*;

use crate::easings::bezier::{CubicBezier, COORD_BOUND};
use crate::easings::math::{clamp, SCALE};
use crate::easings::spring::{spec_new, Spring, SpringProps};
use crate::easings::{Direction, Easing};

verus! {

/// Linear Easing
pub fn linear() -> (r: Easing)
    ensures
        r == Easing::Linear,
        r.wf(),
{
    Easing::Linear
}

/// Stepped easing
pub fn steps(n: u32) -> (r: Easing)
    ensures
        r == Easing::Steps(n),
        r.wf(),
{
    Easing::Steps(n)
}

/// Parameterized Cubic Bezier Easing
pub fn cubic_bezier(x1: i64, y1: i64, x2: i64, y2: i64) -> (r: Easing)
    requires
        -COORD_BOUND <= x1 <= COORD_BOUND,
        -COORD_BOUND <= y1 <= COORD_BOUND,
        -COORD_BOUND <= x2 <= COORD_BOUND,
        -COORD_BOUND <= y2 <= COORD_BOUND,
    ensures
        r matches Easing::CubicBezier(s) && s.wf() && s.spec_curve()
            == crate::easings::bezier::spec_coefficients(x1 as int, y1 as int, x2 as int,
            y2 as int),
        r.wf(),
{
    Easing::CubicBezier(CubicBezier::solver(x1, y1, x2, y2))
}

/// Cubic Bezier curve represented by css keyword `ease`
///
/// Same as `cubic_bezier(0.25, 0.1, 0.25, 1.0)`
pub fn ease() -> (r: Easing)
    ensures
        r matches Easing::CubicBezier(s) && s.wf() && s.spec_curve()
            == crate::easings::bezier::spec_coefficients(250_000, 100_000, 250_000, 1_000_000),
        r.wf(),
{
    cubic_bezier(250_000, 100_000, 250_000, 1_000_000)
}

/// Cubic Bezier curve represented by css keyword `ease-in`
///
/// Same as `cubic_bezier(0.42, 0.0, 1.0, 1.0)`
pub fn ease_in() -> (r: Easing)
    ensures
        r matches Easing::CubicBezier(s) && s.wf() && s.spec_curve()
            == crate::easings::bezier::spec_coefficients(420_000, 0, 1_000_000, 1_000_000),
        r.wf(),
{
    cubic_bezier(420_000, 0, 1_000_000, 1_000_000)
}

/// Cubic Bezier curve represented by css keyword `ease-in-out`
///
/// Same as `cubic_bezier(0.42, 0.0, 0.58, 1.0)`
pub fn ease_in_out() -> (r: Easing)
    ensures
        r matches Easing::CubicBezier(s) && s.wf() && s.spec_curve()
            == crate::easings::bezier::spec_coefficients(420_000, 0, 580_000, 1_000_000),
        r.wf(),
{
    cubic_bezier(420_000, 0, 580_000, 1_000_000)
}

/// Cubic Bezier curve represented by css keyword `ease-out`
///
/// Same as `cubic_bezier(0.0, 0.0, 0.58, 1.0)`
pub fn ease_out() -> (r: Easing)
    ensures
        r matches Easing::CubicBezier(s) && s.wf() && s.spec_curve()
            == crate::easings::bezier::spec_coefficients(0, 0, 580_000, 1_000_000),
        r.wf(),
{
    cubic_bezier(0, 0, 580_000, 1_000_000)
}

/// The elastic amplitude clamped into `[1, 10]`.
pub open spec fn spec_amplitude(amplitude: int) -> int {
    crate::easings::math::spec_clamp(amplitude, SCALE as int, 10 * (SCALE as int))
}

/// The elastic period clamped into `[0.1, 2]`.
pub open spec fn spec_period(period: int) -> int {
    crate::easings::math::spec_clamp(period, 100_000, 2 * (SCALE as int))
}

pub fn elastic_in(amplitude: i64, period: i64) -> (r: Easing)
    ensures
        r == (Easing::Elastic {
            amplitude: spec_amplitude(amplitude as int) as i64,
            period: spec_period(period as int) as i64,
            direction: Direction::In,
        }),
        r.wf(),
{
    elastic(amplitude, period, Direction::In)
}

pub fn elastic_out(amplitude: i64, period: i64) -> (r: Easing)
    ensures
        r == (Easing::Elastic {
            amplitude: spec_amplitude(amplitude as int) as i64,
            period: spec_period(period as int) as i64,
            direction: Direction::Out,
        }),
        r.wf(),
{
    elastic(amplitude, period, Direction::Out)
}

pub fn elastic_in_out(amplitude: i64, period: i64) -> (r: Easing)
    ensures
        r == (Easing::Elastic {
            amplitude: spec_amplitude(amplitude as int) as i64,
            period: spec_period(period as int) as i64,
            direction: Direction::InOut,
        }),
        r.wf(),
{
    elastic(amplitude, period, Direction::InOut)
}

pub fn elastic_out_in(amplitude: i64, period: i64) -> (r: Easing)
    ensures
        r == (Easing::Elastic {
            amplitude: spec_amplitude(amplitude as int) as i64,
            period: spec_period(period as int) as i64,
            direction: Direction::OutIn,
        }),
        r.wf(),
{
    elastic(amplitude, period, Direction::OutIn)
}

fn elastic(amplitude: i64, period: i64, direction: Direction) -> (r: Easing)
    ensures
        r == (Easing::Elastic {
            amplitude: spec_amplitude(amplitude as int) as i64,
            period: spec_period(period as int) as i64,
            direction,
        }),
        r.wf(),
{
    Easing::Elastic {
        amplitude: clamp(amplitude, SCALE, 10 * SCALE),
        period: clamp(period, 100_000, 2 * SCALE),
        direction,
    }
}

/// A spring easing from its physical parameters; the classification always
/// finds a regime, so this always answers a curve.
pub fn spring(mass: i64, stiffness: i64, damping: i64, initial_velocity: i64) -> (r: Option<
    Easing,
>)
    ensures
        r == Some(
            Easing::Spring(
                spec_new(SpringProps { mass, stiffness, damping, initial_velocity }),
            ),
        ),
        r matches Some(e) && e.wf(),
{
    match Spring::new(SpringProps { mass, stiffness, damping, initial_velocity }) {
        Some(s) => Some(Easing::Spring(s)),
        None => None,
    }
}

/// Quad Easing In
pub fn ease_in_quad() -> (r: Easing)
    ensures
        r == Easing::Quad(Direction::In),
        r.wf(),
{
    Easing::Quad(Direction::In)
}

/// Quad Easing Out
pub fn ease_out_quad() -> (r: Easing)
    ensures
        r == Easing::Quad(Direction::Out),
        r.wf(),
{
    Easing::Quad(Direction::Out)
}

/// Quad Easing In Out
pub fn ease_in_out_quad() -> (r: Easing)
    ensures
        r == Easing::Quad(Direction::InOut),
        r.wf(),
{
    Easing::Quad(Direction::InOut)
}

/// Quad Easing Out In
pub fn ease_out_in_quad() -> (r: Easing)
    ensures
        r == Easing::Quad(Direction::OutIn),
        r.wf(),
{
    Easing::Quad(Direction::OutIn)
}

/// Cubic Easing In
pub fn ease_in_cubic() -> (r: Easing)
    ensures
        r == Easing::Cubic(Direction::In),
        r.wf(),
{
    Easing::Cubic(Direction::In)
}

/// Cubic Easing Out
pub fn ease_out_cubic() -> (r: Easing)
    ensures
        r == Easing::Cubic(Direction::Out),
        r.wf(),
{
    Easing::Cubic(Direction::Out)
}

/// Cubic Easing In Out
pub fn ease_in_out_cubic() -> (r: Easing)
    ensures
        r == Easing::Cubic(Direction::InOut),
        r.wf(),
{
    Easing::Cubic(Direction::InOut)
}

/// Cubic Easing Out In
pub fn ease_out_in_cubic() -> (r: Easing)
    ensures
        r == Easing::Cubic(Direction::OutIn),
        r.wf(),
{
    Easing::Cubic(Direction::OutIn)
}

/// Quart Easing In
pub fn ease_in_quart() -> (r: Easing)
    ensures
        r == Easing::Quart(Direction::In),
        r.wf(),
{
    Easing::Quart(Direction::In)
}

/// Quart Easing Out
pub fn ease_out_quart() -> (r: Easing)
    ensures
        r == Easing::Quart(Direction::Out),
        r.wf(),
{
    Easing::Quart(Direction::Out)
}

/// Quart Easing In Out
pub fn ease_in_out_quart() -> (r: Easing)
    ensures
        r == Easing::Quart(Direction::InOut),
        r.wf(),
{
    Easing::Quart(Direction::InOut)
}

/// Quart Easing Out In
pub fn ease_out_in_quart() -> (r: Easing)
    ensures
        r == Easing::Quart(Direction::OutIn),
        r.wf(),
{
    Easing::Quart(Direction::OutIn)
}

/// Quint Easing In
pub fn ease_in_quint() -> (r: Easing)
    ensures
        r == Easing::Quint(Direction::In),
        r.wf(),
{
    Easing::Quint(Direction::In)
}

/// Quint Easing Out
pub fn ease_out_quint() -> (r: Easing)
    ensures
        r == Easing::Quint(Direction::Out),
        r.wf(),
{
    Easing::Quint(Direction::Out)
}

/// Quint Easing In Out
pub fn ease_in_out_quint() -> (r: Easing)
    ensures
        r == Easing::Quint(Direction::InOut),
        r.wf(),
{
    Easing::Quint(Direction::InOut)
}

/// Quint Easing Out In
pub fn ease_out_in_quint() -> (r: Easing)
    ensures
        r == Easing::Quint(Direction::OutIn),
        r.wf(),
{
    Easing::Quint(Direction::OutIn)
}

/// Expo Easing In
pub fn ease_in_expo() -> (r: Easing)
    ensures
        r == Easing::Expo(Direction::In),
        r.wf(),
{
    Easing::Expo(Direction::In)
}

/// Expo Easing Out
pub fn ease_out_expo() -> (r: Easing)
    ensures
        r == Easing::Expo(Direction::Out),
        r.wf(),
{
    Easing::Expo(Direction::Out)
}

/// Expo Easing In Out
pub fn ease_in_out_expo() -> (r: Easing)
    ensures
        r == Easing::Expo(Direction::InOut),
        r.wf(),
{
    Easing::Expo(Direction::InOut)
}

/// Expo Easing Out In
pub fn ease_out_in_expo() -> (r: Easing)
    ensures
        r == Easing::Expo(Direction::OutIn),
        r.wf(),
{
    Easing::Expo(Direction::OutIn)
}

/// Sine Easing In
pub fn ease_in_sine() -> (r: Easing)
    ensures
        r == Easing::Sine(Direction::In),
        r.wf(),
{
    Easing::Sine(Direction::In)
}

/// Sine Easing Out
pub fn ease_out_sine() -> (r: Easing)
    ensures
        r == Easing::Sine(Direction::Out),
        r.wf(),
{
    Easing::Sine(Direction::Out)
}

/// Sine Easing In Out
pub fn ease_in_out_sine() -> (r: Easing)
    ensures
        r == Easing::Sine(Direction::InOut),
        r.wf(),
{
    Easing::Sine(Direction::InOut)
}

/// Sine Easing Out In
pub fn ease_out_in_sine() -> (r: Easing)
    ensures
        r == Easing::Sine(Direction::OutIn),
        r.wf(),
{
    Easing::Sine(Direction::OutIn)
}

/// Circ Easing In
pub fn ease_in_circ() -> (r: Easing)
    ensures
        r == Easing::Circ(Direction::In),
        r.wf(),
{
    Easing::Circ(Direction::In)
}

/// Circ Easing Out
pub fn ease_out_circ() -> (r: Easing)
    ensures
        r == Easing::Circ(Direction::Out),
        r.wf(),
{
    Easing::Circ(Direction::Out)
}

/// Circ Easing In Out
pub fn ease_in_out_circ() -> (r: Easing)
    ensures
        r == Easing::Circ(Direction::InOut),
        r.wf(),
{
    Easing::Circ(Direction::InOut)
}

/// Circ Easing Out In
pub fn ease_out_in_circ() -> (r: Easing)
    ensures
        r == Easing::Circ(Direction::OutIn),
        r.wf(),
{
    Easing::Circ(Direction::OutIn)
}

/// Back Easing In
pub fn ease_in_back() -> (r: Easing)
    ensures
        r == Easing::Back(Direction::In),
        r.wf(),
{
    Easing::Back(Direction::In)
}

/// Back Easing Out
pub fn ease_out_back() -> (r: Easing)
    ensures
        r == Easing::Back(Direction::Out),
        r.wf(),
{
    Easing::Back(Direction::Out)
}

/// Back Easing In Out
pub fn ease_in_out_back() -> (r: Easing)
    ensures
        r == Easing::Back(Direction::InOut),
        r.wf(),
{
    Easing::Back(Direction::InOut)
}

/// Back Easing Out In
pub fn ease_out_in_back() -> (r: Easing)
    ensures
        r == Easing::Back(Direction::OutIn),
        r.wf(),
{
    Easing::Back(Direction::OutIn)
}

/// Bounce Easing In
pub fn ease_in_bounce() -> (r: Easing)
    ensures
        r == Easing::Bounce(Direction::In),
        r.wf(),
{
    Easing::Bounce(Direction::In)
}

/// Bounce Easing Out
pub fn ease_out_bounce() -> (r: Easing)
    ensures
        r == Easing::Bounce(Direction::Out),
        r.wf(),
{
    Easing::Bounce(Direction::Out)
}

/// Bounce Easing In Out
pub fn ease_in_out_bounce() -> (r: Easing)
    ensures
        r == Easing::Bounce(Direction::InOut),
        r.wf(),
{
    Easing::Bounce(Direction::InOut)
}

/// Bounce Easing Out In
pub fn ease_out_in_bounce() -> (r: Easing)
    ensures
        r == Easing::Bounce(Direction::OutIn),
        r.wf(),
{
    Easing::Bounce(Direction::OutIn)
}

} // verus!
