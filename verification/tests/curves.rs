//! Curve-engine behaviour: exact endpoints, known values, monotonicity,
//! midpoint symmetry, solver agreement and spring classification. All
//! fractions are micro-units: 1_000_000 is 1.0.

use webtween::easings::helpers::{
    cubic_bezier, ease, ease_in_back, ease_in_circ, ease_in_expo, ease_in_out_circ,
    ease_in_out_cubic, ease_in_out_quad, ease_in_out_sine, ease_in_quad, ease_out_bounce,
    ease_out_in_quad, ease_out_quad, ease_out_sine, elastic_in, linear, spring, steps,
};
use webtween::easings::spring::SpringInner;
use webtween::easings::{Direction, Easing};

const S: i64 = 1_000_000;

#[test]
fn endpoints_are_exact_for_every_family() {
    let curves = vec![
        linear(),
        ease_in_quad(),
        ease_out_quad(),
        ease_in_out_quad(),
        ease_out_in_quad(),
        ease_in_circ(),
        ease_in_expo(),
        ease_in_back(),
        ease_out_bounce(),
        ease_in_out_sine(),
        ease(),
        cubic_bezier(100_000, 700_000, 900_000, 300_000),
        elastic_in(500_000, 5_000_000),
        steps(7),
        spring(S, 100 * S, 10 * S, 0).unwrap(),
    ];
    for c in &curves {
        assert_eq!(c.at(0), 0);
        assert_eq!(c.at(S), S);
        assert_eq!(c.at(-123_456), 0);
        assert_eq!(c.at(2 * S), S);
    }
}

#[test]
fn power_curve_values_are_exact() {
    assert_eq!(ease_in_quad().at(500_000), 250_000);
    assert_eq!(ease_in_quad().at(250_000), 62_500);
    // Out plays the base backwards: 1 - (1 - t)^2
    assert_eq!(ease_out_quad().at(250_000), 437_500);
    // OutIn at the second half: (1 + (2t - 1)^2) / 2
    assert_eq!(ease_out_in_quad().at(750_000), 625_000);
}

#[test]
fn circ_and_back_values_are_exact() {
    // 1 - sqrt(1 - 0.25) = 1 - 0.866025...
    assert_eq!(ease_in_circ().at(500_000), 133_975);
    // 0.25 * (1.5 - 2) = -0.125: the overshoot dips below zero
    assert_eq!(ease_in_back().at(500_000), -125_000);
}

#[test]
fn expo_is_close_to_its_closed_form() {
    // 2^(10 * 0.5 - 10) = 2^-5 = 0.03125
    let r = ease_in_expo().at(500_000);
    assert!((r - 31_250).abs() <= 300, "expo at half: {r}");
}

#[test]
fn sine_values_match_the_quarter_wave() {
    assert_eq!(ease_in_out_sine().at(500_000), 500_000);
    let r = ease_out_sine().at(500_000);
    assert!((r - 707_106).abs() <= 50, "sine at half: {r}");
}

#[test]
fn bounce_out_value_is_exact() {
    // second parabola: 7.5625 * (0.5 - 1.5/2.75)^2 + 0.75
    assert_eq!(ease_out_bounce().at(500_000), 765_624);
}

#[test]
fn in_and_out_power_curves_are_monotone() {
    for curve in [
        ease_in_quad(),
        ease_out_quad(),
        ease_in_circ(),
        webtween::easings::helpers::ease_in_quint(),
    ] {
        let mut prev = curve.at(0);
        let mut x = 0;
        while x <= S {
            let r = curve.at(x);
            assert!(r >= prev, "not monotone at {x}");
            prev = r;
            x += 10_000;
        }
    }
}

#[test]
fn steps_is_a_staircase_with_n_risers() {
    let st = steps(4);
    assert_eq!(st.at(100_000), 250_000);
    assert_eq!(st.at(250_000), 250_000);
    assert_eq!(st.at(260_000), 500_000);
    let mut values = vec![];
    let mut prev = -1;
    let mut x = 1;
    while x <= S {
        let r = st.at(x);
        assert!(r >= prev);
        if r != prev {
            values.push(r);
            prev = r;
        }
        x += 1_000;
    }
    // exactly four distinct plateau heights: one riser per step
    assert_eq!(values, vec![250_000, 500_000, 750_000, 1_000_000]);
}

#[test]
fn in_out_midpoint_is_exactly_half() {
    assert_eq!(ease_in_out_quad().at(500_000), 500_000);
    assert_eq!(ease_in_out_cubic().at(500_000), 500_000);
    assert_eq!(ease_in_out_sine().at(500_000), 500_000);
    assert_eq!(ease_in_out_circ().at(500_000), 500_000);
    // the bounce halves are hand-spliced rather than composed, and their
    // splice misses the symmetric midpoint by design
    assert_eq!(
        webtween::easings::helpers::ease_in_out_bounce().at(500_000),
        117_188
    );
}

#[test]
fn linear_control_points_round_trip() {
    let b = cubic_bezier(0, 0, S, S);
    let mut x = 0;
    while x <= S {
        let r = b.at(x);
        assert!((r - x).abs() <= 100, "bezier identity off at {x}: {r}");
        x += 25_000;
    }
}

#[test]
fn near_vertical_bezier_stays_bounded() {
    let b = cubic_bezier(100_000, 700_000, 900_000, 300_000);
    let mut x = 0;
    while x <= S {
        let r = b.at(x);
        assert!(-10 * S <= r && r <= 10 * S, "diverged at {x}: {r}");
        x += 5_000;
    }
}

#[test]
fn elastic_parameters_are_clamped() {
    match elastic_in(500_000, 5_000_000) {
        Easing::Elastic { amplitude, period, direction } => {
            assert_eq!(amplitude, 1_000_000);
            assert_eq!(period, 2_000_000);
            assert_eq!(direction, Direction::In);
        }
        other => panic!("expected an elastic easing, got {other:?}"),
    }
}

#[test]
fn spring_regimes_classify_by_damping() {
    let under = spring(S, 100 * S, 10 * S, 0).unwrap();
    let critical = spring(S, 100 * S, 20 * S, 0).unwrap();
    let over = spring(S, 100 * S, 40 * S, 0).unwrap();
    match (under, critical, over) {
        (Easing::Spring(u), Easing::Spring(c), Easing::Spring(o)) => {
            assert!(matches!(u.inner, SpringInner::Underdamped(_)));
            assert!(matches!(c.inner, SpringInner::CriticallyDamped(_)));
            assert!(matches!(o.inner, SpringInner::Overdamped(_)));
        }
        _ => panic!("expected spring easings"),
    }
}

#[test]
fn springs_settle_near_their_target() {
    // oscillating and critically damped springs are within noise of the
    // rest position just short of the full settling time (before the
    // endpoint shortcut takes over)
    for damping in [10 * S, 20 * S] {
        let s = spring(S, 100 * S, damping, 0).unwrap();
        let r = s.at(999_999);
        assert!(r.abs() <= 5_000, "not settled at damping {damping}: {r}");
    }
    // the overdamped duration is fixed from the same decay envelope, but
    // the slow overdamped term outlives it, so the curve is still about a
    // third of the way out when the animation ends
    let over = spring(S, 100 * S, 40 * S, 0).unwrap();
    assert_eq!(over.at(999_999), 312_818);
}

#[test]
fn springs_start_at_one_internally() {
    // the internal convention: displacement runs from one toward zero, so
    // the regime solution at elapsed time zero is one, before the public
    // evaluation's output-range handling
    for damping in [10 * S, 20 * S, 40 * S] {
        match spring(S, 100 * S, damping, 0).unwrap() {
            Easing::Spring(s) => {
                let r = s.update_animation(0);
                assert!((r - S).abs() <= 2, "start off at damping {damping}: {r}");
            }
            other => panic!("expected a spring easing, got {other:?}"),
        }
    }
}

#[test]
fn near_critical_overdamped_spring_starts_at_one() {
    // a barely-overdamped spring quantizes to a tiny damped frequency, so
    // its two coefficients grow past a million units; they must cancel to
    // exactly one at the start
    match spring(100 * S, 100_000, 6_324_561, 100 * S).unwrap() {
        Easing::Spring(s) => {
            assert!(matches!(s.inner, SpringInner::Overdamped(_)));
            assert_eq!(s.update_animation(0), S);
        }
        other => panic!("expected a spring easing, got {other:?}"),
    }
}

#[test]
fn bezier_presets_carry_their_own_control_points() {
    let symmetric = webtween::easings::helpers::ease_in_out();
    let r = symmetric.at(500_000);
    assert!((r - 500_000).abs() <= 500, "symmetric preset midpoint: {r}");
    // distinct presets answer distinctly away from the endpoints
    let a = ease().at(250_000);
    let b = webtween::easings::helpers::ease_in().at(250_000);
    assert_ne!(a, b);
}
