//! Playback-parameter behaviour: direction flipping and repeat bookkeeping.

use webtween::{Direction, Repeat, Stagger};

#[test]
fn direction_reverse_swaps_normal_and_reverse() {
    let mut d = Direction::Normal;
    d.reverse();
    assert_eq!(d, Direction::Reverse);
    d.reverse();
    assert_eq!(d, Direction::Normal);
}

#[test]
fn direction_reverse_keeps_alternate() {
    let mut d = Direction::Alternate;
    d.reverse();
    assert_eq!(d, Direction::Alternate);
}

#[test]
fn repeat_remaining_counts_runs_left() {
    let r = Repeat::Finite { current: 2, total: 5 };
    assert_eq!(r.remaining(), Some(3));
    let done = Repeat::Finite { current: 4, total: 4 };
    assert_eq!(done.remaining(), Some(0));
}

#[test]
fn repeat_remaining_is_none_for_infinite() {
    assert_eq!(Repeat::Infinite.remaining(), None);
}

#[test]
fn repeat_add_grants_more_runs() {
    let mut r = Repeat::Finite { current: 1, total: 3 };
    r.add(2);
    assert_eq!(r, Repeat::Finite { current: 1, total: 5 });
    assert_eq!(r.remaining(), Some(4));
}

#[test]
fn repeat_add_leaves_infinite_alone() {
    let mut r = Repeat::Infinite;
    r.add(7);
    assert_eq!(r, Repeat::Infinite);
}

#[test]
fn stagger_carries_its_values() {
    let single = Stagger::Value(10_u32, None);
    assert!(matches!(single, Stagger::Value(10, None)));
    let spread = Stagger::Range(0_u32, 100_u32);
    assert!(matches!(spread, Stagger::Range(0, 100)));
}
