//! Property-value model behaviour: units, value comparison and construction.

use std::cmp::Ordering;

use webtween::properties::{PropertyValue, Unit, Value, ValueOp};
use webtween::properties::unit_from_suffix;

#[test]
fn unit_from_suffix_maps_every_keyword() {
    assert_eq!(unit_from_suffix("%"), Some(Unit::Percent));
    assert_eq!(unit_from_suffix("px"), Some(Unit::Px));
    assert_eq!(unit_from_suffix("pt"), Some(Unit::Pt));
    assert_eq!(unit_from_suffix("em"), Some(Unit::Em));
    assert_eq!(unit_from_suffix("rem"), Some(Unit::Rem));
    assert_eq!(unit_from_suffix("in"), Some(Unit::In));
    assert_eq!(unit_from_suffix("cm"), Some(Unit::Cm));
    assert_eq!(unit_from_suffix("mm"), Some(Unit::Mm));
    assert_eq!(unit_from_suffix("ex"), Some(Unit::Ex));
    assert_eq!(unit_from_suffix("ch"), Some(Unit::Ch));
    assert_eq!(unit_from_suffix("pc"), Some(Unit::Pc));
    assert_eq!(unit_from_suffix("vw"), Some(Unit::Vw));
    assert_eq!(unit_from_suffix("vh"), Some(Unit::Vh));
    assert_eq!(unit_from_suffix("vmin"), Some(Unit::Vmin));
    assert_eq!(unit_from_suffix("vmax"), Some(Unit::Vmax));
    assert_eq!(unit_from_suffix("deg"), Some(Unit::Deg));
    assert_eq!(unit_from_suffix("rad"), Some(Unit::Rad));
    assert_eq!(unit_from_suffix("turn"), Some(Unit::Turn));
}

#[test]
fn unit_from_suffix_rejects_other_text() {
    assert_eq!(unit_from_suffix(""), None);
    assert_eq!(unit_from_suffix("q"), None);
    assert_eq!(unit_from_suffix("PX"), None);
    assert_eq!(unit_from_suffix("pixels"), None);
}

// The unit-suffix pattern keeps the surrounding slashes and trailing anchor
// of its source notation as literal characters, so it can never match a
// value string: the lookup answers `None` for every input.
#[test]
fn from_value_pattern_never_matches() {
    assert_eq!(Unit::from_value("10px"), None);
    assert_eq!(Unit::from_value("50%"), None);
    assert_eq!(Unit::from_value("1.5e2rem"), None);
    assert_eq!(Unit::from_value(""), None);
    assert_eq!(Unit::from_value("plain"), None);
    // A bare keyword is no unit suffix either: were the lookup to hand the
    // whole text through as its capture, this one would map to `Px`.
    assert_eq!(Unit::from_value("px"), None);
}

#[test]
fn value_from_bare_amount_is_unitless() {
    assert_eq!(Value::from(5_i32), Value::from(5_i32));
    assert_ne!(Value::from(5_i32), Value::<i32>::from((5, Unit::Px)));
}

#[test]
fn values_with_matching_units_compare_by_amount() {
    let a = Value::<i32>::from((1, Unit::Px));
    let b = Value::<i32>::from((2, Unit::Px));
    assert_eq!(a.partial_cmp(&b), Some(Ordering::Less));
    assert_eq!(b.partial_cmp(&a), Some(Ordering::Greater));
    assert_eq!(a.partial_cmp(&a), Some(Ordering::Equal));
}

#[test]
fn unitless_values_compare_by_amount() {
    let a = Value::from(3_i32);
    let b = Value::from(3_i32);
    assert_eq!(a.partial_cmp(&b), Some(Ordering::Equal));
}

#[test]
fn values_with_different_units_do_not_compare() {
    let px = Value::<i32>::from((1, Unit::Px));
    let em = Value::<i32>::from((2, Unit::Em));
    assert_eq!(px.partial_cmp(&em), None);
    let bare = Value::from(1_i32);
    assert_eq!(px.partial_cmp(&bare), None);
    assert_eq!(bare.partial_cmp(&px), None);
}

#[test]
fn property_value_from_amount_is_exact() {
    assert_eq!(PropertyValue::from(3_i32), PropertyValue::Exact(Value::from(3_i32)));
    assert_eq!(
        PropertyValue::<i32>::from((3, Unit::Deg)),
        PropertyValue::Exact(Value::<i32>::from((3, Unit::Deg)))
    );
}

#[test]
fn value_op_carries_its_value() {
    assert_eq!(ValueOp::Add(Value::from(1_i32)), ValueOp::Add(Value::from(1_i32)));
    assert_ne!(ValueOp::Add(Value::from(1_i32)), ValueOp::Subtract(Value::from(1_i32)));
}
