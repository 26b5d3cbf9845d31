//! The model of animated property values.
//!
//! A [`Value`] is an amount together with an optional CSS [`Unit`]; a
//! [`PropertyValue`] describes how an animated property gets its values: an
//! exact value, a value relative to the current one, a from/to range, or a
//! list of keyframes. [`Unit::from_value`] recovers the unit suffix from a
//! property-value string.

use vstd::prelude::*;
use vstd::std_specs::cmp::PartialOrdSpec;

verus! {

/// An amount with an optional CSS unit.
#[derive(Debug, PartialEq, Clone)]
pub struct Value<T>(T, Option<Unit>);

impl<T> Value<T> {
    /// The amount the value carries.
    pub closed spec fn amount(self) -> T {
        self.0
    }

    /// The unit the value carries, if any.
    pub closed spec fn unit(self) -> Option<Unit> {
        self.1
    }
}

impl<T> From<T> for Value<T> {
    /// A bare amount becomes a unitless value.
    fn from(t: T) -> (r: Self) {
        Value(t, None)
    }
}

impl<T> vstd::std_specs::convert::FromSpecImpl<T> for Value<T> {
    open spec fn obeys_from_spec() -> bool {
        true
    }

    closed spec fn from_spec(t: T) -> Self {
        Value(t, None)
    }
}

impl<T> From<(T, Unit)> for Value<T> {
    /// An amount paired with a unit becomes a value in that unit.
    fn from(pair: (T, Unit)) -> (r: Self) {
        Value(pair.0, Some(pair.1))
    }
}

impl<T> vstd::std_specs::convert::FromSpecImpl<(T, Unit)> for Value<T> {
    open spec fn obeys_from_spec() -> bool {
        true
    }

    closed spec fn from_spec(pair: (T, Unit)) -> Self {
        Value(pair.0, Some(pair.1))
    }
}

impl<T: PartialOrd> PartialOrd for Value<T> {
    /// Two values compare by amount when their units agree (both the same
    /// unit, or both unitless); values in different units are incomparable.
    fn partial_cmp(&self, other: &Self) -> (r: Option<core::cmp::Ordering>) {
        match (self.1, other.1) {
            (Some(self_unit), Some(other_unit)) => {
                if self_unit == other_unit {
                    self.0.partial_cmp(&other.0)
                } else {
                    None
                }
            },
            (None, None) => self.0.partial_cmp(&other.0),
            _ => None,
        }
    }
}

impl<T: PartialOrd> vstd::std_specs::cmp::PartialOrdSpecImpl for Value<T> {
    open spec fn obeys_partial_cmp_spec() -> bool {
        <T as vstd::std_specs::cmp::PartialOrdSpec>::obeys_partial_cmp_spec()
    }

    closed spec fn partial_cmp_spec(&self, other: &Self) -> Option<core::cmp::Ordering> {
        match (self.unit(), other.unit()) {
            (Some(self_unit), Some(other_unit)) => {
                if self_unit == other_unit {
                    self.amount().partial_cmp_spec(&other.amount())
                } else {
                    None
                }
            },
            (None, None) => self.amount().partial_cmp_spec(&other.amount()),
            _ => None,
        }
    }
}

/// How an animated property gets its values.
#[derive(Debug, PartialEq)]
pub enum PropertyValue<T> {
    /// The property is driven to one exact value.
    Exact(Value<T>),
    /// The property changes relative to its current value.
    Relative(ValueOp<T>),
    /// The property runs from the first value to the second.
    Range(Value<T>, Value<T>),
    /// The property follows a list of keyframes.
    Keyframes(Vec<PropertyKeyframe<T>>),
}

impl<T> From<T> for PropertyValue<T> {
    /// A bare amount becomes an exact, unitless property value.
    fn from(t: T) -> (r: Self) {
        PropertyValue::Exact(Value(t, None))
    }
}

impl<T> vstd::std_specs::convert::FromSpecImpl<T> for PropertyValue<T> {
    open spec fn obeys_from_spec() -> bool {
        true
    }

    closed spec fn from_spec(t: T) -> Self {
        PropertyValue::Exact(Value(t, None))
    }
}

impl<T> From<(T, Unit)> for PropertyValue<T> {
    /// An amount paired with a unit becomes an exact property value in that
    /// unit.
    fn from(pair: (T, Unit)) -> (r: Self) {
        PropertyValue::Exact(Value(pair.0, Some(pair.1)))
    }
}

impl<T> vstd::std_specs::convert::FromSpecImpl<(T, Unit)> for PropertyValue<T> {
    open spec fn obeys_from_spec() -> bool {
        true
    }

    closed spec fn from_spec(pair: (T, Unit)) -> Self {
        PropertyValue::Exact(Value(pair.0, Some(pair.1)))
    }
}

/// One step of a keyframe list.
#[derive(Debug, PartialEq)]
pub struct PropertyKeyframe<T> {
    value: Value<T>,
}

/// A change of a property relative to its current value.
#[derive(Debug, PartialEq)]
pub enum ValueOp<T> {
    Add(Value<T>),
    Subtract(Value<T>),
    Multiply(Value<T>),
}

/// A CSS unit that an animated amount can carry.
#[derive(Debug, PartialEq, Eq, Structural, Clone, Copy)]
pub enum Unit {
    Dimensionless,
    Percent,
    Px,
    Pt,
    Em,
    Rem,
    In,
    Cm,
    Mm,
    Ex,
    Ch,
    Pc,
    Vw,
    Vh,
    Vmin,
    Vmax,
    Deg,
    Rad,
    Turn,
}

/// The first capture group that the unit-suffix pattern finds in a
/// property-value string: the unit keyword, if the pattern matches the text
/// and the group takes part in the match. The result depends on the text
/// alone.
pub uninterp spec fn unit_capture(text: Seq<char>) -> Option<Seq<char>>;

/// Relies on `regex::Regex::captures` (with `Regex::new`,
/// `Captures::get` and `Match::as_str` around it), applied to the
/// unit-suffix pattern: the returned group is a deterministic function of
/// the text, named here by [`unit_capture`].
#[verifier::external_body]
fn capture_unit_suffix(text: &str) -> (r: Option<String>)
    ensures
        match r {
            Some(s) => unit_capture(text@) == Some(s@),
            None => unit_capture(text@) is None,
        },
{
    let re = regex::Regex::new(
        r"/[+-]?\d*\.?\d+(?:\.\d+)?(?:[eE][+-]?\d+)?(%|px|pt|em|rem|in|cm|mm|ex|ch|pc|vw|vh|vmin|vmax|deg|rad|turn)?$/",
    )
    .ok()?;
    Some(re.captures(text)?.get(1)?.as_str().to_owned())
}

/// The unit named by a captured suffix, by its exact keyword.
pub open spec fn spec_unit_from_suffix(s: Seq<char>) -> Option<Unit> {
    if s == "%"@ {
        Some(Unit::Percent)
    } else if s == "px"@ {
        Some(Unit::Px)
    } else if s == "pt"@ {
        Some(Unit::Pt)
    } else if s == "em"@ {
        Some(Unit::Em)
    } else if s == "rem"@ {
        Some(Unit::Rem)
    } else if s == "in"@ {
        Some(Unit::In)
    } else if s == "cm"@ {
        Some(Unit::Cm)
    } else if s == "mm"@ {
        Some(Unit::Mm)
    } else if s == "ex"@ {
        Some(Unit::Ex)
    } else if s == "ch"@ {
        Some(Unit::Ch)
    } else if s == "pc"@ {
        Some(Unit::Pc)
    } else if s == "vw"@ {
        Some(Unit::Vw)
    } else if s == "vh"@ {
        Some(Unit::Vh)
    } else if s == "vmin"@ {
        Some(Unit::Vmin)
    } else if s == "vmax"@ {
        Some(Unit::Vmax)
    } else if s == "deg"@ {
        Some(Unit::Deg)
    } else if s == "rad"@ {
        Some(Unit::Rad)
    } else if s == "turn"@ {
        Some(Unit::Turn)
    } else {
        None
    }
}

/// Compare two string slices by their characters.
fn str_eq(a: &str, b: &str) -> (r: bool)
    ensures
        r == (a@ == b@),
{
    let a_owned = a.to_owned();
    let b_owned = b.to_owned();
    a_owned == b_owned
}

/// Map a captured unit suffix to the unit it names.
pub fn unit_from_suffix(s: &str) -> (r: Option<Unit>)
    ensures
        r == spec_unit_from_suffix(s@),
{
    if str_eq(s, "%") {
        Some(Unit::Percent)
    } else if str_eq(s, "px") {
        Some(Unit::Px)
    } else if str_eq(s, "pt") {
        Some(Unit::Pt)
    } else if str_eq(s, "em") {
        Some(Unit::Em)
    } else if str_eq(s, "rem") {
        Some(Unit::Rem)
    } else if str_eq(s, "in") {
        Some(Unit::In)
    } else if str_eq(s, "cm") {
        Some(Unit::Cm)
    } else if str_eq(s, "mm") {
        Some(Unit::Mm)
    } else if str_eq(s, "ex") {
        Some(Unit::Ex)
    } else if str_eq(s, "ch") {
        Some(Unit::Ch)
    } else if str_eq(s, "pc") {
        Some(Unit::Pc)
    } else if str_eq(s, "vw") {
        Some(Unit::Vw)
    } else if str_eq(s, "vh") {
        Some(Unit::Vh)
    } else if str_eq(s, "vmin") {
        Some(Unit::Vmin)
    } else if str_eq(s, "vmax") {
        Some(Unit::Vmax)
    } else if str_eq(s, "deg") {
        Some(Unit::Deg)
    } else if str_eq(s, "rad") {
        Some(Unit::Rad)
    } else if str_eq(s, "turn") {
        Some(Unit::Turn)
    } else {
        None
    }
}

impl Unit {
    /// The unit suffix of a property-value string, as the unit-suffix
    /// pattern captures it.
    pub fn from_value(text: &str) -> (r: Option<Unit>)
        ensures
            r == match unit_capture(text@) {
                Some(suffix) => spec_unit_from_suffix(suffix),
                None => None::<Unit>,
            },
    {
        match capture_unit_suffix(text) {
            Some(suffix) => unit_from_suffix(suffix.as_str()),
            None => None,
        }
    }
}

} // verus!
