//! Error descriptions and target construction.

use webtween::easings::Direction as EasingDirection;
use webtween::engine::EngineError;
use webtween::target::{Target, TargetError};

#[test]
fn engine_error_messages() {
    assert_eq!(EngineError::ReadError.message(), "Engine Async Read Error");
    assert_eq!(EngineError::WriteError.message(), "Engine Async Write Error");
    assert_eq!(
        EngineError::RafFailure.message(),
        "Failed to call requestAnimationFrame"
    );
}

#[test]
fn target_error_messages() {
    assert_eq!(
        TargetError::Convert.message(),
        "failed to convert node to HtmlElement"
    );
    assert_eq!(TargetError::Range.message(), "Node index out of range");
    assert_eq!(TargetError::Css.message(), "Failed to set CSS Value");
}

#[test]
fn target_from_str_is_a_selector() {
    assert_eq!(Target::from(".box"), Target::Selector(".box"));
}

#[test]
fn easing_direction_variants_are_distinct() {
    assert_ne!(EasingDirection::In, EasingDirection::Out);
    assert_ne!(EasingDirection::InOut, EasingDirection::OutIn);
    assert_eq!(EasingDirection::In.clone(), EasingDirection::In);
}
