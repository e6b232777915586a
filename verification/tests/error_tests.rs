//! Tests of the library error type.

use dailydoco::error::AegntError;

#[test]
fn test_error_creation() {
    let error = AegntError::mouse_humanization("test error");
    assert!(matches!(error, AegntError::MouseHumanization { .. }));
    assert_eq!(error.category(), "mouse_humanization");
    assert!(error.is_recoverable());
}

#[test]
fn test_error_conversions() {
    let io_error = std::io::Error::new(std::io::ErrorKind::NotFound, "file not found");
    let aegnt_error: AegntError = io_error.into();
    assert!(matches!(aegnt_error, AegntError::Network { .. }));
}

#[test]
fn test_error_categories() {
    assert_eq!(AegntError::typing_humanization("x").category(), "typing_humanization");
    assert_eq!(AegntError::audio_humanization("x").category(), "audio_humanization");
    assert_eq!(AegntError::visual_enhancement("x").category(), "visual_enhancement");
    assert_eq!(AegntError::detection_validation("x").category(), "detection_validation");
    assert_eq!(AegntError::configuration("x").category(), "configuration");
    assert_eq!(AegntError::platform("x").category(), "platform");
    assert_eq!(AegntError::cryptography("x").category(), "cryptography");
    assert_eq!(AegntError::network("x").category(), "network");
    assert_eq!(AegntError::permission("x").category(), "permission");
    assert_eq!(AegntError::resource("x").category(), "resource");
    assert_eq!(AegntError::validation("x").category(), "validation");
    assert_eq!(AegntError::internal("x").category(), "internal");
}

#[test]
fn test_error_recoverability() {
    assert!(AegntError::network("x").is_recoverable());
    assert!(AegntError::resource("x").is_recoverable());
    assert!(!AegntError::configuration("x").is_recoverable());
    assert!(!AegntError::platform("x").is_recoverable());
    assert!(!AegntError::cryptography("x").is_recoverable());
    assert!(!AegntError::permission("x").is_recoverable());
    assert!(!AegntError::validation("x").is_recoverable());
    assert!(!AegntError::internal("x").is_recoverable());
}
