//! Library-wide error type: one variant per failure class, with
//! constructors, recoverability and category queries.

use vstd::prelude::*;

use crate::trusted::io_error_message;

verus! {

/// Main error type of the library.
#[derive(Debug, Clone)]
pub enum AegntError {
    /// Mouse humanization failed.
    MouseHumanization { message: String },
    /// Typing humanization failed.
    TypingHumanization { message: String },
    /// Audio humanization failed.
    AudioHumanization { message: String },
    /// Visual enhancement failed.
    VisualEnhancement { message: String },
    /// AI detection validation failed.
    DetectionValidation { message: String },
    /// Configuration is invalid or could not be read.
    Configuration { message: String },
    /// Platform or environment problem.
    Platform { message: String },
    /// Cryptography problem.
    Cryptography { message: String },
    /// Network or I/O problem.
    Network { message: String },
    /// Permission or access denied.
    Permission { message: String },
    /// Resource exhaustion (memory, CPU, handles).
    Resource { message: String },
    /// A value failed validation.
    Validation { message: String },
    /// Generic internal error.
    Internal { message: String },
}

/// Result alias used throughout the library.
pub type AegntResult<T> = Result<T, AegntError>;

/// Whether an error class is worth retrying.
pub open spec fn spec_is_recoverable(e: AegntError) -> bool {
    match e {
        AegntError::MouseHumanization { .. } => true,
        AegntError::TypingHumanization { .. } => true,
        AegntError::AudioHumanization { .. } => true,
        AegntError::VisualEnhancement { .. } => true,
        AegntError::DetectionValidation { .. } => true,
        AegntError::Configuration { .. } => false,
        AegntError::Platform { .. } => false,
        AegntError::Cryptography { .. } => false,
        AegntError::Network { .. } => true,
        AegntError::Permission { .. } => false,
        AegntError::Resource { .. } => true,
        AegntError::Validation { .. } => false,
        AegntError::Internal { .. } => false,
    }
}

/// Category label of an error class.
pub open spec fn spec_category(e: AegntError) -> Seq<char> {
    match e {
        AegntError::MouseHumanization { .. } => "mouse_humanization"@,
        AegntError::TypingHumanization { .. } => "typing_humanization"@,
        AegntError::AudioHumanization { .. } => "audio_humanization"@,
        AegntError::VisualEnhancement { .. } => "visual_enhancement"@,
        AegntError::DetectionValidation { .. } => "detection_validation"@,
        AegntError::Configuration { .. } => "configuration"@,
        AegntError::Platform { .. } => "platform"@,
        AegntError::Cryptography { .. } => "cryptography"@,
        AegntError::Network { .. } => "network"@,
        AegntError::Permission { .. } => "permission"@,
        AegntError::Resource { .. } => "resource"@,
        AegntError::Validation { .. } => "validation"@,
        AegntError::Internal { .. } => "internal"@,
    }
}

impl AegntError {
    /// Build a mouse humanization error.
    pub fn mouse_humanization(message: &str) -> (r: Self)
        ensures
            r matches AegntError::MouseHumanization { message: m } && m@ == message@,
    {
        AegntError::MouseHumanization { message: message.to_owned() }
    }

    /// Build a typing humanization error.
    pub fn typing_humanization(message: &str) -> (r: Self)
        ensures
            r matches AegntError::TypingHumanization { message: m } && m@ == message@,
    {
        AegntError::TypingHumanization { message: message.to_owned() }
    }

    /// Build an audio humanization error.
    pub fn audio_humanization(message: &str) -> (r: Self)
        ensures
            r matches AegntError::AudioHumanization { message: m } && m@ == message@,
    {
        AegntError::AudioHumanization { message: message.to_owned() }
    }

    /// Build a visual enhancement error.
    pub fn visual_enhancement(message: &str) -> (r: Self)
        ensures
            r matches AegntError::VisualEnhancement { message: m } && m@ == message@,
    {
        AegntError::VisualEnhancement { message: message.to_owned() }
    }

    /// Build a detection validation error.
    pub fn detection_validation(message: &str) -> (r: Self)
        ensures
            r matches AegntError::DetectionValidation { message: m } && m@ == message@,
    {
        AegntError::DetectionValidation { message: message.to_owned() }
    }

    /// Build a configuration error.
    pub fn configuration(message: &str) -> (r: Self)
        ensures
            r matches AegntError::Configuration { message: m } && m@ == message@,
    {
        AegntError::Configuration { message: message.to_owned() }
    }

    /// Build a platform error.
    pub fn platform(message: &str) -> (r: Self)
        ensures
            r matches AegntError::Platform { message: m } && m@ == message@,
    {
        AegntError::Platform { message: message.to_owned() }
    }

    /// Build a cryptography error.
    pub fn cryptography(message: &str) -> (r: Self)
        ensures
            r matches AegntError::Cryptography { message: m } && m@ == message@,
    {
        AegntError::Cryptography { message: message.to_owned() }
    }

    /// Build a network error.
    pub fn network(message: &str) -> (r: Self)
        ensures
            r matches AegntError::Network { message: m } && m@ == message@,
    {
        AegntError::Network { message: message.to_owned() }
    }

    /// Build a permission error.
    pub fn permission(message: &str) -> (r: Self)
        ensures
            r matches AegntError::Permission { message: m } && m@ == message@,
    {
        AegntError::Permission { message: message.to_owned() }
    }

    /// Build a resource error.
    pub fn resource(message: &str) -> (r: Self)
        ensures
            r matches AegntError::Resource { message: m } && m@ == message@,
    {
        AegntError::Resource { message: message.to_owned() }
    }

    /// Build a validation error.
    pub fn validation(message: &str) -> (r: Self)
        ensures
            r matches AegntError::Validation { message: m } && m@ == message@,
    {
        AegntError::Validation { message: message.to_owned() }
    }

    /// Build an internal error.
    pub fn internal(message: &str) -> (r: Self)
        ensures
            r matches AegntError::Internal { message: m } && m@ == message@,
    {
        AegntError::Internal { message: message.to_owned() }
    }

    /// Whether the error is worth retrying.
    pub fn is_recoverable(&self) -> (r: bool)
        ensures
            r == spec_is_recoverable(*self),
    {
        match self {
            AegntError::MouseHumanization { .. } => true,
            AegntError::TypingHumanization { .. } => true,
            AegntError::AudioHumanization { .. } => true,
            AegntError::VisualEnhancement { .. } => true,
            AegntError::DetectionValidation { .. } => true,
            AegntError::Configuration { .. } => false,
            AegntError::Platform { .. } => false,
            AegntError::Cryptography { .. } => false,
            AegntError::Network { .. } => true,
            AegntError::Permission { .. } => false,
            AegntError::Resource { .. } => true,
            AegntError::Validation { .. } => false,
            AegntError::Internal { .. } => false,
        }
    }

    /// Category label of the error.
    pub fn category(&self) -> (r: &'static str)
        ensures
            r@ == spec_category(*self),
    {
        match self {
            AegntError::MouseHumanization { .. } => "mouse_humanization",
            AegntError::TypingHumanization { .. } => "typing_humanization",
            AegntError::AudioHumanization { .. } => "audio_humanization",
            AegntError::VisualEnhancement { .. } => "visual_enhancement",
            AegntError::DetectionValidation { .. } => "detection_validation",
            AegntError::Configuration { .. } => "configuration",
            AegntError::Platform { .. } => "platform",
            AegntError::Cryptography { .. } => "cryptography",
            AegntError::Network { .. } => "network",
            AegntError::Permission { .. } => "permission",
            AegntError::Resource { .. } => "resource",
            AegntError::Validation { .. } => "validation",
            AegntError::Internal { .. } => "internal",
        }
    }
}

impl From<std::io::Error> for AegntError {
    /// I/O failures map to the network class, carrying the error text.
    fn from(err: std::io::Error) -> (r: Self)
    {
        AegntError::Network { message: io_error_message(&err) }
    }
}

impl vstd::std_specs::convert::FromSpecImpl<std::io::Error> for AegntError {
    open spec fn obeys_from_spec() -> bool {
        false
    }

    open spec fn from_spec(err: std::io::Error) -> Self {
        arbitrary()
    }
}

} // verus!
