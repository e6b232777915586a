//! Tests of configuration defaults and validation.

use dailydoco::ai::{DeveloperSettings, OpenRouterConfig};
use dailydoco::config::AegntConfig;
use dailydoco::utils::Validate;
use dailydoco::{AUTHORS, DESCRIPTION, VERSION};

#[test]
fn test_default_config_validation() {
    let config = AegntConfig::default();
    assert!(config.validate().is_ok());
}

#[test]
fn test_invalid_config_validation() {
    let mut config = AegntConfig::default();
    config.mouse.authenticity_target_milli = 1500; // above 1.0
    assert!(config.validate().is_err());
}

#[test]
fn test_developer_settings() {
    let settings = DeveloperSettings::default();
    assert!(!settings.openrouter_enabled);
    assert!(!settings.experimental_features);
    assert!(!settings.debug_mode);
}

#[test]
fn test_openrouter_config() {
    let config = OpenRouterConfig::default();
    assert_eq!(config.app_name, "DailyDoco Pro");
    assert!(!config.enabled);
    assert!(!config.developer_mode);
}

#[test]
fn test_version_info() {
    assert!(!VERSION.is_empty());
    assert!(!AUTHORS.is_empty());
    assert!(!DESCRIPTION.is_empty());
}

#[test]
fn test_app_config_defaults() {
    let config = dailydoco::app_settings::AppConfig::default();
    assert_eq!(config.capture.fps, 30);
    assert_eq!(config.capture.quality, "high");
    assert!(config.privacy.sensitive_content_detection);
    assert_eq!(config.performance.max_cpu_centi_percent, 8000);
}

#[test]
fn test_invalid_typing_speed() {
    let mut config = AegntConfig::default();
    config.typing.base_typing_speed_wpm = 0;
    assert!(config.validate().is_err());
}
