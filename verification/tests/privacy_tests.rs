//! Tests of the privacy filter: detection, merge and redaction.

use dailydoco::privacy::{
    content_risk, regions_overlap, AdvancedPrivacyFilter, DetectedSensitiveRegion, PrivacyConfig,
    RiskLevel, SensitiveContentType, SensitivityLevel, TextObservation,
};

/// A small frame with varied pixel values.
fn gradient_frame(width: u32, height: u32) -> Vec<u8> {
    let len = (width * height * 4) as usize;
    let mut data = Vec::with_capacity(len);
    for i in 0..len {
        if i % 4 == 3 {
            data.push(255); // opaque alpha
        } else {
            data.push((i % 251) as u8);
        }
    }
    data
}

fn obs(x: u32, y: u32, w: u32, h: u32, text: &str) -> TextObservation {
    TextObservation { x, y, width: w, height: h, text: text.to_string() }
}

fn in_region(i: usize, width: u32, x: u32, y: u32, w: u32, h: u32) -> bool {
    let p = (i / 4) as u32;
    let px = p % width;
    let py = p / width;
    px >= x && px < x + w && py >= y && py < y + h
}

#[test]
fn test_privacy_filter_creation() {
    let config = PrivacyConfig::default();
    let filter = AdvancedPrivacyFilter::new(config);
    assert!(filter.is_ok());
}

#[test]
fn test_frame_processing() {
    let config = PrivacyConfig::default();
    let filter = AdvancedPrivacyFilter::new(config).unwrap();

    let test_data = vec![255u8; 1920 * 1080 * 4];
    let no_obs: Vec<TextObservation> = Vec::new();
    let result = filter.process_frame(&test_data, 1920, 1080, &no_obs);

    assert!(result.is_ok());
    let processed = result.unwrap();
    assert_eq!(processed.len(), test_data.len());
}

#[test]
fn test_frame_length_mismatch_rejected() {
    let filter = AdvancedPrivacyFilter::new(PrivacyConfig::default()).unwrap();
    let short = vec![0u8; 10];
    let no_obs: Vec<TextObservation> = Vec::new();
    assert!(filter.process_frame(&short, 1920, 1080, &no_obs).is_err());
}

#[test]
fn test_region_overlap_detection() {
    let region1 = DetectedSensitiveRegion {
        x: 10, y: 10, width: 50, height: 50,
        confidence_milli: 900,
        content_type: SensitiveContentType::Email,
        risk_level: RiskLevel::High,
    };
    let region2 = DetectedSensitiveRegion {
        x: 30, y: 30, width: 50, height: 50,
        confidence_milli: 800,
        content_type: SensitiveContentType::ApiKey,
        risk_level: RiskLevel::Medium,
    };
    assert!(regions_overlap(&region1, &region2));

    let region3 = DetectedSensitiveRegion {
        x: 100, y: 100, width: 50, height: 50,
        confidence_milli: 700,
        content_type: SensitiveContentType::CreditCard,
        risk_level: RiskLevel::Critical,
    };
    assert!(!regions_overlap(&region1, &region3));
}

#[test]
fn test_content_risk_floor() {
    // credit cards, social security numbers and passwords are always critical
    assert_eq!(content_risk(&SensitiveContentType::CreditCard), RiskLevel::Critical);
    assert_eq!(content_risk(&SensitiveContentType::SocialSecurityNumber), RiskLevel::Critical);
    assert_eq!(content_risk(&SensitiveContentType::Password), RiskLevel::Critical);
    assert_eq!(content_risk(&SensitiveContentType::Email), RiskLevel::High);
    assert_eq!(content_risk(&SensitiveContentType::ApiKey), RiskLevel::High);
}

#[test]
fn test_email_region_redacted() {
    // reported e-mail text must leave the byte range changed (pixelated)
    let mut config = PrivacyConfig::default();
    config.sensitivity_level = SensitivityLevel::Low; // text patterns only
    let filter = AdvancedPrivacyFilter::new(config).unwrap();
    let data = gradient_frame(100, 100);
    let observations = vec![obs(16, 16, 40, 16, "user@example.com")];
    let out = filter.process_frame(&data, 100, 100, &observations).unwrap();
    assert_eq!(out.len(), data.len());
    assert_ne!(out, data, "the e-mail region must not be left unchanged");
    // changes confined to the reported region; alpha untouched
    for i in 0..data.len() {
        if i % 4 == 3 {
            assert_eq!(out[i], data[i], "alpha byte {i} changed");
        }
        if !in_region(i, 100, 16, 16, 40, 16) {
            assert_eq!(out[i], data[i], "byte {i} outside the region changed");
        }
    }
    // pixelation: the block anchor keeps its colour and floods its block
    let anchor = ((16u32 * 100 + 16) * 4) as usize;
    assert_eq!(out[anchor], data[anchor]);
    let neighbour = ((17u32 * 100 + 17) * 4) as usize;
    assert_eq!(out[neighbour], data[anchor]);
}

#[test]
fn test_credit_card_region_blacked_out() {
    let mut config = PrivacyConfig::default();
    config.sensitivity_level = SensitivityLevel::Low;
    let filter = AdvancedPrivacyFilter::new(config).unwrap();
    let data = gradient_frame(64, 64);
    let observations = vec![obs(8, 8, 32, 8, "4111 1111 1111 1111")];
    let out = filter.process_frame(&data, 64, 64, &observations).unwrap();
    for i in 0..data.len() {
        if in_region(i, 64, 8, 8, 32, 8) {
            if i % 4 == 3 {
                assert_eq!(out[i], 255, "alpha must be preserved");
            } else {
                assert_eq!(out[i], 0, "colour channel {i} must be blacked out");
            }
        } else {
            assert_eq!(out[i], data[i]);
        }
    }
}

#[test]
fn test_overlapping_detections_keep_highest_confidence() {
    // a credit card (confidence 950) and an e-mail (930) overlap: only
    // the credit card's blackout is applied
    let mut config = PrivacyConfig::default();
    config.sensitivity_level = SensitivityLevel::Low;
    let filter = AdvancedPrivacyFilter::new(config).unwrap();
    let data = gradient_frame(64, 64);
    let observations = vec![
        obs(8, 8, 16, 8, "4111 1111 1111 1111"),
        obs(16, 8, 16, 8, "user@example.com"),
    ];
    let out = filter.process_frame(&data, 64, 64, &observations).unwrap();
    // inside the credit card rectangle: blacked out
    let inside = ((9u32 * 64 + 9) * 4) as usize;
    assert_eq!(out[inside], 0);
    // inside the e-mail rectangle but outside the card's: untouched,
    // because the overlapping lower-confidence region was dropped
    let email_only = ((9u32 * 64 + 30) * 4) as usize;
    assert_eq!(out[email_only], data[email_only]);
}

#[test]
fn test_filter_idempotent_on_filtered_frame() {
    // processing an already-filtered frame again changes nothing
    let mut config = PrivacyConfig::default();
    config.sensitivity_level = SensitivityLevel::Low;
    let filter = AdvancedPrivacyFilter::new(config).unwrap();
    let data = gradient_frame(64, 64);
    let observations = vec![
        obs(8, 8, 16, 8, "4111 1111 1111 1111"),
        obs(32, 32, 24, 8, "user@example.com"),
    ];
    let once = filter.process_frame(&data, 64, 64, &observations).unwrap();
    let twice = filter.process_frame(&once, 64, 64, &observations).unwrap();
    assert_eq!(once, twice, "the filter must be idempotent");
}

#[test]
fn test_high_threshold_filters_all_detections() {
    // with the threshold at 0.99 every simulated detection (at most
    // 0.95) is dropped and the buffer comes back byte-identical
    let mut config = PrivacyConfig::default();
    config.detection_confidence_threshold_milli = 990;
    let filter = AdvancedPrivacyFilter::new(config).unwrap();
    let data = gradient_frame(100, 100);
    let observations = vec![
        obs(16, 16, 40, 16, "user@example.com"),
        obs(8, 48, 32, 8, "4111 1111 1111 1111"),
    ];
    let out = filter.process_frame(&data, 100, 100, &observations).unwrap();
    assert_eq!(out, data, "all detections below the threshold: no redaction");
}

#[test]
fn test_invalid_custom_pattern_dropped() {
    let mut config = PrivacyConfig::default();
    config.custom_patterns = vec!["[unclosed".to_string(), "secret-[0-9]+".to_string()];
    let filter = AdvancedPrivacyFilter::new(config);
    assert!(filter.is_ok());
    // the valid custom pattern still detects
    let filter = filter.unwrap();
    let data = gradient_frame(64, 64);
    let observations = vec![obs(8, 8, 16, 8, "secret-12345")];
    let out = filter.process_frame(&data, 64, 64, &observations).unwrap();
    assert_ne!(out, data, "the custom pattern must trigger a redaction");
}
