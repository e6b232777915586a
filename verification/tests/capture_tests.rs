//! Tests of the capture engines, sessions and performance gates.

use dailydoco::capture::{
    calculate_optimal_settings, validate_elite_performance, CaptureConfig, CaptureEngineFactory,
    CaptureError, CaptureSession, MockCaptureEngine, MonitorSelection, PerformanceReport,
    QualityPreset,
};
use dailydoco::controller::{CaptureController, PerformanceTargets};
use dailydoco::frame::{convert_frame_format, FrameFormat, Resolution};

fn test_config(resolution: Resolution, format: FrameFormat, privacy: bool) -> CaptureConfig {
    CaptureConfig {
        target_fps: 30,
        resolution,
        format,
        enable_gpu_acceleration: false,
        enable_privacy_filter: privacy,
        monitor_selection: MonitorSelection::Primary,
        quality_preset: QualityPreset::Development,
    }
}

#[test]
fn test_mock_capture_engine() {
    let mut engine = MockCaptureEngine::new();
    let config = test_config(Resolution::FHD, FrameFormat::RGBA8, true);
    engine.initialize(config.clone()).unwrap();

    let frame = engine.capture_frame().unwrap();
    assert_eq!(frame.width, 1920);
    assert_eq!(frame.height, 1080);
    assert_eq!(frame.format, FrameFormat::RGBA8);

    let performance_report = engine.validate_performance(&config).unwrap();
    assert!(performance_report.estimated_cpu_centi_percent < 500);
}

#[test]
fn test_performance_validation() {
    let config = test_config(Resolution::UHD4K, FrameFormat::RGBA8, true);
    let report = PerformanceReport {
        estimated_fps: 30,
        estimated_cpu_centi_percent: 350,
        estimated_memory_mb: 150,
        gpu_acceleration_available: true,
        bottlenecks: vec![],
        recommendations: vec![],
    };
    validate_elite_performance(&config, &report).unwrap();
}

#[test]
fn test_elite_performance_rejections() {
    let config = test_config(Resolution::UHD4K, FrameFormat::RGBA8, true);
    let hot = PerformanceReport {
        estimated_fps: 30,
        estimated_cpu_centi_percent: 900,
        estimated_memory_mb: 150,
        gpu_acceleration_available: false,
        bottlenecks: vec![],
        recommendations: vec![],
    };
    assert!(matches!(
        validate_elite_performance(&config, &hot),
        Err(CaptureError::PerformanceTargetNotMet { .. })
    ));
    let fat = PerformanceReport {
        estimated_fps: 30,
        estimated_cpu_centi_percent: 300,
        estimated_memory_mb: 300,
        gpu_acceleration_available: false,
        bottlenecks: vec![],
        recommendations: vec![],
    };
    assert!(matches!(
        validate_elite_performance(&config, &fat),
        Err(CaptureError::MemoryLimitExceeded { current_mb: 300, limit_mb: 200 })
    ));
}

#[test]
fn test_capture_session() {
    let config = test_config(Resolution::FHD, FrameFormat::RGBA8, true);
    let mut session = CaptureSession::new(config);
    let frame = session.capture_frame().unwrap();

    assert_eq!(frame.width, 1920);
    assert_eq!(frame.height, 1080);
    assert!(frame.metadata.privacy_filtered);
}

#[test]
fn test_frame_buffer_length_matches_format() {
    // buffer length always equals width * height * bytes per pixel
    for format in [FrameFormat::RGBA8, FrameFormat::BGRA8, FrameFormat::RGB8, FrameFormat::YUV420P, FrameFormat::NV12] {
        let config = test_config(Resolution::Custom { width: 64, height: 32 }, format, false);
        let mut session = CaptureSession::new(config);
        let frame = session.capture_frame().unwrap();
        let expected = match format {
            FrameFormat::RGBA8 | FrameFormat::BGRA8 => 64 * 32 * 4,
            FrameFormat::RGB8 => 64 * 32 * 3,
            FrameFormat::YUV420P | FrameFormat::NV12 => 64 * 32 * 3 / 2,
        };
        assert_eq!(frame.data.len(), expected);
    }
}

#[test]
fn test_capture_frame_example_scenario() {
    // FHD RGBA capture without GPU acceleration on the mock backend
    let mut engine = MockCaptureEngine::new();
    let config = test_config(Resolution::FHD, FrameFormat::RGBA8, false);
    engine.initialize(config.clone()).unwrap();
    let frame = engine.capture_frame().unwrap();
    assert_eq!(frame.width, 1920);
    assert_eq!(frame.height, 1080);
    assert_eq!(frame.format, FrameFormat::RGBA8);
    assert_eq!(frame.data.len(), 8294400);
    let report = engine.validate_performance(&config).unwrap();
    assert!(report.estimated_cpu_centi_percent < 500);
}

#[test]
fn test_frame_format_conversion() {
    let rgba_data = vec![255, 0, 0, 255, 0, 255, 0, 255];
    let rgb_data = convert_frame_format(&rgba_data, FrameFormat::RGBA8, FrameFormat::RGB8, 2, 1);
    assert_eq!(rgb_data, vec![255, 0, 0, 0, 255, 0]);
}

#[test]
fn test_bgra_to_rgba_conversion() {
    let bgra = vec![1, 2, 3, 4, 10, 20, 30, 40];
    let rgba = convert_frame_format(&bgra, FrameFormat::BGRA8, FrameFormat::RGBA8, 2, 1);
    assert_eq!(rgba, vec![3, 2, 1, 4, 30, 20, 10, 40]);
}

#[test]
fn test_capture_controller_creation() {
    let controller = CaptureController::new();
    assert!(!controller.is_capturing());
}

#[test]
fn test_capture_controller_lifecycle() {
    let mut controller = CaptureController::new();
    let config = test_config(Resolution::FHD, FrameFormat::RGBA8, false);
    controller
        .initialize("linux", config, &PerformanceTargets::default())
        .unwrap();
    assert!(controller.is_capturing());
    let frame = controller.capture_frame().unwrap();
    assert!(frame.is_some());
    controller.stop_capture().unwrap();
    assert!(!controller.is_capturing());
    assert!(controller.capture_frame().unwrap().is_none());
}

#[test]
fn test_performance_targets_validation() {
    let controller = CaptureController::new();
    let targets = PerformanceTargets::default();

    let good_report = PerformanceReport {
        estimated_fps: 30,
        estimated_cpu_centi_percent: 300,
        estimated_memory_mb: 150,
        gpu_acceleration_available: true,
        bottlenecks: vec![],
        recommendations: vec![],
    };
    assert!(controller.validate_performance_targets(&good_report, &targets).is_ok());

    let bad_report = PerformanceReport {
        estimated_fps: 15,
        estimated_cpu_centi_percent: 800,
        estimated_memory_mb: 300,
        gpu_acceleration_available: false,
        bottlenecks: vec!["CPU bottleneck".to_string()],
        recommendations: vec!["Enable GPU acceleration".to_string()],
    };
    assert!(controller.validate_performance_targets(&bad_report, &targets).is_err());
}

#[test]
fn test_engine_factory() {
    assert!(CaptureEngineFactory::create_engine("linux").is_ok());
    assert!(CaptureEngineFactory::create_engine("windows").is_ok());
    assert!(CaptureEngineFactory::create_engine("macos").is_ok());
    assert!(matches!(
        CaptureEngineFactory::create_engine("plan9"),
        Err(CaptureError::PlatformNotSupported { .. })
    ));
}

#[test]
fn test_optimal_settings() {
    let engine = MockCaptureEngine::new();
    let caps = engine.get_capabilities();
    let config = calculate_optimal_settings(&caps, QualityPreset::Balanced);
    assert_eq!(config.target_fps, 30);
    assert!(matches!(config.resolution, Resolution::FHD));
    assert!(config.enable_privacy_filter);
}

#[test]
fn test_uninitialized_engine_fails() {
    let engine = MockCaptureEngine::new();
    assert!(matches!(engine.capture_frame(), Err(CaptureError::Internal { .. })));
}

#[test]
fn test_privacy_filter_needs_four_byte_format() {
    // fail closed: a session that cannot filter must not return frames
    let config = test_config(Resolution::HD, FrameFormat::RGB8, true);
    let mut session = CaptureSession::new(config);
    assert!(matches!(
        session.capture_frame(),
        Err(CaptureError::PrivacyFilterFailed { .. })
    ));
}

#[test]
fn test_invalid_dimensions_rejected() {
    let mut engine = MockCaptureEngine::new();
    let config = test_config(Resolution::Custom { width: 0, height: 10 }, FrameFormat::RGBA8, false);
    assert!(engine.initialize(config).is_err());
}

#[test]
fn test_controller_initialize_gates() {
    // an unknown platform fails fatally, naming the platform
    let mut controller = CaptureController::new();
    let config = test_config(Resolution::FHD, FrameFormat::RGBA8, false);
    match controller.initialize("plan9", config.clone(), &PerformanceTargets::default()) {
        Err(CaptureError::PlatformNotSupported { platform }) => assert_eq!(platform, "plan9"),
        other => panic!("expected PlatformNotSupported, got {other:?}"),
    }
    assert!(!controller.is_capturing());

    // a configuration beyond the CPU budget is refused before start
    let strict = PerformanceTargets { max_cpu_centi_percent: 0, ..PerformanceTargets::default() };
    assert!(matches!(
        controller.initialize("linux", config.clone(), &strict),
        Err(CaptureError::PerformanceTargetNotMet { .. })
    ));
    assert!(!controller.is_capturing());

    // within budget the session must start
    controller.initialize("linux", config, &PerformanceTargets::default()).unwrap();
    assert!(controller.is_capturing());
    let monitors = controller.get_available_monitors().unwrap();
    assert!(monitors[0].is_primary);
}
