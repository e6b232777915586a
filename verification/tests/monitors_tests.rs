//! Tests of monitor detection, coordination and synchronization.

use dailydoco::capture::{
    CaptureConfig, CaptureError, CaptureResult, MockCaptureEngine, MonitorSelection, QualityPreset,
};
use dailydoco::frame::{CaptureFrame, FrameFormat, Resolution};
use dailydoco::monitors::{
    assemble_coordinated_capture, performance_rating_milli, sync_quality_of, CoordinationMode,
    MultiMonitorCoordinator, MonitorError,
};

fn frame_with_timestamp(ts: u64) -> CaptureFrame {
    let mut engine = MockCaptureEngine::new();
    engine
        .initialize(CaptureConfig {
            target_fps: 30,
            resolution: Resolution::Custom { width: 8, height: 8 },
            format: FrameFormat::RGBA8,
            enable_gpu_acceleration: false,
            enable_privacy_filter: false,
            monitor_selection: MonitorSelection::Primary,
            quality_preset: QualityPreset::Development,
        })
        .unwrap();
    let mut f = engine.capture_frame().unwrap();
    f.timestamp = ts;
    f
}

#[test]
fn test_monitor_coordinator_creation() {
    let mut coordinator = MultiMonitorCoordinator::new();
    assert!(coordinator.refresh_monitor_list().is_ok());
}

#[test]
fn test_monitor_detection() {
    let mut coordinator = MultiMonitorCoordinator::new();
    let monitors = coordinator.refresh_monitor_list().unwrap();
    assert!(!monitors.is_empty());
    assert!(monitors.iter().any(|m| m.is_primary));
}

#[test]
fn test_coordinated_capture() {
    let mut coordinator = MultiMonitorCoordinator::new();
    let monitors = coordinator.refresh_monitor_list().unwrap();
    let monitor_ids: Vec<u64> = monitors.iter().take(1).map(|m| m.id).collect();
    coordinator.start_coordinated_capture(monitor_ids).unwrap();

    let coordinated_capture = coordinator.capture_coordinated_frame().unwrap();
    assert!(!coordinated_capture.frames.is_empty());
    assert!(coordinated_capture.sync_quality_milli <= 1000);
    // a single monitor is always perfectly synchronized
    assert_eq!(coordinated_capture.sync_quality_milli, 1000);
}

#[test]
fn test_unknown_monitor_rejected() {
    let mut coordinator = MultiMonitorCoordinator::new();
    let result = coordinator.start_coordinated_capture(vec![1, 99]);
    assert!(matches!(result, Err(MonitorError::MonitorNotFound { monitor_id: 99 })));
}

#[test]
fn test_performance_optimization() {
    let mut coordinator = MultiMonitorCoordinator::new();
    let optimization_result = coordinator.optimize_coordination().unwrap();
    assert!(optimization_result.expected_improvement_milli <= 1000);
}

#[test]
fn test_sync_quality_formula() {
    // one frame: perfect; spreads degrade monotonically and floor at 0
    assert_eq!(sync_quality_of(&vec![5000]), 1000);
    assert_eq!(sync_quality_of(&vec![5000, 5000]), 1000);
    assert_eq!(sync_quality_of(&vec![5000, 5004]), 750);
    assert_eq!(sync_quality_of(&vec![5000, 5008]), 500);
    assert!(sync_quality_of(&vec![5000, 5004]) > sync_quality_of(&vec![5000, 5008]));
    assert_eq!(sync_quality_of(&vec![5000, 5016]), 0);
    assert_eq!(sync_quality_of(&vec![5000, 5100]), 0);
    // any positive spread is below perfect
    assert!(sync_quality_of(&vec![5000, 5001]) < 1000);
}

#[test]
fn test_partial_failure_keeps_batch() {
    // one of three monitors fails: the batch still carries the other two
    let results: Vec<(u64, CaptureResult<CaptureFrame>)> = vec![
        (1, Ok(frame_with_timestamp(100))),
        (2, Err(CaptureError::Internal { message: "backend stalled".to_string() })),
        (3, Ok(frame_with_timestamp(104))),
    ];
    let batch = assemble_coordinated_capture(7, results, 12);
    assert_eq!(batch.session_id, 7);
    assert_eq!(batch.monitors.len(), 3);
    assert_eq!(batch.frames.len(), 2);
    assert_eq!(batch.frames[0].0, 1);
    assert_eq!(batch.frames[1].0, 3);
    assert_eq!(batch.total_size_bytes, 2 * 8 * 8 * 4);
    assert_eq!(batch.sync_quality_milli, 750);
    assert_eq!(batch.processing_time_ms, 12);
}

#[test]
fn test_performance_rating() {
    // 4K at 60 Hz with hardware acceleration
    let rating = performance_rating_milli(3840, 2160, 60, true);
    assert_eq!(rating, 291);
    // hardware acceleration halves the rating of the same display
    let soft = performance_rating_milli(3840, 2160, 60, false);
    assert!(soft < rating);
    // ratings stay within the clamp
    assert!(performance_rating_milli(7680, 4320, 30, false) >= 100);
    assert!(performance_rating_milli(640, 480, 240, true) <= 1000);
}

#[test]
fn test_tick_updates_monitor_metrics() {
    let mut coordinator = MultiMonitorCoordinator::new();
    coordinator.start_coordinated_capture(vec![1, 2]).unwrap();
    coordinator.capture_coordinated_frame().unwrap();
    coordinator.capture_coordinated_frame().unwrap();
    let metrics = coordinator.get_coordination_metrics().unwrap();
    assert_eq!(metrics.monitor_count, 2);
    for (_, m) in &metrics.monitor_metrics {
        assert_eq!(m.frames_captured, 2);
        assert_eq!(m.error_count, 0);
    }
}

#[test]
fn test_coordination_mode_derivation() {
    // one monitor runs independent; the two detected monitors together
    // stay under the adaptive threshold and synchronize
    let mut coordinator = MultiMonitorCoordinator::new();
    coordinator.start_coordinated_capture(vec![1]).unwrap();
    let single = coordinator.optimize_coordination().unwrap();
    assert_eq!(single.new_configuration.coordination_mode, CoordinationMode::Independent);

    coordinator.start_coordinated_capture(vec![1, 2]).unwrap();
    let both = coordinator.optimize_coordination().unwrap();
    assert_eq!(both.new_configuration.coordination_mode, CoordinationMode::Synchronized);
}

#[test]
fn test_tick_delivers_every_monitor() {
    let mut coordinator = MultiMonitorCoordinator::new();
    coordinator.start_coordinated_capture(vec![1, 2]).unwrap();
    let batch = coordinator.capture_coordinated_frame().unwrap();
    assert_eq!(batch.frames.len(), 2);
    assert_eq!(batch.frames[0].0, 1);
    assert_eq!(batch.frames[1].0, 2);
    // the active engines capture full-HD RGBA frames
    assert_eq!(batch.total_size_bytes, 2 * 1920 * 1080 * 4);
}
