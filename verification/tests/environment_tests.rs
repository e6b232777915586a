//! Tests of platform probing, environment validation and timing.

use dailydoco::environment::{
    detect_architecture, get_linux_distribution, get_linux_kernel_version, get_macos_build,
    get_macos_version, get_memory_info, get_platform_info, get_windows_build, get_windows_version,
    validate_environment, validate_linux_permissions, validate_macos_permissions,
    validate_platform_requirements, validate_windows_permissions, Architecture, OperatingSystem,
};
use dailydoco::monitors::ResourceAllocation;
use dailydoco::performance::PerformanceMonitor;
use dailydoco::utils::PerformanceTiming;

fn linux_info() -> dailydoco::environment::PlatformInfo {
    get_platform_info(
        OperatingSystem::Linux {
            distribution: get_linux_distribution().unwrap(),
            kernel: get_linux_kernel_version().unwrap(),
        },
        Architecture::X86_64,
    )
    .unwrap()
}

#[test]
fn test_platform_detection() {
    let info = linux_info();
    assert!(info.performance_info.cpu_count > 0);
    assert!(info.performance_info.total_memory_mb > 0);
}

#[test]
fn test_environment_validation() {
    let info = linux_info();
    assert!(validate_environment(&info).is_ok());

    let unknown = get_platform_info(
        OperatingSystem::Unknown { name: "plan9".to_string() },
        Architecture::X86_64,
    )
    .unwrap();
    assert!(matches!(
        validate_platform_requirements(&unknown),
        Err(dailydoco::error::AegntError::Platform { .. })
    ));
}

#[test]
fn test_architecture_detection() {
    assert!(matches!(detect_architecture("x86_64"), Architecture::X86_64));
    assert!(matches!(detect_architecture("aarch64"), Architecture::Aarch64));
    assert!(matches!(detect_architecture("x86"), Architecture::X86));
    assert!(matches!(detect_architecture("riscv64"), Architecture::Unknown(_)));
}

#[test]
fn test_platform_probes() {
    assert_eq!(get_windows_version().unwrap(), "Windows 11");
    assert_eq!(get_windows_build().unwrap(), "22000");
    assert_eq!(get_macos_version().unwrap(), "14.0");
    assert_eq!(get_macos_build().unwrap(), "23A344");
    assert_eq!(get_linux_distribution().unwrap(), "Ubuntu");
    assert_eq!(get_linux_kernel_version().unwrap(), "6.8.0");
    assert!(validate_windows_permissions().is_ok());
    assert!(validate_linux_permissions().is_ok());
    assert!(validate_macos_permissions().is_ok());
    assert_eq!(get_memory_info().unwrap(), (8192, 4096));
}

#[test]
fn test_performance_timing() {
    let mut timing = PerformanceTiming::new();
    timing.checkpoint("first");
    timing.checkpoint("second");
    assert_eq!(timing.checkpoints.len(), 2);
    assert_eq!(timing.checkpoints[0].0, "first");
    assert_eq!(timing.checkpoints[1].0, "second");
}

#[test]
fn test_latency_moving_average() {
    let mut monitor = PerformanceMonitor::new();
    monitor.record_capture_latency(10);
    assert_eq!(monitor.average_latency_ms(), 10);
    monitor.record_capture_latency(20);
    // nine tenths of the old average plus one tenth of the new sample
    assert_eq!(monitor.average_latency_ms(), 11);
    assert_eq!(monitor.samples, 2);
    assert_eq!(monitor.max_latency_ms, 20);
}

#[test]
fn test_resource_allocation_thread_pool() {
    // the worker pool is sized from the CPU count, capped at four
    let allocation = ResourceAllocation::default();
    assert!(allocation.thread_pool_size >= 1);
    assert!(allocation.thread_pool_size <= 4);
    assert_eq!(allocation.cpu_limit_centi_percent, 500);
}
