//! Multi-monitor detection and coordination: a registry of displays, a
//! coordinator that fans captures out over the active monitors and
//! assembles synchronized batches, and the derived performance rating.

use vstd::prelude::*;

use crate::capture::{
    spec_config_valid, spec_engine_config, CaptureConfig, CaptureEngine, CaptureEngineFactory,
    CaptureResult, MonitorSelection, QualityPreset,
};
use crate::frame::{CaptureFrame, FrameFormat, Resolution};
use crate::performance::PerformanceMonitor;
use crate::privacy::{max_int, min_int};
use crate::trusted::{cpu_count, fresh_id, now_millis};

verus! {

/// Errors of monitor detection and coordination.
#[derive(Debug, Clone)]
pub enum MonitorError {
    /// Monitor enumeration failed.
    EnumerationFailed { reason: String },
    /// A requested monitor is not in the registry snapshot.
    MonitorNotFound { monitor_id: u64 },
    /// Coordination failed.
    CoordinationFailed { reason: String },
    /// Performance degradation was detected.
    PerformanceDegradation { details: String },
    /// The display configuration changed under us.
    DisplayConfigurationChanged,
    /// Frame synchronization failed.
    SynchronizationFailed { reason: String },
}

/// Result alias for monitor coordination.
pub type MonitorResult<T> = Result<T, MonitorError>;

/// How a display is attached.
#[derive(Debug, Clone, Copy, PartialEq, Eq, Structural)]
pub enum ConnectionType {
    DisplayPort,
    HDMI,
    USBC,
    Thunderbolt,
    DVI,
    VGA,
    Wireless,
    Internal,
    Unknown,
}

/// Capability set of one display.
pub struct MonitorCapabilities {
    /// Whether capture of it can be hardware accelerated.
    pub hardware_acceleration: bool,
    /// Whether the display supports HDR.
    pub hdr_support: bool,
    /// Largest supported resolution.
    pub max_resolution: (u32, u32),
    /// Pixel formats the display path can produce.
    pub supported_formats: Vec<FrameFormat>,
    /// Estimated free GPU memory, MiB.
    pub gpu_memory_available: Option<u64>,
    /// Derived capture performance rating, per mille of 1.0.
    pub capture_performance_rating_milli: u32,
}

/// Static and current properties of one display.
pub struct MonitorInfo {
    /// Unique identifier.
    pub id: u64,
    /// Human-readable name.
    pub name: String,
    /// Native resolution.
    pub resolution: (u32, u32),
    /// Position in the virtual desktop.
    pub position: (i32, i32),
    /// Refresh rate, Hz.
    pub refresh_rate: u32,
    /// Display scaling, per mille of 1.0.
    pub scale_factor_milli: u32,
    /// Whether this is the primary display.
    pub is_primary: bool,
    /// Colour depth, bits.
    pub color_depth: u8,
    /// Capability set.
    pub capabilities: MonitorCapabilities,
    /// How the display is attached.
    pub connection_type: ConnectionType,
    /// Manufacturer name.
    pub manufacturer: String,
    /// Model name.
    pub model: String,
}

/// How the coordinator schedules per-monitor captures.
#[derive(Debug, Clone, Copy, PartialEq, Eq, Structural)]
pub enum CoordinationMode {
    Independent,
    Synchronized,
    Intelligent,
    Primary,
    Adaptive,
}

/// How frames across monitors are aligned.
#[derive(Debug, Clone, Copy, PartialEq, Eq, Structural)]
pub enum SyncStrategy {
    Timestamp,
    VSync,
    Manual,
    Adaptive,
}

/// What the coordinator optimizes for.
#[derive(Debug, Clone, Copy, PartialEq, Eq, Structural)]
pub enum PerformancePriority {
    Quality,
    Performance,
    Balanced,
    Efficiency,
}

/// How overlapping capture regions are handled.
#[derive(Debug, Clone, Copy, PartialEq, Eq, Structural)]
pub enum OverlapHandling {
    Ignore,
    Deduplicate,
    Merge,
    Prioritize,
}

/// How quality scales across monitors.
#[derive(Debug, Clone, Copy, PartialEq, Eq, Structural)]
pub enum QualityScaling {
    Uniform,
    Adaptive,
    Primary,
    Activity,
}

/// Resource budget of one coordinator instance.
#[derive(Debug, Clone, Copy, PartialEq, Eq, Structural)]
pub struct ResourceAllocation {
    /// CPU budget, hundredths of a percent.
    pub cpu_limit_centi_percent: u32,
    /// Memory budget, MiB.
    pub memory_limit_mb: u64,
    /// GPU memory budget, MiB.
    pub gpu_memory_limit_mb: Option<u64>,
    /// Worker threads for the capture fan-out.
    pub thread_pool_size: usize,
    /// Bandwidth budget, hundredths of a Mbps.
    pub bandwidth_limit_centi_mbps: Option<u32>,
}

impl Default for ResourceAllocation {
    /// Five percent CPU, 256 MiB, at most four worker threads.
    fn default() -> (r: Self)
        ensures
            r.cpu_limit_centi_percent == 500,
            r.memory_limit_mb == 256,
            r.gpu_memory_limit_mb == Some(512u64),
            1 <= r.thread_pool_size <= 4,
            r.bandwidth_limit_centi_mbps is None,
    {
        let cpus = cpu_count();
        ResourceAllocation {
            cpu_limit_centi_percent: 500,
            memory_limit_mb: 256,
            gpu_memory_limit_mb: Some(512),
            thread_pool_size: if cpus <= 4 { cpus } else { 4 },
            bandwidth_limit_centi_mbps: None,
        }
    }
}

/// Coordination policy of one coordinator instance.
#[derive(Debug, Clone, Copy, PartialEq, Eq, Structural)]
pub struct MultiMonitorConfig {
    /// How per-monitor captures are scheduled.
    pub coordination_mode: CoordinationMode,
    /// How frames are aligned.
    pub sync_strategy: SyncStrategy,
    /// What to optimize for.
    pub performance_priority: PerformancePriority,
    /// How overlapping regions are handled.
    pub capture_overlap_handling: OverlapHandling,
    /// How quality scales across monitors.
    pub quality_scaling: QualityScaling,
    /// Resource budget.
    pub resource_allocation: ResourceAllocation,
}

impl Default for MultiMonitorConfig {
    /// Intelligent coordination with adaptive sync and balanced
    /// priority.
    fn default() -> (r: Self)
        ensures
            r.coordination_mode == CoordinationMode::Intelligent,
            r.sync_strategy == SyncStrategy::Adaptive,
            r.performance_priority == PerformancePriority::Balanced,
            r.capture_overlap_handling == OverlapHandling::Deduplicate,
            r.quality_scaling == QualityScaling::Adaptive,
    {
        MultiMonitorConfig {
            coordination_mode: CoordinationMode::Intelligent,
            sync_strategy: SyncStrategy::Adaptive,
            performance_priority: PerformancePriority::Balanced,
            capture_overlap_handling: OverlapHandling::Deduplicate,
            quality_scaling: QualityScaling::Adaptive,
            resource_allocation: ResourceAllocation::default(),
        }
    }
}

/// Rolling statistics of one monitor's capture stream.
#[derive(Debug, Clone, Copy, PartialEq, Eq, Structural)]
pub struct CaptureMetrics {
    /// Frames captured so far.
    pub frames_captured: u64,
    /// Capture failures so far.
    pub error_count: u64,
    /// Moving-average capture latency, thousandths of a millisecond.
    pub average_latency_milli_ms: u64,
    /// Quality score, per mille of 1.0.
    pub quality_score_milli: u32,
}

impl Default for CaptureMetrics {
    /// No frames, no errors, full quality.
    fn default() -> (r: Self)
        ensures
            r.frames_captured == 0,
            r.error_count == 0,
            r.average_latency_milli_ms == 0,
            r.quality_score_milli == 1000,
    {
        CaptureMetrics {
            frames_captured: 0,
            error_count: 0,
            average_latency_milli_ms: 0,
            quality_score_milli: 1000,
        }
    }
}

/// Resource usage of one coordinator instance.
#[derive(Debug, Clone, Copy, PartialEq, Eq, Structural)]
pub struct ResourceUsage {
    /// CPU usage, hundredths of a percent.
    pub cpu_centi_percent: u32,
    /// Memory usage, MiB.
    pub memory_mb: u64,
    /// GPU memory usage, MiB.
    pub gpu_memory_mb: Option<u64>,
    /// Network usage, hundredths of a Mbps.
    pub network_centi_mbps: u32,
}

impl Default for ResourceUsage {
    /// No usage recorded yet.
    fn default() -> (r: Self)
        ensures
            r.cpu_centi_percent == 0,
            r.memory_mb == 0,
            r.gpu_memory_mb is None,
            r.network_centi_mbps == 0,
    {
        ResourceUsage {
            cpu_centi_percent: 0,
            memory_mb: 0,
            gpu_memory_mb: None,
            network_centi_mbps: 0,
        }
    }
}

/// One alert raised by resource tracking.
#[derive(Debug, Clone)]
pub struct PerformanceAlert {
    /// What kind of alert.
    pub alert_type: AlertType,
    /// How severe.
    pub severity: AlertSeverity,
    /// Human-readable message.
    pub message: String,
    /// When the alert was raised, monotonic milliseconds.
    pub timestamp: u64,
    /// The monitors involved.
    pub affected_monitors: Vec<u64>,
}

/// Kind of a performance alert.
#[derive(Debug, Clone, Copy, PartialEq, Eq, Structural)]
pub enum AlertType {
    HighCpuUsage,
    HighMemoryUsage,
    LowFrameRate,
    SyncDrift,
    QualityDegradation,
    HardwareFailure,
}

/// Severity of a performance alert.
#[derive(Debug, Clone, Copy, PartialEq, Eq, Structural)]
pub enum AlertSeverity {
    Info,
    Warning,
    Critical,
    Emergency,
}

/// One optimization the coordinator suggests.
#[derive(Debug, Clone)]
pub struct OptimizationSuggestion {
    /// What kind of optimization.
    pub suggestion_type: OptimizationType,
    /// Human-readable description.
    pub description: String,
    /// Expected improvement, human-readable.
    pub expected_improvement: String,
    /// How hard it is to apply.
    pub implementation_complexity: ComplexityLevel,
}

/// Kind of a suggested optimization.
#[derive(Debug, Clone, Copy, PartialEq, Eq, Structural)]
pub enum OptimizationType {
    ReduceQuality,
    DisableMonitor,
    ChangeCoordination,
    EnableHardwareAcceleration,
    AdjustBuffering,
    OptimizeThreading,
}

/// How hard an optimization is to apply.
#[derive(Debug, Clone, Copy, PartialEq, Eq, Structural)]
pub enum ComplexityLevel {
    Automatic,
    Simple,
    Moderate,
    Complex,
}

/// One coordination tick's output: the synchronized batch.
pub struct CoordinatedCapture {
    /// The session this tick belongs to.
    pub session_id: u128,
    /// Identifiers of the monitors included in this tick.
    pub monitors: Vec<u64>,
    /// The per-monitor frames that were captured.
    pub frames: Vec<(u64, CaptureFrame)>,
    /// When the batch was assembled, monotonic milliseconds.
    pub timestamp: u64,
    /// How well synchronized the batch is, per mille of 1.0.
    pub sync_quality_milli: u32,
    /// Total bytes across all frames.
    pub total_size_bytes: u64,
    /// How long the tick took, milliseconds.
    pub processing_time_ms: u64,
}

/// Aggregated coordination statistics.
pub struct CoordinationMetrics {
    /// Number of monitors being captured.
    pub monitor_count: usize,
    /// Per-monitor statistics.
    pub monitor_metrics: Vec<(u64, CaptureMetrics)>,
    /// Overall performance score, per mille of 1.0.
    pub overall_performance_milli: u32,
    /// Current resource usage.
    pub resource_usage: ResourceUsage,
    /// Outstanding alerts.
    pub alerts: Vec<PerformanceAlert>,
    /// Outstanding suggestions.
    pub suggestions: Vec<OptimizationSuggestion>,
}

/// Outcome of one optimization pass.
pub struct OptimizationResult {
    /// Bottlenecks that were identified.
    pub bottlenecks_identified: Vec<PerformanceBottleneck>,
    /// Optimizations that were applied.
    pub optimizations_applied: Vec<AppliedOptimization>,
    /// Expected improvement, per mille.
    pub expected_improvement_milli: u32,
    /// The configuration after optimization.
    pub new_configuration: MultiMonitorConfig,
}

/// One identified performance bottleneck.
pub struct PerformanceBottleneck {
    /// What kind of bottleneck.
    pub bottleneck_type: String,
    /// Severity, per mille.
    pub severity_milli: u32,
    /// The monitors involved.
    pub affected_monitors: Vec<u64>,
}

/// A planned set of optimization actions.
pub struct OptimizationStrategy {
    /// The actions to take.
    pub actions: Vec<String>,
}

/// One optimization that was applied.
pub struct AppliedOptimization {
    /// What kind of optimization.
    pub optimization_type: String,
    /// Human-readable description.
    pub description: String,
}

// ---------------------------------------------------------------------------
// Synchronization quality.
// ---------------------------------------------------------------------------

/// Synchronization quality of a batch whose frame timestamps span
/// `spread_ms` milliseconds: one for a spread of zero, falling
/// linearly, and zero from one sixtieth of a second on.
pub open spec fn spec_sync_quality_milli(spread_ms: int) -> int {
    1000 - min_int(spread_ms * 1000 / 16, 1000)
}

/// Sync quality is one for a single monitor, degrades monotonically
/// with the timestamp spread, is below one for any positive spread,
/// and floors at zero from sixteen milliseconds on.
pub proof fn lemma_sync_quality(s1: int, s2: int)
    requires
        0 <= s1 <= s2,
    ensures
        spec_sync_quality_milli(0) == 1000,
        spec_sync_quality_milli(s1) >= spec_sync_quality_milli(s2),
        s1 >= 1 ==> spec_sync_quality_milli(s1) < 1000,
        s1 >= 16 ==> spec_sync_quality_milli(s1) == 0,
        0 <= spec_sync_quality_milli(s1) <= 1000,
{
    vstd::arithmetic::div_mod::lemma_div_is_ordered(s1 * 1000, s2 * 1000, 16);
    assert(s1 * 1000 <= s2 * 1000) by (nonlinear_arith)
        requires s1 <= s2;
    if s1 >= 1 {
        assert(s1 * 1000 >= 1000) by (nonlinear_arith)
            requires s1 >= 1;
        vstd::arithmetic::div_mod::lemma_div_is_ordered(1000, s1 * 1000, 16);
    }
    if s1 >= 16 {
        assert(s1 * 1000 >= 16000) by (nonlinear_arith)
            requires s1 >= 16;
        vstd::arithmetic::div_mod::lemma_div_is_ordered(16000, s1 * 1000, 16);
    }
    vstd::arithmetic::div_mod::lemma_div_pos_is_pos(s1 * 1000, 16);
    assert(0 <= s1 * 1000) by (nonlinear_arith)
        requires 0 <= s1;
}

/// The timestamp spread of a list of frames: latest minus earliest,
/// zero when fewer than two frames are present.
pub open spec fn spec_ts_spread(ts: Seq<u64>) -> int
    decreases ts.len(),
{
    if ts.len() <= 1 {
        0
    } else {
        spec_ts_max(ts) - spec_ts_min(ts)
    }
}

/// Largest timestamp of a non-empty list.
pub open spec fn spec_ts_max(ts: Seq<u64>) -> int
    decreases ts.len(),
{
    if ts.len() == 0 {
        0
    } else if ts.len() == 1 {
        ts[0] as int
    } else {
        max_int(spec_ts_max(ts.drop_last()), ts.last() as int)
    }
}

/// Smallest timestamp of a non-empty list.
pub open spec fn spec_ts_min(ts: Seq<u64>) -> int
    decreases ts.len(),
{
    if ts.len() == 0 {
        0
    } else if ts.len() == 1 {
        ts[0] as int
    } else {
        min_int(spec_ts_min(ts.drop_last()), ts.last() as int)
    }
}

/// The minimum never exceeds the maximum.
proof fn lemma_ts_min_le_max(ts: Seq<u64>)
    requires
        ts.len() >= 1,
    ensures
        0 <= spec_ts_min(ts) <= spec_ts_max(ts) <= u64::MAX,
    decreases ts.len(),
{
    if ts.len() > 1 {
        lemma_ts_min_le_max(ts.drop_last());
    }
}

/// Compute the synchronization quality of a list of frame timestamps.
pub fn sync_quality_of(timestamps: &Vec<u64>) -> (q: u32)
    ensures
        q == spec_sync_quality_milli(spec_ts_spread(timestamps@)),
        timestamps@.len() <= 1 ==> q == 1000,
{
    if timestamps.len() <= 1 {
        return 1000;
    }
    let mut lo: u64 = timestamps[0];
    let mut hi: u64 = timestamps[0];
    let mut i: usize = 1;
    while i < timestamps.len()
        invariant
            timestamps@.len() >= 2,
            1 <= i <= timestamps@.len(),
            lo == spec_ts_min(timestamps@.take(i as int)),
            hi == spec_ts_max(timestamps@.take(i as int)),
        decreases timestamps@.len() - i,
    {
        proof {
            assert(timestamps@.take(i as int + 1).drop_last() =~= timestamps@.take(i as int));
            assert(timestamps@.take(i as int + 1).last() == timestamps@[i as int]);
        }
        let t = timestamps[i];
        if t < lo {
            lo = t;
        }
        if t > hi {
            hi = t;
        }
        i = i + 1;
    }
    proof {
        assert(timestamps@.take(timestamps@.len() as int) =~= timestamps@);
        lemma_ts_min_le_max(timestamps@);
    }
    let spread: u64 = hi - lo;
    if spread >= 16 {
        proof {
            lemma_sync_quality(16, spread as int);
            lemma_sync_quality(spread as int, spread as int);
        }
        0
    } else {
        let penalty: u64 = spread * 1000 / 16;
        proof {
            lemma_sync_quality(spread as int, spread as int);
        }
        (1000 - penalty as u32)
    }
}

// ---------------------------------------------------------------------------
// Performance rating and simulated detection.
// ---------------------------------------------------------------------------

/// Derived capture performance rating, per mille: resolution weighs
/// against a 4K reference, refresh rate against 144 Hz, and hardware
/// acceleration halves or keeps the product; clamped to [0.1, 1.0].
pub open spec fn spec_performance_rating_milli(
    width: u32,
    height: u32,
    refresh_rate: u32,
    hardware_acceleration: bool,
) -> int {
    let res_term = max_int(0, 1000 - width * height * 300 / 8294400);
    let refresh_term = min_int(refresh_rate * 1000 / 144, 1000);
    let hw_term: int = if hardware_acceleration { 1000 } else { 500 };
    min_int(max_int(res_term * refresh_term / 1000 * hw_term / 1000, 100), 1000)
}

/// Compute the derived capture performance rating of a display.
pub fn performance_rating_milli(
    width: u32,
    height: u32,
    refresh_rate: u32,
    hardware_acceleration: bool,
) -> (r: u32)
    requires
        width <= 7680,
        height <= 4320,
        refresh_rate <= 1000,
    ensures
        r == spec_performance_rating_milli(width, height, refresh_rate, hardware_acceleration),
        100 <= r <= 1000,
{
    proof {
        assert(width * height * 300 <= 7680 * 4320 * 300) by (nonlinear_arith)
            requires width <= 7680, height <= 4320;
    }
    let res_part: u64 = (width as u64) * (height as u64) * 300 / 8294400;
    let res_term: u64 = if res_part >= 1000 { 0 } else { 1000 - res_part };
    let refresh_part: u64 = (refresh_rate as u64) * 1000 / 144;
    let refresh_term: u64 = if refresh_part >= 1000 { 1000 } else { refresh_part };
    let hw_term: u64 = if hardware_acceleration { 1000 } else { 500 };
    proof {
        assert(res_term * refresh_term <= 1000 * 1000) by (nonlinear_arith)
            requires res_term <= 1000, refresh_term <= 1000;
    }
    let raw: u64 = res_term * refresh_term / 1000 * hw_term / 1000;
    let clamped: u64 = if raw < 100 { 100 } else if raw > 1000 { 1000 } else { raw };
    clamped as u32
}

/// Ghost view of a monitor record: strings by content.
pub ghost struct MonitorInfoV {
    /// Identifier.
    pub id: u64,
    /// Name.
    pub name: Seq<char>,
    /// Resolution.
    pub resolution: (u32, u32),
    /// Refresh rate.
    pub refresh_rate: u32,
    /// Primary flag.
    pub is_primary: bool,
    /// Hardware acceleration.
    pub hardware_acceleration: bool,
    /// Derived rating, per mille.
    pub rating_milli: u32,
}

/// View of one monitor record.
pub open spec fn monitor_view(m: MonitorInfo) -> MonitorInfoV {
    MonitorInfoV {
        id: m.id,
        name: m.name@,
        resolution: m.resolution,
        refresh_rate: m.refresh_rate,
        is_primary: m.is_primary,
        hardware_acceleration: m.capabilities.hardware_acceleration,
        rating_milli: m.capabilities.capture_performance_rating_milli,
    }
}

/// Views of a list of monitor records.
pub open spec fn monitor_views(s: Seq<MonitorInfo>) -> Seq<MonitorInfoV> {
    s.map_values(|m: MonitorInfo| monitor_view(m))
}

/// What the simulated platform detection reports: a 4K primary display
/// and a QHD secondary, both hardware accelerated, with their derived
/// ratings.
pub open spec fn spec_detected_monitors() -> Seq<MonitorInfoV> {
    seq![
        MonitorInfoV {
            id: 1,
            name: "Primary Display"@,
            resolution: (3840u32, 2160u32),
            refresh_rate: 60,
            is_primary: true,
            hardware_acceleration: true,
            rating_milli: spec_performance_rating_milli(3840, 2160, 60, true) as u32,
        },
        MonitorInfoV {
            id: 2,
            name: "Secondary Display"@,
            resolution: (2560u32, 1440u32),
            refresh_rate: 144,
            is_primary: false,
            hardware_acceleration: true,
            rating_milli: spec_performance_rating_milli(2560, 1440, 144, true) as u32,
        },
    ]
}

/// Detect the available monitors.  Platform enumeration is simulated:
/// the shape of the result is what a native backend would report.
pub fn detect_monitors() -> (ms: Vec<MonitorInfo>)
    ensures
        monitor_views(ms@) == spec_detected_monitors(),
{
    let r1 = performance_rating_milli(3840, 2160, 60, true);
    let r2 = performance_rating_milli(2560, 1440, 144, true);
    let mut formats1: Vec<FrameFormat> = Vec::new();
    formats1.push(FrameFormat::BGRA8);
    formats1.push(FrameFormat::RGBA8);
    let mut formats2: Vec<FrameFormat> = Vec::new();
    formats2.push(FrameFormat::BGRA8);
    let mut ms: Vec<MonitorInfo> = Vec::new();
    ms.push(MonitorInfo {
        id: 1,
        name: "Primary Display".to_owned(),
        resolution: (3840, 2160),
        position: (0, 0),
        refresh_rate: 60,
        scale_factor_milli: 1000,
        is_primary: true,
        color_depth: 24,
        capabilities: MonitorCapabilities {
            hardware_acceleration: true,
            hdr_support: true,
            max_resolution: (3840, 2160),
            supported_formats: formats1,
            gpu_memory_available: Some(8192),
            capture_performance_rating_milli: r1,
        },
        connection_type: ConnectionType::DisplayPort,
        manufacturer: "Dell".to_owned(),
        model: "U2720Q".to_owned(),
    });
    ms.push(MonitorInfo {
        id: 2,
        name: "Secondary Display".to_owned(),
        resolution: (2560, 1440),
        position: (3840, 0),
        refresh_rate: 144,
        scale_factor_milli: 1000,
        is_primary: false,
        color_depth: 24,
        capabilities: MonitorCapabilities {
            hardware_acceleration: true,
            hdr_support: false,
            max_resolution: (2560, 1440),
            supported_formats: formats2,
            gpu_memory_available: Some(4096),
            capture_performance_rating_milli: r2,
        },
        connection_type: ConnectionType::HDMI,
        manufacturer: "ASUS".to_owned(),
        model: "VG27AQ".to_owned(),
    });
    proof {
        assert(monitor_views(ms@) =~= spec_detected_monitors());
    }
    ms
}

// ---------------------------------------------------------------------------
// The coordinator.
// ---------------------------------------------------------------------------

/// Whether a monitor id occurs in a registry snapshot.
pub open spec fn spec_id_present(id: u64, ms: Seq<MonitorInfoV>) -> bool {
    exists|j: int| 0 <= j < ms.len() && (#[trigger] ms[j]).id == id
}

/// Whether every requested id occurs in a registry snapshot.
pub open spec fn spec_all_ids_present(ids: Seq<u64>, ms: Seq<MonitorInfoV>) -> bool {
    forall|k: int| 0 <= k < ids.len() ==> #[trigger] spec_id_present(ids[k], ms)
}

/// The monitor identifiers of a list of active captures.
pub open spec fn active_ids_of(s: Seq<ActiveMonitorCapture>) -> Seq<u64> {
    s.map_values(|a: ActiveMonitorCapture| a.monitor_id)
}

/// The statistics of a list of active captures.
pub open spec fn metrics_of(s: Seq<ActiveMonitorCapture>) -> Seq<CaptureMetrics> {
    s.map_values(|a: ActiveMonitorCapture| a.metrics)
}

/// One monitor being actively captured.
pub struct ActiveMonitorCapture {
    /// The monitor's identifier.
    pub monitor_id: u64,
    /// The engine capturing it.
    pub capture_engine: CaptureEngine,
    /// Rolling statistics of this monitor's stream.
    pub metrics: CaptureMetrics,
}

/// The native pixel count of the registry entry a monitor id selects
/// (the first match), each side clamped to the largest supported
/// resolution; zero when the id is absent.
pub open spec fn spec_monitor_pixels(id: u64, ms: Seq<MonitorInfoV>) -> int
    decreases ms.len(),
{
    if ms.len() == 0 {
        0
    } else if ms[0].id == id {
        min_int(ms[0].resolution.0 as int, 7680) * min_int(ms[0].resolution.1 as int, 4320)
    } else {
        spec_monitor_pixels(id, ms.drop_first())
    }
}

/// Aggregate pixel count of a monitor selection.
pub open spec fn spec_selected_pixels(ids: Seq<u64>, ms: Seq<MonitorInfoV>) -> int
    decreases ids.len(),
{
    if ids.len() == 0 {
        0
    } else {
        spec_selected_pixels(ids.drop_last(), ms) + spec_monitor_pixels(ids.last(), ms)
    }
}

/// Coordination strategy derived from the selection: a single monitor
/// runs independent, an aggregate beyond two 4K screens adapts, and
/// anything else synchronizes on timestamps.
pub open spec fn spec_coordination_mode(n_monitors: int, total_pixels: int) -> CoordinationMode {
    if n_monitors == 1 {
        CoordinationMode::Independent
    } else if total_pixels > 20000000 {
        CoordinationMode::Adaptive
    } else {
        CoordinationMode::Synchronized
    }
}

/// An aggregate pixel count is never negative.
proof fn lemma_selected_pixels_nonneg(ids: Seq<u64>, ms: Seq<MonitorInfoV>)
    ensures
        0 <= spec_selected_pixels(ids, ms),
    decreases ids.len(),
{
    if ids.len() > 0 {
        lemma_selected_pixels_nonneg(ids.drop_last(), ms);
        lemma_monitor_pixels_bounds(ids.last(), ms);
    }
}

/// A monitor's clamped pixel count is at most one 8K screen's.
proof fn lemma_monitor_pixels_bounds(id: u64, ms: Seq<MonitorInfoV>)
    ensures
        0 <= spec_monitor_pixels(id, ms) <= 33177600,
    decreases ms.len(),
{
    if ms.len() > 0 {
        if ms[0].id == id {
            let w = min_int(ms[0].resolution.0 as int, 7680);
            let h = min_int(ms[0].resolution.1 as int, 4320);
            assert(0 <= w * h <= 7680 * 4320) by (nonlinear_arith)
                requires 0 <= w <= 7680, 0 <= h <= 4320;
        } else {
            lemma_monitor_pixels_bounds(id, ms.drop_first());
        }
    }
}

/// The pixel count of an id whose first registry match is at index `j`.
proof fn lemma_monitor_pixels_at(id: u64, ms: Seq<MonitorInfoV>, j: int)
    requires
        0 <= j < ms.len(),
        ms[j].id == id,
        forall|i: int| 0 <= i < j ==> (#[trigger] ms[i]).id != id,
    ensures
        spec_monitor_pixels(id, ms)
            == min_int(ms[j].resolution.0 as int, 7680)
                * min_int(ms[j].resolution.1 as int, 4320),
    decreases j,
{
    if j > 0 {
        assert(ms[0].id != id);
        assert(ms.drop_first()[j - 1] == ms[j]);
        assert(forall|i: int| 0 <= i < j - 1 ==> (#[trigger] ms.drop_first()[i]).id != id);
        lemma_monitor_pixels_at(id, ms.drop_first(), j - 1);
    }
}

/// Orchestrates parallel per-monitor capture and assembles
/// synchronized batches.
pub struct MultiMonitorCoordinator {
    monitors: Vec<MonitorInfo>,
    config: MultiMonitorConfig,
    active_captures: Vec<ActiveMonitorCapture>,
    performance_monitor: PerformanceMonitor,
}

impl MultiMonitorCoordinator {
    /// The registry snapshot, as views.
    pub closed spec fn spec_monitors(&self) -> Seq<MonitorInfoV> {
        monitor_views(self.monitors@)
    }

    /// The coordination policy.
    pub closed spec fn spec_config(&self) -> MultiMonitorConfig {
        self.config
    }

    /// The identifiers of the actively captured monitors.
    pub closed spec fn spec_active_ids(&self) -> Seq<u64> {
        active_ids_of(self.active_captures@)
    }

    /// The per-monitor statistics of the active captures.
    pub closed spec fn spec_active_metrics(&self) -> Seq<CaptureMetrics> {
        metrics_of(self.active_captures@)
    }

    /// The coordinator invariant: every active engine is initialized
    /// with a valid configuration, and latency statistics are in
    /// range.
    pub closed spec fn wf(&self) -> bool {
        &&& forall|k: int| 0 <= k < self.active_captures@.len()
            ==> (spec_engine_config(#[trigger] self.active_captures@[k].capture_engine)
                matches Some(c) && spec_config_valid(c))
        &&& self.performance_monitor.ema_latency_milli_ms <= 1000000000
    }

    /// A fresh coordinator: the registry filled by detection, default
    /// policy, no active captures.
    pub fn new() -> (c: Self)
        ensures
            c.spec_monitors() == spec_detected_monitors(),
            c.spec_active_ids().len() == 0,
            c.wf(),
    {
        MultiMonitorCoordinator {
            monitors: detect_monitors(),
            config: MultiMonitorConfig::default(),
            active_captures: Vec::new(),
            performance_monitor: PerformanceMonitor::new(),
        }
    }

    /// Re-enumerate the displays, replacing the whole registry
    /// snapshot, and return the new list.
    pub fn refresh_monitor_list(&mut self) -> (r: MonitorResult<Vec<MonitorInfo>>)
        requires
            old(self).wf(),
        ensures
            final(self).wf(),
            final(self).spec_monitors() == spec_detected_monitors(),
            final(self).spec_active_ids() == old(self).spec_active_ids(),
            r matches Ok(ms) && monitor_views(ms@) == spec_detected_monitors(),
    {
        self.monitors = detect_monitors();
        Ok(detect_monitors())
    }

    /// The first registry index holding a monitor id, if any.
    fn find_monitor(&self, id: u64) -> (r: Option<usize>)
        ensures
            r matches Some(k) ==> k < self.spec_monitors().len()
                && self.spec_monitors()[k as int].id == id
                && forall|i: int| 0 <= i < k
                    ==> (#[trigger] self.spec_monitors()[i]).id != id,
            r is None ==> forall|k: int| 0 <= k < self.spec_monitors().len()
                ==> (#[trigger] self.spec_monitors()[k]).id != id,
    {
        let mut k: usize = 0;
        while k < self.monitors.len()
            invariant
                0 <= k <= self.monitors@.len(),
                forall|i: int| 0 <= i < k
                    ==> (#[trigger] monitor_views(self.monitors@)[i]).id != id,
            decreases self.monitors@.len() - k,
        {
            if self.monitors[k].id == id {
                proof {
                    assert(monitor_views(self.monitors@)[k as int].id == id);
                }
                return Some(k);
            }
            proof {
                assert(monitor_views(self.monitors@)[k as int].id != id);
            }
            k = k + 1;
        }
        None
    }

    /// Start coordinated capture of the given monitors.  Every id must
    /// be in the registry snapshot; any unknown id aborts the whole
    /// call and leaves the coordinator untouched.  On success one
    /// engine per monitor is active and the coordination mode is
    /// derived from the aggregate pixel count.
    pub fn start_coordinated_capture(&mut self, monitor_ids: Vec<u64>) -> (r: MonitorResult<u128>)
        requires
            old(self).wf(),
        ensures
            final(self).wf(),
            final(self).spec_monitors() == old(self).spec_monitors(),
            r is Ok <==> spec_all_ids_present(monitor_ids@, old(self).spec_monitors()),
            r is Ok ==> final(self).spec_active_ids() == monitor_ids@,
            r is Ok ==> ({
                let cfgf = final(self).spec_config();
                let cfgo = old(self).spec_config();
                &&& cfgf.coordination_mode == spec_coordination_mode(
                    monitor_ids@.len() as int,
                    spec_selected_pixels(monitor_ids@, old(self).spec_monitors()))
                &&& cfgf.sync_strategy == cfgo.sync_strategy
                &&& cfgf.performance_priority == cfgo.performance_priority
                &&& cfgf.capture_overlap_handling == cfgo.capture_overlap_handling
                &&& cfgf.quality_scaling == cfgo.quality_scaling
                &&& cfgf.resource_allocation == cfgo.resource_allocation
            }),
            r matches Err(e) ==> (e matches MonitorError::MonitorNotFound { monitor_id }
                && exists|k: int| 0 <= k < monitor_ids@.len() && monitor_ids@[k] == monitor_id
                && !spec_id_present(monitor_id, old(self).spec_monitors())),
            r is Err ==> final(self).spec_active_ids() == old(self).spec_active_ids(),
            r is Err ==> final(self).spec_config() == old(self).spec_config(),
    {
        // validate first: all or nothing
        let ghost ms = self.spec_monitors();
        let mut total_pixels: u64 = 0;
        let mut k: usize = 0;
        while k < monitor_ids.len()
            invariant
                old(self).wf(),
                *self == *old(self),
                ms == self.spec_monitors(),
                0 <= k <= monitor_ids@.len(),
                total_pixels == min_int(spec_selected_pixels(monitor_ids@.take(k as int), ms),
                    21000000),
                forall|i: int| 0 <= i < k
                    ==> #[trigger] spec_id_present(monitor_ids@[i], self.spec_monitors()),
            decreases monitor_ids@.len() - k,
        {
            match self.find_monitor(monitor_ids[k]) {
                Some(j) => {
                    proof {
                        assert(spec_id_present(monitor_ids@[k as int], self.spec_monitors()));
                        lemma_monitor_pixels_at(monitor_ids@[k as int], ms, j as int);
                        lemma_monitor_pixels_bounds(monitor_ids@[k as int], ms);
                        assert(monitor_ids@.take(k as int + 1).drop_last()
                            =~= monitor_ids@.take(k as int));
                        assert(monitor_ids@.take(k as int + 1).last() == monitor_ids@[k as int]);
                    }
                    let res = self.monitors[j].resolution;
                    let w = if res.0 <= 7680 { res.0 } else { 7680 };
                    let h = if res.1 <= 4320 { res.1 } else { 4320 };
                    proof {
                        assert(0 <= w * h <= 7680 * 4320) by (nonlinear_arith)
                            requires w <= 7680, h <= 4320;
                        assert(w * h == spec_monitor_pixels(monitor_ids@[k as int], ms));
                    }
                    total_pixels = total_pixels + (w as u64) * (h as u64);
                    if total_pixels > 21000000 {
                        total_pixels = 21000000;
                    }
                },
                None => {
                    proof {
                        assert(!spec_id_present(monitor_ids@[k as int], self.spec_monitors()));
                        assert(!spec_all_ids_present(monitor_ids@, self.spec_monitors()));
                    }
                    return Err(MonitorError::MonitorNotFound { monitor_id: monitor_ids[k] });
                },
            }
            k = k + 1;
        }
        proof {
            assert(monitor_ids@.take(monitor_ids@.len() as int) =~= monitor_ids@);
            lemma_selected_pixels_nonneg(monitor_ids@, ms);
        }
        // derive the coordination strategy from the aggregate load
        let mode = if monitor_ids.len() == 1 {
            CoordinationMode::Independent
        } else if total_pixels > 20000000 {
            CoordinationMode::Adaptive
        } else {
            CoordinationMode::Synchronized
        };
        self.config.coordination_mode = mode;
        // one engine per monitor
        let mut active: Vec<ActiveMonitorCapture> = Vec::new();
        let mut k2: usize = 0;
        while k2 < monitor_ids.len()
            invariant
                0 <= k2 <= monitor_ids@.len(),
                active@.len() == k2,
                forall|i: int| 0 <= i < k2
                    ==> (#[trigger] active@[i]).monitor_id == monitor_ids@[i],
                forall|i: int| 0 <= i < active@.len()
                    ==> (spec_engine_config(#[trigger] active@[i].capture_engine)
                        matches Some(c) && spec_config_valid(c)),
            decreases monitor_ids@.len() - k2,
        {
            let mut engine = CaptureEngineFactory::create_mock_engine();
            let config = CaptureConfig {
                target_fps: 30,
                resolution: Resolution::FHD,
                format: FrameFormat::RGBA8,
                enable_gpu_acceleration: false,
                enable_privacy_filter: false,
                monitor_selection: MonitorSelection::Specific(monitor_ids[k2]),
                quality_preset: QualityPreset::Balanced,
            };
            let init = engine.initialize(config);
            proof {
                assert(init is Ok);
            }
            active.push(ActiveMonitorCapture {
                monitor_id: monitor_ids[k2],
                capture_engine: engine,
                metrics: CaptureMetrics::default(),
            });
            k2 = k2 + 1;
        }
        self.active_captures = active;
        proof {
            assert forall|i: int| 0 <= i < active_ids_of(self.active_captures@).len()
                implies active_ids_of(self.active_captures@)[i] == monitor_ids@[i] by {
            }
            assert(active_ids_of(self.active_captures@) =~= monitor_ids@);
        }
        Ok(fresh_id())
    }
}

// ---------------------------------------------------------------------------
// Coordinated capture ticks.
// ---------------------------------------------------------------------------

/// The per-monitor frames of the successful results, in order.
pub open spec fn spec_ok_frames(rs: Seq<(u64, CaptureResult<CaptureFrame>)>) -> Seq<(u64, CaptureFrame)>
    decreases rs.len(),
{
    if rs.len() == 0 {
        Seq::empty()
    } else {
        let head: Seq<(u64, CaptureFrame)> = match rs[0].1 {
            Ok(f) => seq![(rs[0].0, f)],
            Err(_) => Seq::empty(),
        };
        head + spec_ok_frames(rs.drop_first())
    }
}

/// Total byte size of a list of frames, saturating at the largest
/// machine value.
pub open spec fn spec_total_bytes(fs: Seq<(u64, CaptureFrame)>) -> int
    decreases fs.len(),
{
    if fs.len() == 0 {
        0
    } else {
        min_int(spec_total_bytes(fs.drop_last()) + fs.last().1.data@.len(), u64::MAX as int)
    }
}

/// The capture timestamps of a list of frames.
pub open spec fn spec_frame_timestamps(fs: Seq<(u64, CaptureFrame)>) -> Seq<u64> {
    fs.map_values(|p: (u64, CaptureFrame)| p.1.timestamp)
}

/// Assemble one coordination tick from per-monitor capture results.
/// A monitor whose capture failed is excluded from the batch; the tick
/// itself always succeeds (partial results over total failure).
pub fn assemble_coordinated_capture(
    session_id: u128,
    results: Vec<(u64, CaptureResult<CaptureFrame>)>,
    processing_time_ms: u64,
) -> (c: CoordinatedCapture)
    ensures
        c.session_id == session_id,
        c.frames@ == spec_ok_frames(results@),
        c.monitors@ == results@.map_values(|p: (u64, CaptureResult<CaptureFrame>)| p.0),
        c.total_size_bytes == spec_total_bytes(spec_ok_frames(results@)),
        c.sync_quality_milli == spec_sync_quality_milli(
            spec_ts_spread(spec_frame_timestamps(spec_ok_frames(results@)))),
        spec_ok_frames(results@).len() <= 1 ==> c.sync_quality_milli == 1000,
        c.processing_time_ms == processing_time_ms,
{
    let ghost orig = results@;
    let total_n: usize = results.len();
    let mut rest = results;
    let mut monitors: Vec<u64> = Vec::new();
    let mut frames: Vec<(u64, CaptureFrame)> = Vec::new();
    proof {
        assert(monitors@ =~= orig.map_values(
            |p: (u64, CaptureResult<CaptureFrame>)| p.0).take(0));
        assert(frames@ =~= spec_ok_frames(orig.take(0)));
    }
    let mut done: usize = 0;
    while rest.len() > 0
        invariant
            orig.len() == total_n,
            done + rest@.len() == orig.len(),
            rest@ =~= orig.skip(done as int),
            monitors@ =~= orig.map_values(
                |p: (u64, CaptureResult<CaptureFrame>)| p.0).take(done as int),
            frames@ =~= spec_ok_frames(orig.take(done as int)),
        decreases rest@.len(),
    {
        let ghost pre = rest@;
        let (id, res) = rest.remove(0);
        proof {
            assert(rest@ =~= pre.drop_first());
            assert(pre[0] == orig[done as int]);
            assert(orig.take(done as int + 1).drop_last() =~= orig.take(done as int));
            assert(orig.take(done as int + 1).last() == orig[done as int]);
        }
        monitors.push(id);
        match res {
            Ok(f) => {
                frames.push((id, f));
            },
            Err(_) => {},
        }
        proof {
            lemma_ok_frames_push(orig.take(done as int), orig[done as int]);
            assert(orig.take(done as int).push(orig[done as int])
                =~= orig.take(done as int + 1));
            assert(frames@ =~= spec_ok_frames(orig.take(done as int + 1)));
            assert(monitors@ =~= orig.map_values(
                |p: (u64, CaptureResult<CaptureFrame>)| p.0).take(done as int + 1));
        }
        done = done + 1;
    }
    proof {
        assert(orig.take(orig.len() as int) =~= orig);
        assert(orig.map_values(|p: (u64, CaptureResult<CaptureFrame>)| p.0)
            .take(orig.len() as int)
            =~= orig.map_values(|p: (u64, CaptureResult<CaptureFrame>)| p.0));
    }
    // total size, saturating
    let mut total: u64 = 0;
    let mut i: usize = 0;
    while i < frames.len()
        invariant
            0 <= i <= frames@.len(),
            total == spec_total_bytes(frames@.take(i as int)),
        decreases frames@.len() - i,
    {
        proof {
            assert(frames@.take(i as int + 1).drop_last() =~= frames@.take(i as int));
            assert(frames@.take(i as int + 1).last() == frames@[i as int]);
        }
        let flen: usize = frames[i].1.data.len();
        if total <= u64::MAX - flen as u64 {
            total = total + flen as u64;
        } else {
            total = u64::MAX;
        }
        i = i + 1;
    }
    proof {
        assert(frames@.take(frames@.len() as int) =~= frames@);
    }
    // synchronization quality over the included frames' timestamps
    let mut timestamps: Vec<u64> = Vec::new();
    let mut j: usize = 0;
    while j < frames.len()
        invariant
            0 <= j <= frames@.len(),
            timestamps@ =~= spec_frame_timestamps(frames@).take(j as int),
        decreases frames@.len() - j,
    {
        timestamps.push(frames[j].1.timestamp);
        proof {
            assert(timestamps@ =~= spec_frame_timestamps(frames@).take(j as int + 1));
        }
        j = j + 1;
    }
    proof {
        assert(spec_frame_timestamps(frames@).take(frames@.len() as int)
            =~= spec_frame_timestamps(frames@));
    }
    let sync_quality_milli = sync_quality_of(&timestamps);
    CoordinatedCapture {
        session_id,
        monitors,
        frames,
        timestamp: now_millis(),
        sync_quality_milli,
        total_size_bytes: total,
        processing_time_ms,
    }
}

/// Appending a result appends its frame when it succeeded.
proof fn lemma_ok_frames_push(rs: Seq<(u64, CaptureResult<CaptureFrame>)>, x: (u64, CaptureResult<CaptureFrame>))
    ensures
        spec_ok_frames(rs.push(x)) == spec_ok_frames(rs) + (match x.1 {
            Ok(f) => seq![(x.0, f)],
            Err(_) => Seq::<(u64, CaptureFrame)>::empty(),
        }),
    decreases rs.len(),
{
    let pushed = rs.push(x);
    if rs.len() == 0 {
        assert(pushed.drop_first() =~= Seq::<(u64, CaptureResult<CaptureFrame>)>::empty());
        assert(spec_ok_frames(Seq::empty()) =~= Seq::<(u64, CaptureFrame)>::empty());
        assert(spec_ok_frames(pushed) =~= spec_ok_frames(rs) + (match x.1 {
            Ok(f) => seq![(x.0, f)],
            Err(_) => Seq::<(u64, CaptureFrame)>::empty(),
        }));
    } else {
        assert(pushed.drop_first() =~= rs.drop_first().push(x));
        lemma_ok_frames_push(rs.drop_first(), x);
        assert(pushed[0] == rs[0]);
        assert(spec_ok_frames(pushed) =~= spec_ok_frames(rs) + (match x.1 {
            Ok(f) => seq![(x.0, f)],
            Err(_) => Seq::<(u64, CaptureFrame)>::empty(),
        }));
    }
}

impl MultiMonitorCoordinator {
    /// Capture one frame from every active monitor and assemble the
    /// synchronized batch.  A monitor whose capture fails is excluded
    /// from the batch and counted in its error statistics; the tick
    /// never fails as a whole.
    pub fn capture_coordinated_frame(&mut self) -> (r: MonitorResult<CoordinatedCapture>)
        requires
            old(self).wf(),
        ensures
            final(self).wf(),
            final(self).spec_monitors() == old(self).spec_monitors(),
            final(self).spec_active_ids() == old(self).spec_active_ids(),
            final(self).spec_active_metrics().len() == old(self).spec_active_metrics().len(),
            forall|k: int| 0 <= k < final(self).spec_active_metrics().len()
                ==> (#[trigger] final(self).spec_active_metrics()[k]).frames_captured
                    == (if old(self).spec_active_metrics()[k].frames_captured < u64::MAX {
                        old(self).spec_active_metrics()[k].frames_captured + 1
                    } else {
                        old(self).spec_active_metrics()[k].frames_captured as int
                    }),
            r matches Ok(c) && {
                &&& c.monitors@ == old(self).spec_active_ids()
                &&& c.frames@.len() == old(self).spec_active_ids().len()
                &&& forall|k: int| 0 <= k < c.frames@.len()
                    ==> (#[trigger] c.frames@[k]).0 == old(self).spec_active_ids()[k]
                        && c.frames@[k].1.wf()
                &&& c.total_size_bytes == spec_total_bytes(c.frames@)
                &&& 0 <= c.sync_quality_milli <= 1000
                &&& (c.frames@.len() <= 1 ==> c.sync_quality_milli == 1000)
            },
    {
        let start = now_millis();
        let ghost before = self.active_captures@;
        let mut work: Vec<ActiveMonitorCapture> = Vec::new();
        core::mem::swap(&mut work, &mut self.active_captures);
        let total: usize = work.len();
        let mut results: Vec<(u64, CaptureResult<CaptureFrame>)> = Vec::new();
        let mut i: usize = 0;
        while work.len() > 0
            invariant
                before.len() == total,
                i + work@.len() == total,
                work@ =~= before.skip(i as int),
                results@.len() == i,
                self.active_captures@.len() == i,
                self.monitors@ == old(self).monitors@,
                self.config == old(self).config,
                self.performance_monitor == old(self).performance_monitor,
                old(self).wf(),
                forall|k: int| 0 <= k < before.len()
                    ==> (spec_engine_config(#[trigger] before[k].capture_engine)
                        matches Some(c) && spec_config_valid(c)),
                forall|k: int| 0 <= k < i ==> {
                    &&& (#[trigger] self.active_captures@[k]).monitor_id == before[k].monitor_id
                    &&& self.active_captures@[k].capture_engine == before[k].capture_engine
                    &&& self.active_captures@[k].metrics.frames_captured
                        == (if before[k].metrics.frames_captured < u64::MAX {
                            before[k].metrics.frames_captured + 1
                        } else {
                            before[k].metrics.frames_captured as int
                        })
                    &&& self.active_captures@[k].metrics.error_count
                        == before[k].metrics.error_count
                },
                results@.map_values(|p: (u64, CaptureResult<CaptureFrame>)| p.0)
                    =~= active_ids_of(before).take(i as int),
                forall|k: int| 0 <= k < results@.len()
                    ==> ((#[trigger] results@[k]).1 matches Ok(f) && f.wf()),
            decreases work@.len(),
        {
            let ghost pre = work@;
            let mut a = work.remove(0);
            proof {
                assert(work@ =~= pre.drop_first());
                assert(pre[0] == before[i as int]);
                assert(work@ =~= before.skip(i as int + 1));
            }
            let res = a.capture_engine.capture_frame();
            proof {
                assert(spec_engine_config(a.capture_engine) matches Some(c)
                    && spec_config_valid(c));
                assert(res matches Ok(f) && f.wf());
            }
            match &res {
                Ok(_) => {
                    if a.metrics.frames_captured < u64::MAX {
                        a.metrics.frames_captured = a.metrics.frames_captured + 1;
                    }
                },
                Err(_) => {
                    if a.metrics.error_count < u64::MAX {
                        a.metrics.error_count = a.metrics.error_count + 1;
                    }
                },
            }
            results.push((a.monitor_id, res));
            self.active_captures.push(a);
            proof {
                assert(results@.map_values(|p: (u64, CaptureResult<CaptureFrame>)| p.0)
                    =~= active_ids_of(before).take(i as int + 1));
            }
            i = i + 1;
        }
        proof {
            assert(active_ids_of(before).take(before.len() as int) =~= active_ids_of(before));
            assert(active_ids_of(self.active_captures@) =~= active_ids_of(before));
            assert(metrics_of(self.active_captures@).len()
                == metrics_of(before).len());
            lemma_ok_frames_all_ok(results@);
            assert forall|k: int| 0 <= k < spec_ok_frames(results@).len()
                implies (#[trigger] spec_ok_frames(results@)[k]).0 == active_ids_of(before)[k]
                    && spec_ok_frames(results@)[k].1.wf() by {
                assert(results@.map_values(|p: (u64, CaptureResult<CaptureFrame>)| p.0)[k]
                    == results@[k].0);
            }
        }
        let end = now_millis();
        let mut elapsed: u64 = if end >= start { end - start } else { 0 };
        if elapsed > 1000000 {
            elapsed = 1000000;
        }
        self.performance_monitor.record_capture_latency(elapsed);
        let batch = assemble_coordinated_capture(fresh_id(), results, elapsed);
        Ok(batch)
    }

    /// Aggregated statistics: one entry per active monitor, carrying
    /// its identifier and its rolling capture statistics.
    pub fn get_coordination_metrics(&self) -> (r: MonitorResult<CoordinationMetrics>)
        ensures
            r matches Ok(m) && m.monitor_count == self.spec_active_ids().len()
                && m.monitor_metrics@.len() == self.spec_active_ids().len()
                && forall|k: int| 0 <= k < m.monitor_metrics@.len()
                    ==> (#[trigger] m.monitor_metrics@[k]).0 == self.spec_active_ids()[k]
                        && m.monitor_metrics@[k].1 == self.spec_active_metrics()[k],
    {
        let mut pairs: Vec<(u64, CaptureMetrics)> = Vec::new();
        let mut i: usize = 0;
        while i < self.active_captures.len()
            invariant
                0 <= i <= self.active_captures@.len(),
                pairs@.len() == i,
                forall|k: int| 0 <= k < i
                    ==> (#[trigger] pairs@[k]).0 == self.active_captures@[k].monitor_id
                        && pairs@[k].1 == self.active_captures@[k].metrics,
            decreases self.active_captures@.len() - i,
        {
            let a = &self.active_captures[i];
            pairs.push((a.monitor_id, a.metrics));
            i = i + 1;
        }
        proof {
            assert(self.spec_active_ids().len() == self.active_captures@.len());
        }
        Ok(CoordinationMetrics {
            monitor_count: pairs.len(),
            monitor_metrics: pairs,
            overall_performance_milli: 850,
            resource_usage: ResourceUsage::default(),
            alerts: Vec::new(),
            suggestions: Vec::new(),
        })
    }

    /// Analyze the current statistics and adjust the coordination
    /// strategy.  With no recorded bottlenecks the configuration is
    /// kept and a fifteen percent headroom estimate is reported.
    pub fn optimize_coordination(&mut self) -> (r: MonitorResult<OptimizationResult>)
        requires
            old(self).wf(),
        ensures
            final(self).wf(),
            *final(self) == *old(self),
            r matches Ok(o) && {
                &&& o.bottlenecks_identified@.len() == 0
                &&& o.optimizations_applied@.len() == 0
                &&& o.expected_improvement_milli == 150
                &&& o.new_configuration == old(self).spec_config()
            },
    {
        Ok(OptimizationResult {
            bottlenecks_identified: Vec::new(),
            optimizations_applied: Vec::new(),
            expected_improvement_milli: 150,
            new_configuration: self.config,
        })
    }
}

/// There are at most as many successful frames as results.
proof fn lemma_ok_frames_len(rs: Seq<(u64, CaptureResult<CaptureFrame>)>)
    ensures
        spec_ok_frames(rs).len() <= rs.len(),
    decreases rs.len(),
{
    if rs.len() > 0 {
        lemma_ok_frames_len(rs.drop_first());
    }
}

/// When every capture succeeded, the batch carries one frame per
/// result, in order: the result's monitor id and its frame.
proof fn lemma_ok_frames_all_ok(rs: Seq<(u64, CaptureResult<CaptureFrame>)>)
    requires
        forall|k: int| 0 <= k < rs.len() ==> (#[trigger] rs[k]).1 is Ok,
    ensures
        spec_ok_frames(rs).len() == rs.len(),
        forall|k: int| 0 <= k < rs.len() ==> {
            &&& (#[trigger] spec_ok_frames(rs)[k]).0 == rs[k].0
            &&& (rs[k].1 matches Ok(f) && spec_ok_frames(rs)[k].1 == f)
        },
    decreases rs.len(),
{
    if rs.len() > 0 {
        assert(rs[0].1 is Ok);
        assert(forall|k: int| 0 <= k < rs.drop_first().len()
            ==> (#[trigger] rs.drop_first()[k]).1 is Ok);
        lemma_ok_frames_all_ok(rs.drop_first());
        assert forall|k: int| 0 <= k < rs.len() implies {
            &&& (#[trigger] spec_ok_frames(rs)[k]).0 == rs[k].0
            &&& (rs[k].1 matches Ok(f) && spec_ok_frames(rs)[k].1 == f)
        } by {
            if k > 0 {
                assert(spec_ok_frames(rs)[k] == spec_ok_frames(rs.drop_first())[k - 1]);
                assert(rs.drop_first()[k - 1] == rs[k]);
            }
        }
    }
}

} // verus!


