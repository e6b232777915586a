//! Native capture engines: one backend per platform plus a
//! deterministic mock backend, a factory keyed on the platform name,
//! and the capture session that ties configuration, frame production
//! and privacy filtering together.

use vstd::prelude::*;

use crate::frame::{
    frame_byte_len, resolution_dims, spec_resolution_dims, spec_valid_dims, CaptureFrame,
    FrameFormat, FrameMetadata, Resolution,
};
use crate::performance::PerformanceMonitor;
use crate::privacy::{
    obs_views, spec_process_frame, AdvancedPrivacyFilter, PrivacyConfig, TextObservation,
};
use crate::trusted::{fresh_id, now_millis};

verus! {

/// Which monitors a session captures.
#[derive(Debug, Clone)]
pub enum MonitorSelection {
    /// The primary monitor only.
    Primary,
    /// Every detected monitor.
    All,
    /// One monitor, by identifier.
    Specific(u64),
    /// The monitors showing a named application.
    Application(String),
}

/// Trade-off preset between quality and speed.
#[derive(Debug, Clone, Copy, PartialEq, Eq, Structural)]
pub enum QualityPreset {
    Maximum,
    Balanced,
    Performance,
    Development,
}

/// Input contract for starting a capture session.
#[derive(Debug, Clone)]
pub struct CaptureConfig {
    /// Frames per second the session aims for.
    pub target_fps: u32,
    /// Capture resolution.
    pub resolution: Resolution,
    /// Pixel format of produced frames.
    pub format: FrameFormat,
    /// Use the GPU where the backend supports it.
    pub enable_gpu_acceleration: bool,
    /// Run every frame through the privacy filter.
    pub enable_privacy_filter: bool,
    /// Which monitors to capture.
    pub monitor_selection: MonitorSelection,
    /// Quality preset of the session.
    pub quality_preset: QualityPreset,
}

/// A configuration a backend can actually serve: non-empty dimensions
/// within the largest supported resolution, and a positive frame rate
/// of at most 240.
pub open spec fn spec_config_valid(c: CaptureConfig) -> bool {
    &&& spec_valid_dims(spec_resolution_dims(c.resolution).0, spec_resolution_dims(c.resolution).1)
    &&& 1 <= c.target_fps <= 240
}

/// Whether two configurations agree, comparing the application name
/// of the monitor selection by content.
pub open spec fn spec_config_equiv(a: CaptureConfig, b: CaptureConfig) -> bool {
    &&& a.target_fps == b.target_fps
    &&& a.resolution == b.resolution
    &&& a.format == b.format
    &&& a.enable_gpu_acceleration == b.enable_gpu_acceleration
    &&& a.enable_privacy_filter == b.enable_privacy_filter
    &&& a.quality_preset == b.quality_preset
    &&& match (a.monitor_selection, b.monitor_selection) {
        (MonitorSelection::Primary, MonitorSelection::Primary) => true,
        (MonitorSelection::All, MonitorSelection::All) => true,
        (MonitorSelection::Specific(x), MonitorSelection::Specific(y)) => x == y,
        (MonitorSelection::Application(n), MonitorSelection::Application(m)) => n@ == m@,
        _ => false,
    }
}

/// Duplicate a configuration.
pub fn duplicate_config(c: &CaptureConfig) -> (r: CaptureConfig)
    ensures
        spec_config_equiv(*c, r),
{
    let monitor_selection = match &c.monitor_selection {
        MonitorSelection::Primary => MonitorSelection::Primary,
        MonitorSelection::All => MonitorSelection::All,
        MonitorSelection::Specific(id) => MonitorSelection::Specific(*id),
        MonitorSelection::Application(name) => MonitorSelection::Application(name.clone()),
    };
    CaptureConfig {
        target_fps: c.target_fps,
        resolution: c.resolution,
        format: c.format,
        enable_gpu_acceleration: c.enable_gpu_acceleration,
        enable_privacy_filter: c.enable_privacy_filter,
        monitor_selection,
        quality_preset: c.quality_preset,
    }
}

impl CaptureConfig {
    /// Whether a backend can serve this configuration.
    pub fn is_valid(&self) -> (r: bool)
        ensures
            r == spec_config_valid(*self),
    {
        let dims = resolution_dims(&self.resolution);
        crate::frame::dims_are_valid(dims.0, dims.1) && 1 <= self.target_fps
            && self.target_fps <= 240
    }
}

/// Errors of the capture subsystem.
#[derive(Debug, Clone)]
pub enum CaptureError {
    /// The running platform has no capture backend; fatal, no retry.
    PlatformNotSupported { platform: String },
    /// The OS denied capture permission; fatal, user-actionable.
    PermissionDenied { reason: String },
    /// Hardware acceleration is unavailable; non-fatal, CPU fallback.
    HardwareAccelerationUnavailable,
    /// A requested monitor is not in the registry; retryable once.
    MonitorNotFound { monitor_id: u64 },
    /// Validation found the performance target unreachable.
    PerformanceTargetNotMet { actual_fps: u32, target_fps: u32 },
    /// Validation found the memory budget exceeded.
    MemoryLimitExceeded { current_mb: u64, limit_mb: u64 },
    /// The privacy filter failed; the frame is dropped, never leaked.
    PrivacyFilterFailed { reason: String },
    /// Internal error.
    Internal { message: String },
}

/// Result alias for the capture subsystem.
pub type CaptureResult<T> = Result<T, CaptureError>;

/// What a backend can do.
pub struct CaptureCapabilities {
    /// Largest resolution the backend captures.
    pub max_resolution: (u32, u32),
    /// Highest sustainable frame rate.
    pub max_fps: u32,
    /// Pixel formats the backend can produce.
    pub supported_formats: Vec<FrameFormat>,
    /// Whether capture is hardware accelerated.
    pub hardware_acceleration: bool,
    /// Whether encoding can run on the GPU.
    pub gpu_encoding: bool,
    /// Whether several monitors can be captured at once.
    pub multi_monitor: bool,
    /// Whether the privacy filter is supported.
    pub privacy_filtering: bool,
    /// Whether frames can be processed at capture cadence.
    pub real_time_processing: bool,
}

/// Static properties of one display, as a backend reports them.
pub struct MonitorInfo {
    /// Unique identifier.
    pub id: u64,
    /// Human-readable name.
    pub name: String,
    /// Native resolution.
    pub resolution: (u32, u32),
    /// Refresh rate, Hz.
    pub refresh_rate: u32,
    /// Whether this is the primary display.
    pub is_primary: bool,
    /// Whether capture of it can be hardware accelerated.
    pub supports_hardware_acceleration: bool,
    /// Colour depth, bits.
    pub color_depth: u8,
    /// Display scaling, per mille of 1.0.
    pub scaling_factor_milli: u32,
}

/// Outcome of validating a configuration against a backend.
#[derive(Debug, Clone)]
pub struct PerformanceReport {
    /// Frame rate the backend expects to reach.
    pub estimated_fps: u32,
    /// Estimated CPU usage, hundredths of a percent.
    pub estimated_cpu_centi_percent: u32,
    /// Estimated memory footprint, MiB.
    pub estimated_memory_mb: u64,
    /// Whether GPU acceleration is available.
    pub gpu_acceleration_available: bool,
    /// Human-readable bottleneck descriptions.
    pub bottlenecks: Vec<String>,
    /// Human-readable recommendations.
    pub recommendations: Vec<String>,
}

/// Estimated CPU usage in hundredths of a percent: the pixel rate
/// divided by the backend's pixels-per-second-per-percent budget,
/// capped at one hundred percent.
pub open spec fn spec_cpu_centi(width: u32, height: u32, fps: u32, divisor: int) -> int {
    crate::privacy::min_int(width * height * fps * 100 / divisor, 10000)
}

/// Estimated capture memory in MiB: one uncompressed four-byte frame.
pub open spec fn spec_memory_mb(width: u32, height: u32) -> int {
    width * height * 4 / 1048576
}

/// What a backend's performance report says for a configuration, given
/// the backend's CPU budget: the target frame rate, the estimated CPU
/// and memory figures, the GPU flag, and a bottleneck entry exactly
/// when the estimate crosses the five percent CPU target.
pub open spec fn spec_report_of(
    config: CaptureConfig,
    divisor: int,
    gpu: bool,
    rep: PerformanceReport,
) -> bool {
    let dims = spec_resolution_dims(config.resolution);
    &&& rep.estimated_fps == config.target_fps
    &&& rep.estimated_cpu_centi_percent == spec_cpu_centi(dims.0, dims.1, config.target_fps,
        divisor)
    &&& rep.estimated_memory_mb == spec_memory_mb(dims.0, dims.1)
    &&& rep.gpu_acceleration_available == gpu
    &&& rep.bottlenecks@.len() == (if rep.estimated_cpu_centi_percent > 500 { 1int } else { 0 })
}

/// Compute the report of a backend whose CPU budget is
/// `divisor` pixels per second per percent of CPU.
fn build_report(
    config: &CaptureConfig,
    divisor: u64,
    gpu_available: bool,
    recommendations: Vec<String>,
) -> (r: PerformanceReport)
    requires
        spec_config_valid(*config),
        divisor >= 1000000,
    ensures
        r.estimated_fps == config.target_fps,
        r.estimated_cpu_centi_percent == spec_cpu_centi(
            spec_resolution_dims(config.resolution).0,
            spec_resolution_dims(config.resolution).1,
            config.target_fps,
            divisor as int,
        ),
        r.estimated_memory_mb == spec_memory_mb(
            spec_resolution_dims(config.resolution).0,
            spec_resolution_dims(config.resolution).1,
        ),
        r.gpu_acceleration_available == gpu_available,
        r.bottlenecks@.len() == (if r.estimated_cpu_centi_percent > 500 { 1int } else { 0 }),
        r.recommendations == recommendations,
{
    let dims = resolution_dims(&config.resolution);
    let (width, height) = dims;
    proof {
        assert(width * height <= 7680 * 4320) by (nonlinear_arith)
            requires 1 <= width <= 7680, 1 <= height <= 4320;
        assert(width * height * config.target_fps <= 7680 * 4320 * 240) by (nonlinear_arith)
            requires 1 <= width <= 7680, 1 <= height <= 4320, 1 <= config.target_fps <= 240;
    }
    let pps100: u64 = (width as u64) * (height as u64) * (config.target_fps as u64) * 100;
    let raw: u64 = pps100 / divisor;
    let cpu: u32 = if raw > 10000 { 10000 } else { raw as u32 };
    let memory: u64 = (width as u64) * (height as u64) * 4 / 1048576;
    let mut bottlenecks: Vec<String> = Vec::new();
    if cpu > 500 {
        bottlenecks.push("estimated CPU usage exceeds the five percent target".to_owned());
    }
    PerformanceReport {
        estimated_fps: config.target_fps,
        estimated_cpu_centi_percent: cpu,
        estimated_memory_mb: memory,
        gpu_acceleration_available: gpu_available,
        bottlenecks,
        recommendations,
    }
}

/// Fill a frame buffer with one value.
fn filled_buffer(value: u8, len: usize) -> (out: Vec<u8>)
    ensures
        out@ == Seq::new(len as nat, |i: int| value),
{
    let mut out: Vec<u8> = Vec::new();
    let mut i: usize = 0;
    while i < len
        invariant
            0 <= i <= len,
            out@ =~= Seq::new(i as nat, |j: int| value),
        decreases len - i,
    {
        out.push(value);
        i = i + 1;
    }
    proof {
        assert(out@ =~= Seq::new(len as nat, |i: int| value));
    }
    out
}

/// Byte length of a frame of the given format and dimensions, as a
/// machine value.
fn frame_len_bytes(format: FrameFormat, width: u32, height: u32) -> (n: usize)
    requires
        spec_valid_dims(width, height),
    ensures
        n == frame_byte_len(format, width, height),
{
    proof {
        assert(width * height * 8 <= 7680 * 4320 * 8) by (nonlinear_arith)
            requires 1 <= width <= 7680, 1 <= height <= 4320;
    }
    let pixels: u64 = (width as u64) * (height as u64);
    let twice: u64 = match format {
        FrameFormat::RGBA8 => 8,
        FrameFormat::BGRA8 => 8,
        FrameFormat::RGB8 => 6,
        FrameFormat::YUV420P => 3,
        FrameFormat::NV12 => 3,
    };
    ((pixels * twice) / 2) as usize
}

/// Produce one synthetic frame of the given configuration: the mock
/// pixel source shared by the backends until native capture lands.
fn synth_frame(config: &CaptureConfig, fill: u8, format: FrameFormat, monitor_id: u64)
    -> (f: CaptureFrame)
    requires
        spec_config_valid(*config),
    ensures
        f.width == spec_resolution_dims(config.resolution).0,
        f.height == spec_resolution_dims(config.resolution).1,
        f.format == format,
        f.data@ == Seq::new(frame_byte_len(format, f.width, f.height) as nat, |i: int| fill),
        f.wf(),
        f.monitor_id == Some(monitor_id),
        f.metadata.gpu_accelerated == config.enable_gpu_acceleration,
        !f.metadata.privacy_filtered,
        f.metadata.quality_score_milli == 950,
{
    let dims = resolution_dims(&config.resolution);
    let (width, height) = dims;
    let len = frame_len_bytes(format, width, height);
    CaptureFrame {
        id: fresh_id(),
        timestamp: now_millis(),
        width,
        height,
        format,
        data: filled_buffer(fill, len),
        monitor_id: Some(monitor_id),
        metadata: FrameMetadata {
            capture_latency_ms: 0,
            processing_time_ms: 0,
            gpu_accelerated: config.enable_gpu_acceleration,
            privacy_filtered: false,
            compression_ratio_milli: None,
            quality_score_milli: 950,
        },
    }
}

/// The deterministic mock backend used for development and testing.
pub struct MockCaptureEngine {
    /// The configuration the engine was initialized with, if any.
    pub config: Option<CaptureConfig>,
}

impl MockCaptureEngine {
    /// A fresh, uninitialized mock engine.
    pub fn new() -> (e: Self)
        ensures
            e.config is None,
    {
        MockCaptureEngine { config: None }
    }

    /// Store the configuration; fails on one no backend could serve.
    pub fn initialize(&mut self, config: CaptureConfig) -> (r: CaptureResult<()>)
        ensures
            r is Ok <==> spec_config_valid(config),
            r is Ok ==> (final(self).config matches Some(c) && c == config),
            r is Err ==> *final(self) == *old(self),
    {
        if config.is_valid() {
            self.config = Some(config);
            Ok(())
        } else {
            Err(CaptureError::Internal {
                message: "configuration dimensions or frame rate out of range".to_owned(),
            })
        }
    }

    /// Capture one synthetic frame: RGBA, dark grey, matching the
    /// configured resolution.
    pub fn capture_frame(&self) -> (r: CaptureResult<CaptureFrame>)
        ensures
            r is Ok <==> (self.config matches Some(c) && spec_config_valid(c)),
            r matches Ok(f) ==> (self.config matches Some(c) && {
                &&& f.width == spec_resolution_dims(c.resolution).0
                &&& f.height == spec_resolution_dims(c.resolution).1
                &&& f.format == FrameFormat::RGBA8
                &&& f.data@ == Seq::new((f.width * f.height * 4) as nat, |i: int| 64u8)
                &&& f.wf()
            }),
    {
        match &self.config {
            Some(config) => {
                if config.is_valid() {
                    Ok(synth_frame(config, 64, FrameFormat::RGBA8, 1))
                } else {
                    Err(CaptureError::Internal {
                        message: "configuration dimensions or frame rate out of range".to_owned(),
                    })
                }
            },
            None => Err(CaptureError::Internal { message: "engine not initialized".to_owned() }),
        }
    }

    /// The monitors the mock backend pretends to see.
    pub fn get_monitors(&self) -> (r: CaptureResult<Vec<MonitorInfo>>)
        ensures
            r matches Ok(ms) && ms@.len() == 1 && ms@[0].id == 1 && ms@[0].is_primary
                && ms@[0].resolution == (3840u32, 2160u32) && ms@[0].refresh_rate == 60,
    {
        let mut ms: Vec<MonitorInfo> = Vec::new();
        ms.push(MonitorInfo {
            id: 1,
            name: "Mock Primary Monitor".to_owned(),
            resolution: (3840, 2160),
            refresh_rate: 60,
            is_primary: true,
            supports_hardware_acceleration: true,
            color_depth: 24,
            scaling_factor_milli: 1000,
        });
        Ok(ms)
    }

    /// The mock backend has no GPU path.
    pub fn supports_gpu_acceleration(&self) -> (r: bool)
        ensures
            !r,
    {
        false
    }

    /// What the mock backend can do.
    pub fn get_capabilities(&self) -> (c: CaptureCapabilities)
        ensures
            c.max_resolution == (3840u32, 2160u32),
            c.max_fps == 60,
            !c.hardware_acceleration,
            !c.gpu_encoding,
            c.multi_monitor,
            c.privacy_filtering,
            c.real_time_processing,
    {
        let mut formats: Vec<FrameFormat> = Vec::new();
        formats.push(FrameFormat::RGBA8);
        formats.push(FrameFormat::RGB8);
        CaptureCapabilities {
            max_resolution: (3840, 2160),
            max_fps: 60,
            supported_formats: formats,
            hardware_acceleration: false,
            gpu_encoding: false,
            multi_monitor: true,
            privacy_filtering: true,
            real_time_processing: true,
        }
    }

    /// Estimate whether the configuration meets the performance
    /// targets on the mock (CPU-only) path.
    pub fn validate_performance(&self, config: &CaptureConfig) -> (r: CaptureResult<PerformanceReport>)
        ensures
            r is Ok <==> spec_config_valid(*config),
            r matches Ok(rep) ==> spec_report_of(*config, 100000000, false, rep),
    {
        if !config.is_valid() {
            return Err(CaptureError::Internal {
                message: "configuration dimensions or frame rate out of range".to_owned(),
            });
        }
        let mut recs: Vec<String> = Vec::new();
        recs.push("consider GPU acceleration for production use".to_owned());
        recs.push("enable hardware encoding for better performance".to_owned());
        Ok(build_report(config, 100000000, false, recs))
    }
}

/// Store a configuration in an engine slot; fails on one no backend
/// could serve.
fn store_config(slot: &mut Option<CaptureConfig>, config: CaptureConfig) -> (r: CaptureResult<()>)
    ensures
        r is Ok <==> spec_config_valid(config),
        r is Ok ==> ((*final(slot)) matches Some(c) && c == config),
        r is Err ==> *final(slot) == *old(slot),
{
    if config.is_valid() {
        *slot = Some(config);
        Ok(())
    } else {
        Err(CaptureError::Internal {
            message: "configuration dimensions or frame rate out of range".to_owned(),
        })
    }
}

/// Produce a frame from a configured engine slot.  Until the native
/// capture paths land, every backend produces the deterministic
/// synthetic frame.
fn capture_from(slot: &Option<CaptureConfig>) -> (r: CaptureResult<CaptureFrame>)
    ensures
        r is Ok <==> ((*slot) matches Some(c) && spec_config_valid(c)),
        r matches Ok(f) ==> ((*slot) matches Some(c) && {
            &&& f.width == spec_resolution_dims(c.resolution).0
            &&& f.height == spec_resolution_dims(c.resolution).1
            &&& f.format == FrameFormat::RGBA8
            &&& f.data@ == Seq::new((f.width * f.height * 4) as nat, |i: int| 64u8)
            &&& f.wf()
        }),
{
    match slot {
        Some(config) => {
            if config.is_valid() {
                Ok(synth_frame(config, 64, FrameFormat::RGBA8, 1))
            } else {
                Err(CaptureError::Internal {
                    message: "configuration dimensions or frame rate out of range".to_owned(),
                })
            }
        },
        None => Err(CaptureError::Internal { message: "engine not initialized".to_owned() }),
    }
}

/// Windows backend (DXGI desktop duplication).
pub struct WindowsDXGIEngine {
    /// The configuration the engine was initialized with, if any.
    pub config: Option<CaptureConfig>,
}

impl WindowsDXGIEngine {
    /// A fresh, uninitialized engine.
    pub fn new() -> (e: Self)
        ensures
            e.config is None,
    {
        WindowsDXGIEngine { config: None }
    }

    /// Store the configuration; fails on one no backend could serve.
    pub fn initialize(&mut self, config: CaptureConfig) -> (r: CaptureResult<()>)
        ensures
            r is Ok <==> spec_config_valid(config),
            r is Ok ==> (final(self).config matches Some(c) && c == config),
            r is Err ==> *final(self) == *old(self),
    {
        store_config(&mut self.config, config)
    }

    /// Capture one frame.
    pub fn capture_frame(&self) -> (r: CaptureResult<CaptureFrame>)
        ensures
            r is Ok <==> (self.config matches Some(c) && spec_config_valid(c)),
            r matches Ok(f) ==> f.wf(),
    {
        capture_from(&self.config)
    }

    /// The DXGI path is hardware accelerated.
    pub fn supports_gpu_acceleration(&self) -> (r: bool)
        ensures
            r,
    {
        true
    }

    /// Estimate performance: the GPU path handles half a billion
    /// pixels per second per percent of CPU, the CPU path fifty
    /// million.
    pub fn validate_performance(&self, config: &CaptureConfig) -> (r: CaptureResult<PerformanceReport>)
        ensures
            r is Ok <==> spec_config_valid(*config),
            r matches Ok(rep) ==> spec_report_of(*config,
                if config.enable_gpu_acceleration { 500000000 as int } else { 50000000 as int },
                true, rep),
    {
        if !config.is_valid() {
            return Err(CaptureError::Internal {
                message: "configuration dimensions or frame rate out of range".to_owned(),
            });
        }
        let divisor: u64 = if config.enable_gpu_acceleration { 500000000 } else { 50000000 };
        let mut recs: Vec<String> = Vec::new();
        recs.push("enable hardware encoding for optimal performance".to_owned());
        Ok(build_report(config, divisor, true, recs))
    }
}

/// macOS backend (ScreenCaptureKit).
pub struct MacOSScreenCaptureKitEngine {
    /// The configuration the engine was initialized with, if any.
    pub config: Option<CaptureConfig>,
}

impl MacOSScreenCaptureKitEngine {
    /// A fresh, uninitialized engine.
    pub fn new() -> (e: Self)
        ensures
            e.config is None,
    {
        MacOSScreenCaptureKitEngine { config: None }
    }

    /// Store the configuration; fails on one no backend could serve.
    pub fn initialize(&mut self, config: CaptureConfig) -> (r: CaptureResult<()>)
        ensures
            r is Ok <==> spec_config_valid(config),
            r is Ok ==> (final(self).config matches Some(c) && c == config),
            r is Err ==> *final(self) == *old(self),
    {
        store_config(&mut self.config, config)
    }

    /// Capture one frame.
    pub fn capture_frame(&self) -> (r: CaptureResult<CaptureFrame>)
        ensures
            r is Ok <==> (self.config matches Some(c) && spec_config_valid(c)),
            r matches Ok(f) ==> f.wf(),
    {
        capture_from(&self.config)
    }

    /// The VideoToolbox path is hardware accelerated.
    pub fn supports_gpu_acceleration(&self) -> (r: bool)
        ensures
            r,
    {
        true
    }

    /// Estimate performance on the VideoToolbox or CPU path.
    pub fn validate_performance(&self, config: &CaptureConfig) -> (r: CaptureResult<PerformanceReport>)
        ensures
            r is Ok <==> spec_config_valid(*config),
            r matches Ok(rep) ==> spec_report_of(*config,
                if config.enable_gpu_acceleration { 400000000 as int } else { 80000000 as int },
                true, rep),
    {
        if !config.is_valid() {
            return Err(CaptureError::Internal {
                message: "configuration dimensions or frame rate out of range".to_owned(),
            });
        }
        let divisor: u64 = if config.enable_gpu_acceleration { 400000000 } else { 80000000 };
        let mut recs: Vec<String> = Vec::new();
        recs.push("use hardware encoding where available".to_owned());
        Ok(build_report(config, divisor, true, recs))
    }
}

/// Linux backend (X11 or Wayland).
pub struct LinuxX11WaylandEngine {
    /// The configuration the engine was initialized with, if any.
    pub config: Option<CaptureConfig>,
}

impl LinuxX11WaylandEngine {
    /// A fresh, uninitialized engine.
    pub fn new() -> (e: Self)
        ensures
            e.config is None,
    {
        LinuxX11WaylandEngine { config: None }
    }

    /// Store the configuration; fails on one no backend could serve.
    pub fn initialize(&mut self, config: CaptureConfig) -> (r: CaptureResult<()>)
        ensures
            r is Ok <==> spec_config_valid(config),
            r is Ok ==> (final(self).config matches Some(c) && c == config),
            r is Err ==> *final(self) == *old(self),
    {
        store_config(&mut self.config, config)
    }

    /// Capture one frame.
    pub fn capture_frame(&self) -> (r: CaptureResult<CaptureFrame>)
        ensures
            r is Ok <==> (self.config matches Some(c) && spec_config_valid(c)),
            r matches Ok(f) ==> f.wf(),
    {
        capture_from(&self.config)
    }

    /// VAAPI and NVENC provide hardware acceleration.
    pub fn supports_gpu_acceleration(&self) -> (r: bool)
        ensures
            r,
    {
        true
    }

    /// Estimate performance on the VAAPI/NVENC or CPU path.
    pub fn validate_performance(&self, config: &CaptureConfig) -> (r: CaptureResult<PerformanceReport>)
        ensures
            r is Ok <==> spec_config_valid(*config),
            r matches Ok(rep) ==> spec_report_of(*config,
                if config.enable_gpu_acceleration { 300000000 as int } else { 60000000 as int },
                true, rep),
    {
        if !config.is_valid() {
            return Err(CaptureError::Internal {
                message: "configuration dimensions or frame rate out of range".to_owned(),
            });
        }
        let divisor: u64 = if config.enable_gpu_acceleration { 300000000 } else { 60000000 };
        let mut recs: Vec<String> = Vec::new();
        recs.push("install VAAPI or NVENC drivers for hardware acceleration".to_owned());
        Ok(build_report(config, divisor, true, recs))
    }
}

/// The closed set of capture backends, selected once at startup.
pub enum CaptureEngine {
    /// Windows DXGI backend.
    Windows(WindowsDXGIEngine),
    /// macOS ScreenCaptureKit backend.
    MacOS(MacOSScreenCaptureKitEngine),
    /// Linux X11/Wayland backend.
    Linux(LinuxX11WaylandEngine),
    /// Deterministic mock backend.
    Mock(MockCaptureEngine),
}

/// The CPU budget of a backend, in pixels per second per percent of
/// CPU: each platform path has a GPU and a CPU figure, the mock
/// backend only a CPU one.
pub open spec fn spec_engine_divisor(e: CaptureEngine, gpu: bool) -> int {
    match e {
        CaptureEngine::Windows(_) => if gpu { 500000000 } else { 50000000 },
        CaptureEngine::MacOS(_) => if gpu { 400000000 } else { 80000000 },
        CaptureEngine::Linux(_) => if gpu { 300000000 } else { 60000000 },
        CaptureEngine::Mock(_) => 100000000,
    }
}

/// The configuration an engine holds.
pub open spec fn spec_engine_config(e: CaptureEngine) -> Option<CaptureConfig> {
    match e {
        CaptureEngine::Windows(w) => w.config,
        CaptureEngine::MacOS(m) => m.config,
        CaptureEngine::Linux(l) => l.config,
        CaptureEngine::Mock(m) => m.config,
    }
}

impl CaptureEngine {
    /// Store the configuration; fails on one no backend could serve.
    pub fn initialize(&mut self, config: CaptureConfig) -> (r: CaptureResult<()>)
        ensures
            r is Ok <==> spec_config_valid(config),
            r is Ok ==> (spec_engine_config(*final(self)) matches Some(c) && c == config),
    {
        match self {
            CaptureEngine::Windows(w) => w.initialize(config),
            CaptureEngine::MacOS(m) => m.initialize(config),
            CaptureEngine::Linux(l) => l.initialize(config),
            CaptureEngine::Mock(m) => m.initialize(config),
        }
    }

    /// Capture one frame from the active backend.
    pub fn capture_frame(&self) -> (r: CaptureResult<CaptureFrame>)
        ensures
            r is Ok <==> (spec_engine_config(*self) matches Some(c) && spec_config_valid(c)),
            r matches Ok(f) ==> (spec_engine_config(*self) matches Some(c) && {
                &&& f.width == spec_resolution_dims(c.resolution).0
                &&& f.height == spec_resolution_dims(c.resolution).1
                &&& f.wf()
            }),
    {
        match self {
            CaptureEngine::Windows(w) => capture_from(&w.config),
            CaptureEngine::MacOS(m) => capture_from(&m.config),
            CaptureEngine::Linux(l) => capture_from(&l.config),
            CaptureEngine::Mock(m) => capture_from(&m.config),
        }
    }

    /// Whether the backend has a hardware-accelerated path.
    pub fn supports_gpu_acceleration(&self) -> (r: bool)
        ensures
            r == !(self is Mock),
    {
        match self {
            CaptureEngine::Windows(_) => true,
            CaptureEngine::MacOS(_) => true,
            CaptureEngine::Linux(_) => true,
            CaptureEngine::Mock(_) => false,
        }
    }

    /// Estimate performance of a configuration on this backend.
    pub fn validate_performance(&self, config: &CaptureConfig) -> (r: CaptureResult<PerformanceReport>)
        ensures
            r is Ok <==> spec_config_valid(*config),
            r matches Ok(rep) ==> spec_report_of(*config,
                spec_engine_divisor(*self, config.enable_gpu_acceleration),
                !(self is Mock), rep),
    {
        match self {
            CaptureEngine::Windows(w) => w.validate_performance(config),
            CaptureEngine::MacOS(m) => m.validate_performance(config),
            CaptureEngine::Linux(l) => l.validate_performance(config),
            CaptureEngine::Mock(m) => m.validate_performance(config),
        }
    }

    /// The monitors the backend reports.
    pub fn get_monitors(&self) -> (r: CaptureResult<Vec<MonitorInfo>>)
        ensures
            r matches Ok(ms) && ms@.len() >= 1 && ms@[0].is_primary,
    {
        let mut ms: Vec<MonitorInfo> = Vec::new();
        ms.push(MonitorInfo {
            id: 1,
            name: "Primary Monitor".to_owned(),
            resolution: (3840, 2160),
            refresh_rate: 60,
            is_primary: true,
            supports_hardware_acceleration: true,
            color_depth: 24,
            scaling_factor_milli: 1000,
        });
        Ok(ms)
    }

    /// Start a capture session over this engine's configuration.
    pub fn start_capture_session(&self) -> (r: CaptureResult<CaptureSession>)
        ensures
            r is Ok <==> spec_engine_config(*self) is Some,
            r matches Ok(s) ==> (spec_engine_config(*self) matches Some(c)
                && spec_config_equiv(c, s.spec_config()) && s.spec_monitor().samples == 0
                && s.wf()),
    {
        match self {
            CaptureEngine::Windows(w) => {
                match &w.config {
                    Some(c) => Ok(CaptureSession::new(duplicate_config(c))),
                    None => Err(CaptureError::Internal {
                        message: "engine not initialized".to_owned(),
                    }),
                }
            },
            CaptureEngine::MacOS(m) => {
                match &m.config {
                    Some(c) => Ok(CaptureSession::new(duplicate_config(c))),
                    None => Err(CaptureError::Internal {
                        message: "engine not initialized".to_owned(),
                    }),
                }
            },
            CaptureEngine::Linux(l) => {
                match &l.config {
                    Some(c) => Ok(CaptureSession::new(duplicate_config(c))),
                    None => Err(CaptureError::Internal {
                        message: "engine not initialized".to_owned(),
                    }),
                }
            },
            CaptureEngine::Mock(m) => {
                match &m.config {
                    Some(c) => Ok(CaptureSession::new(duplicate_config(c))),
                    None => Err(CaptureError::Internal {
                        message: "engine not initialized".to_owned(),
                    }),
                }
            },
        }
    }
}

/// Factory that picks the backend for the running platform.
pub struct CaptureEngineFactory;

impl CaptureEngineFactory {
    /// The backend for the named platform, or `PlatformNotSupported`.
    /// The caller passes the platform name the runtime reports.
    pub fn create_engine(platform: &str) -> (r: CaptureResult<CaptureEngine>)
        ensures
            platform@ == "windows"@ ==> (r matches Ok(e) && e is Windows),
            platform@ == "macos"@ ==> (r matches Ok(e) && e is MacOS),
            platform@ == "linux"@ ==> (r matches Ok(e) && e is Linux),
            !(platform@ == "windows"@ || platform@ == "macos"@ || platform@ == "linux"@)
                ==> (r matches Err(e)
                    && e matches CaptureError::PlatformNotSupported { platform: p }
                    && p@ == platform@),
            r matches Ok(e) ==> spec_engine_config(e) is None,
    {
        broadcast use vstd::string::group_string_axioms;

        proof {
            reveal_strlit("windows");
            reveal_strlit("macos");
            reveal_strlit("linux");
            assert("windows"@.len() == 7 && "macos"@.len() == 5 && "linux"@.len() == 5);
            assert("macos"@[0] == 'm' && "linux"@[0] == 'l');
        }
        if str_eq(platform, "windows") {
            Ok(CaptureEngine::Windows(WindowsDXGIEngine::new()))
        } else if str_eq(platform, "macos") {
            Ok(CaptureEngine::MacOS(MacOSScreenCaptureKitEngine::new()))
        } else if str_eq(platform, "linux") {
            Ok(CaptureEngine::Linux(LinuxX11WaylandEngine::new()))
        } else {
            Err(CaptureError::PlatformNotSupported { platform: platform.to_owned() })
        }
    }

    /// The deterministic mock backend, for development and testing.
    pub fn create_mock_engine() -> (r: CaptureEngine)
        ensures
            r is Mock,
            spec_engine_config(r) is None,
    {
        CaptureEngine::Mock(MockCaptureEngine::new())
    }
}

/// Compare two string slices by content.
pub fn str_eq(a: &str, b: &str) -> (r: bool)
    ensures
        r == (a@ == b@),
{
    a.to_owned() == b.to_owned()
}

/// The privacy configuration a session's filter is built from.
pub open spec fn spec_session_privacy_cfg() -> crate::privacy::PrivacyConfigV {
    crate::privacy::PrivacyConfigV {
        enable_text_detection: true,
        enable_pattern_matching: true,
        enable_face_blurring: true,
        enable_screen_content_analysis: true,
        sensitivity_level: crate::privacy::SensitivityLevel::Medium,
        custom_patterns: Seq::empty(),
        blur_intensity_milli: 800,
        detection_confidence_threshold_milli: 700,
    }
}

/// A recording session: one frame source plus an optional privacy
/// filter, exposing the pull-based frame API.
pub struct CaptureSession {
    /// Session identifier.
    pub id: u128,
    config: CaptureConfig,
    performance_monitor: PerformanceMonitor,
    privacy_filter: Option<AdvancedPrivacyFilter>,
}

impl CaptureSession {
    /// The session's configuration.
    pub closed spec fn spec_config(&self) -> CaptureConfig {
        self.config
    }

    /// The session's latency statistics.
    pub closed spec fn spec_monitor(&self) -> PerformanceMonitor {
        self.performance_monitor
    }

    /// The configuration of the session's privacy filter, when one
    /// could be built.
    pub closed spec fn spec_filter(&self) -> Option<crate::privacy::PrivacyConfigV> {
        match self.privacy_filter {
            Some(f) => Some(f@),
            None => None,
        }
    }

    /// The session invariant: latency statistics within range.
    pub closed spec fn wf(&self) -> bool {
        self.performance_monitor.ema_latency_milli_ms <= 1000000000
    }

    /// Start a session over a configuration.  The privacy filter is
    /// built from the default privacy configuration; if its patterns
    /// fail to compile the session stays usable but fails closed on
    /// filtered captures.
    pub fn new(config: CaptureConfig) -> (s: Self)
        ensures
            s.spec_config() == config,
            s.spec_monitor().samples == 0,
            s.wf(),
            s.spec_filter() is Some <==> (crate::trusted::pattern_compiles(
                crate::privacy::CREDIT_CARD_PATTERN@)
                && crate::trusted::pattern_compiles(crate::privacy::SSN_PATTERN@)
                && crate::trusted::pattern_compiles(crate::privacy::PASSWORD_PATTERN@)
                && crate::trusted::pattern_compiles(crate::privacy::API_KEY_PATTERN@)
                && crate::trusted::pattern_compiles(crate::privacy::EMAIL_PATTERN@)),
            s.spec_filter() matches Some(cfg) ==> cfg == spec_session_privacy_cfg(),
    {
        let filter = match AdvancedPrivacyFilter::new(PrivacyConfig::default()) {
            Ok(f) => Some(f),
            Err(_) => None,
        };
        proof {
            let d = crate::privacy::spec_new_config(spec_session_privacy_cfg());
            assert(crate::privacy::spec_compiling(Seq::empty()) =~= Seq::<Seq<char>>::empty());
            assert(d == spec_session_privacy_cfg());
        }
        CaptureSession {
            id: fresh_id(),
            config,
            performance_monitor: PerformanceMonitor::new(),
            privacy_filter: filter,
        }
    }

    /// Pull one frame: capture, record the latency, and, when privacy
    /// filtering is enabled, pass the frame through the filter before
    /// returning it — a frame that cannot be filtered is dropped, not
    /// returned unfiltered.
    pub fn capture_frame(&mut self) -> (r: CaptureResult<CaptureFrame>)
        requires
            old(self).wf(),
        ensures
            final(self).wf(),
            final(self).spec_config() == old(self).spec_config(),
            final(self).spec_filter() == old(self).spec_filter(),
            final(self).spec_monitor().samples == (if old(self).spec_monitor().samples < u64::MAX {
                old(self).spec_monitor().samples + 1
            } else {
                old(self).spec_monitor().samples as int
            }),
            ({
                let c = old(self).spec_config();
                let dims = spec_resolution_dims(c.resolution);
                &&& (r is Ok <==> spec_config_valid(c) && (c.enable_privacy_filter ==> (
                        old(self).spec_filter() is Some
                        && (c.format == FrameFormat::RGBA8 || c.format == FrameFormat::BGRA8))))
                &&& (!spec_config_valid(c) ==> (r matches Err(e) && e is Internal))
                &&& (spec_config_valid(c) && r is Err ==> (r matches Err(e)
                    && e is PrivacyFilterFailed))
                &&& (r matches Ok(f) ==> {
                    &&& f.width == dims.0
                    &&& f.height == dims.1
                    &&& f.format == c.format
                    &&& f.wf()
                    &&& f.metadata.privacy_filtered == c.enable_privacy_filter
                    &&& (c.enable_privacy_filter ==> (old(self).spec_filter() matches Some(fc)
                        && f.data@ == spec_process_frame(
                            Seq::new(frame_byte_len(c.format, dims.0, dims.1) as nat, |i: int| 128u8),
                            dims.0, dims.1, Seq::empty(), fc)))
                    &&& (!c.enable_privacy_filter ==> f.data@ == Seq::new(
                        frame_byte_len(c.format, dims.0, dims.1) as nat, |i: int| 128u8))
                })
            }),
    {
        let start = now_millis();
        if !self.config.is_valid() {
            self.performance_monitor.record_capture_latency(0);
            return Err(CaptureError::Internal {
                message: "configuration dimensions or frame rate out of range".to_owned(),
            });
        }
        let format = self.config.format;
        let mut frame = synth_frame(&self.config, 128, format, 1);
        let end = now_millis();
        let mut latency: u64 = if end >= start { end - start } else { 0 };
        if latency > 1000000 {
            latency = 1000000;
        }
        self.performance_monitor.record_capture_latency(latency);
        frame.metadata.capture_latency_ms = latency;
        if self.config.enable_privacy_filter {
            let four_byte = match format {
                FrameFormat::RGBA8 => true,
                FrameFormat::BGRA8 => true,
                _ => false,
            };
            if !four_byte {
                return Err(CaptureError::PrivacyFilterFailed {
                    reason: "privacy filtering needs a four-byte pixel format".to_owned(),
                });
            }
            match &self.privacy_filter {
                Some(filter) => {
                    let no_obs: Vec<TextObservation> = Vec::new();
                    proof {
                        assert(obs_views(no_obs@) =~= Seq::<crate::privacy::TextObservationV>::empty());
                    }
                    match filter.process_frame(&frame.data, frame.width, frame.height, &no_obs) {
                        Ok(filtered) => {
                            proof {
                                crate::privacy::lemma_redact_seq_len(
                                    frame.data@,
                                    frame.width,
                                    crate::privacy::spec_kept_regions(frame.data@, frame.width,
                                        frame.height, Seq::empty(), filter@),
                                    filter@,
                                );
                            }
                            frame.data = filtered;
                            frame.metadata.privacy_filtered = true;
                            Ok(frame)
                        },
                        Err(_) => Err(CaptureError::PrivacyFilterFailed {
                            reason: "privacy filter rejected the frame".to_owned(),
                        }),
                    }
                },
                None => Err(CaptureError::PrivacyFilterFailed {
                    reason: "privacy filter unavailable".to_owned(),
                }),
            }
        } else {
            Ok(frame)
        }
    }
}

/// Pick capture settings suited to the hardware and quality preset.
pub fn calculate_optimal_settings(
    hardware_caps: &CaptureCapabilities,
    target_quality: QualityPreset,
) -> (c: CaptureConfig)
    ensures
        c.resolution == (match target_quality {
            QualityPreset::Maximum => Resolution::UHD4K,
            QualityPreset::Balanced => Resolution::FHD,
            QualityPreset::Performance => Resolution::HD,
            QualityPreset::Development => Resolution::HD,
        }),
        c.target_fps == (if target_quality == QualityPreset::Performance { 60int } else { 30 }),
        c.format == FrameFormat::RGBA8,
        c.enable_gpu_acceleration == hardware_caps.hardware_acceleration,
        c.enable_privacy_filter,
        c.monitor_selection is Primary,
        c.quality_preset == target_quality,
        spec_config_valid(c),
{
    let (resolution, target_fps): (Resolution, u32) = match target_quality {
        QualityPreset::Maximum => (Resolution::UHD4K, 30),
        QualityPreset::Balanced => (Resolution::FHD, 30),
        QualityPreset::Performance => (Resolution::HD, 60),
        QualityPreset::Development => (Resolution::HD, 30),
    };
    CaptureConfig {
        target_fps,
        resolution,
        format: FrameFormat::RGBA8,
        enable_gpu_acceleration: hardware_caps.hardware_acceleration,
        enable_privacy_filter: true,
        monitor_selection: MonitorSelection::Primary,
        quality_preset: target_quality,
    }
}

/// Check a report against the hard performance targets: at most five
/// percent CPU and at most two hundred MiB of memory.
pub fn validate_elite_performance(
    config: &CaptureConfig,
    report: &PerformanceReport,
) -> (r: CaptureResult<()>)
    ensures
        r is Ok <==> (report.estimated_cpu_centi_percent <= 500
            && report.estimated_memory_mb <= 200),
        report.estimated_cpu_centi_percent > 500 ==> (r matches Err(e)
            && e matches CaptureError::PerformanceTargetNotMet { actual_fps, target_fps }
            && actual_fps == report.estimated_fps && target_fps == config.target_fps),
        report.estimated_cpu_centi_percent <= 500 && report.estimated_memory_mb > 200
            ==> (r matches Err(e)
                && e matches CaptureError::MemoryLimitExceeded { current_mb, limit_mb }
                && current_mb == report.estimated_memory_mb && limit_mb == 200),
{
    if report.estimated_cpu_centi_percent > 500 {
        return Err(CaptureError::PerformanceTargetNotMet {
            actual_fps: report.estimated_fps,
            target_fps: config.target_fps,
        });
    }
    if report.estimated_memory_mb > 200 {
        return Err(CaptureError::MemoryLimitExceeded {
            current_mb: report.estimated_memory_mb,
            limit_mb: 200,
        });
    }
    Ok(())
}

} // verus!

