//! Capture controller: owns the platform engine and the running
//! session, gates configuration on the performance targets, and
//! exposes the frame-pull API to the application shell.

use vstd::prelude::*;

use crate::capture::{
    spec_config_equiv, spec_config_valid, spec_cpu_centi, spec_memory_mb, CaptureConfig,
    CaptureEngine, CaptureEngineFactory, CaptureError, CaptureResult, CaptureSession,
    PerformanceReport,
};
use crate::frame::{spec_resolution_dims, CaptureFrame, FrameFormat};

verus! {

/// Hard performance targets a configuration must meet before capture
/// is allowed to start.
#[derive(Debug, Clone, Copy, PartialEq, Eq, Structural)]
pub struct PerformanceTargets {
    /// Largest allowed CPU use, hundredths of a percent.
    pub max_cpu_centi_percent: u32,
    /// Largest allowed memory use, MiB.
    pub max_memory_mb: u64,
    /// Frame rate the session must reach.
    pub target_fps: u32,
    /// Largest allowed capture latency, milliseconds.
    pub max_capture_latency_ms: u64,
}

impl Default for PerformanceTargets {
    /// Five percent CPU, two hundred MiB, thirty frames per second,
    /// one frame interval of latency.
    fn default() -> (t: Self)
        ensures
            t.max_cpu_centi_percent == 500,
            t.max_memory_mb == 200,
            t.target_fps == 30,
            t.max_capture_latency_ms == 33,
    {
        PerformanceTargets {
            max_cpu_centi_percent: 500,
            max_memory_mb: 200,
            target_fps: 30,
            max_capture_latency_ms: 33,
        }
    }
}

/// Events of the capture system as a whole.
#[derive(Debug, Clone)]
pub enum SystemEvent {
    /// The capture system finished initializing.
    CaptureSystemInitialized,
    /// The capture system hit an error.
    CaptureSystemError(String),
    /// A performance budget was crossed.
    PerformanceAlert(String),
}

/// The platform names the engine factory recognizes.
pub open spec fn spec_known_platform(platform: Seq<char>) -> bool {
    ||| platform == "windows"@
    ||| platform == "macos"@
    ||| platform == "linux"@
}

/// The CPU budget of the backend a platform name selects, in pixels
/// per second per percent of CPU.
pub open spec fn spec_platform_divisor(platform: Seq<char>, gpu: bool) -> int {
    if platform == "windows"@ {
        if gpu { 500000000 } else { 50000000 }
    } else if platform == "macos"@ {
        if gpu { 400000000 } else { 80000000 }
    } else {
        if gpu { 300000000 } else { 60000000 }
    }
}

/// Whether initialization succeeds: the platform is recognized, the
/// configuration is one a backend can serve, and the backend's
/// estimates fit the targets.
pub open spec fn spec_initialize_admits(
    platform: Seq<char>,
    config: CaptureConfig,
    targets: PerformanceTargets,
) -> bool {
    let dims = spec_resolution_dims(config.resolution);
    &&& spec_known_platform(platform)
    &&& spec_config_valid(config)
    &&& spec_cpu_centi(dims.0, dims.1, config.target_fps,
        spec_platform_divisor(platform, config.enable_gpu_acceleration))
        <= targets.max_cpu_centi_percent
    &&& spec_memory_mb(dims.0, dims.1) <= targets.max_memory_mb
    &&& config.target_fps >= targets.target_fps
}

/// Controller over one platform engine and its running session.
pub struct CaptureController {
    engine: Option<CaptureEngine>,
    session: Option<CaptureSession>,
}

impl CaptureController {
    /// Whether a session is running.
    pub closed spec fn spec_has_session(&self) -> bool {
        self.session is Some
    }

    /// The running session, when one exists.
    pub closed spec fn spec_session(&self) -> Option<CaptureSession> {
        self.session
    }

    /// Whether no engine has been created yet.
    pub closed spec fn engine_missing(&self) -> bool {
        self.engine is None
    }

    /// The controller invariant: a running session is well formed.
    pub closed spec fn wf(&self) -> bool {
        self.session matches Some(s) ==> s.wf()
    }

    /// A fresh controller: no engine, no session.
    pub fn new() -> (c: Self)
        ensures
            !c.spec_has_session(),
            c.engine_missing(),
            c.wf(),
    {
        CaptureController { engine: None, session: None }
    }

    /// Check an engine's report against the hard targets: estimated
    /// CPU, memory and frame rate must all be within budget; the error
    /// names the violated target and both figures.
    pub fn validate_performance_targets(
        &self,
        report: &PerformanceReport,
        targets: &PerformanceTargets,
    ) -> (r: CaptureResult<()>)
        ensures
            r is Ok <==> {
                &&& report.estimated_cpu_centi_percent <= targets.max_cpu_centi_percent
                &&& report.estimated_memory_mb <= targets.max_memory_mb
                &&& report.estimated_fps >= targets.target_fps
            },
            report.estimated_cpu_centi_percent > targets.max_cpu_centi_percent
                ==> (r matches Err(e)
                    && e matches CaptureError::PerformanceTargetNotMet { actual_fps, target_fps }
                    && actual_fps == report.estimated_fps && target_fps == targets.target_fps),
            report.estimated_cpu_centi_percent <= targets.max_cpu_centi_percent
                && report.estimated_memory_mb > targets.max_memory_mb
                ==> (r matches Err(e)
                    && e matches CaptureError::MemoryLimitExceeded { current_mb, limit_mb }
                    && current_mb == report.estimated_memory_mb
                    && limit_mb == targets.max_memory_mb),
            report.estimated_cpu_centi_percent <= targets.max_cpu_centi_percent
                && report.estimated_memory_mb <= targets.max_memory_mb
                && report.estimated_fps < targets.target_fps
                ==> (r matches Err(e)
                    && e matches CaptureError::PerformanceTargetNotMet { actual_fps, target_fps }
                    && actual_fps == report.estimated_fps && target_fps == targets.target_fps),
    {
        if report.estimated_cpu_centi_percent > targets.max_cpu_centi_percent {
            return Err(CaptureError::PerformanceTargetNotMet {
                actual_fps: report.estimated_fps,
                target_fps: targets.target_fps,
            });
        }
        if report.estimated_memory_mb > targets.max_memory_mb {
            return Err(CaptureError::MemoryLimitExceeded {
                current_mb: report.estimated_memory_mb,
                limit_mb: targets.max_memory_mb,
            });
        }
        if report.estimated_fps < targets.target_fps {
            return Err(CaptureError::PerformanceTargetNotMet {
                actual_fps: report.estimated_fps,
                target_fps: targets.target_fps,
            });
        }
        Ok(())
    }

    /// Initialize the capture system for a platform: create the
    /// engine, validate the configuration against the targets, and
    /// start the session.  Validation failures propagate before any
    /// resources are committed; success is owed exactly when the
    /// platform is recognized, the configuration is serviceable, and
    /// the backend's estimates fit the targets.
    pub fn initialize(
        &mut self,
        platform: &str,
        config: CaptureConfig,
        targets: &PerformanceTargets,
    ) -> (r: CaptureResult<()>)
        ensures
            final(self).wf(),
            r is Ok <==> spec_initialize_admits(platform@, config, *targets),
            r is Ok ==> (final(self).spec_session() matches Some(s)
                && spec_config_equiv(config, s.spec_config())
                && !final(self).engine_missing()),
            r is Err ==> !final(self).spec_has_session(),
    {
        self.session = None;
        let mut engine = match CaptureEngineFactory::create_engine(platform) {
            Ok(e) => e,
            Err(e) => {
                return Err(e);
            },
        };
        proof {
            assert(crate::capture::spec_engine_divisor(engine, config.enable_gpu_acceleration)
                == spec_platform_divisor(platform@, config.enable_gpu_acceleration));
        }
        let report = match engine.validate_performance(&config) {
            Ok(rep) => rep,
            Err(e) => {
                return Err(e);
            },
        };
        match self.validate_performance_targets(&report, targets) {
            Ok(()) => {},
            Err(e) => {
                return Err(e);
            },
        }
        match engine.initialize(config) {
            Ok(()) => {},
            Err(e) => {
                return Err(e);
            },
        }
        let session = match engine.start_capture_session() {
            Ok(s) => s,
            Err(e) => {
                return Err(e);
            },
        };
        self.engine = Some(engine);
        self.session = Some(session);
        Ok(())
    }

    /// Pull one frame from the running session.  Without a session
    /// there is nothing to pull and no error either; with a session
    /// the result is the session capture's frame or its error, never
    /// an empty success.
    pub fn capture_frame(&mut self) -> (r: CaptureResult<Option<CaptureFrame>>)
        requires
            old(self).wf(),
        ensures
            final(self).wf(),
            final(self).spec_has_session() == old(self).spec_has_session(),
            !old(self).spec_has_session() ==> r == CaptureResult::<Option<CaptureFrame>>::Ok(
                Option::<CaptureFrame>::None),
            old(self).spec_has_session() ==> (old(self).spec_session() matches Some(s) && {
                let c = s.spec_config();
                let dims = spec_resolution_dims(c.resolution);
                &&& (r is Ok <==> spec_config_valid(c) && (c.enable_privacy_filter ==> (
                        s.spec_filter() is Some
                        && (c.format == FrameFormat::RGBA8 || c.format == FrameFormat::BGRA8))))
                &&& (r matches Ok(o) ==> o is Some)
                &&& (r matches Ok(Some(f)) ==> {
                    &&& f.width == dims.0
                    &&& f.height == dims.1
                    &&& f.format == c.format
                    &&& f.wf()
                    &&& f.metadata.privacy_filtered == c.enable_privacy_filter
                })
                &&& (spec_config_valid(c) && r is Err ==> (r matches Err(e)
                    && e is PrivacyFilterFailed))
                &&& (final(self).spec_session() matches Some(s2)
                    && s2.spec_config() == c && s2.spec_filter() == s.spec_filter())
            }),
    {
        match &mut self.session {
            Some(session) => {
                match session.capture_frame() {
                    Ok(f) => Ok(Some(f)),
                    Err(e) => Err(e),
                }
            },
            None => Ok(None),
        }
    }

    /// Whether a session is running.
    pub fn is_capturing(&self) -> (r: bool)
        ensures
            r == self.spec_has_session(),
    {
        self.session.is_some()
    }

    /// Stop capturing.  The session is dropped at once, so no new
    /// capture calls can be issued after this returns.
    pub fn stop_capture(&mut self) -> (r: CaptureResult<()>)
        ensures
            final(self).wf(),
            !final(self).spec_has_session(),
            r is Ok,
    {
        self.session = None;
        Ok(())
    }

    /// The monitors the engine reports: at least a primary display
    /// once an engine exists, and an internal error before that.
    pub fn get_available_monitors(&self) -> (r: CaptureResult<Vec<crate::capture::MonitorInfo>>)
        ensures
            self.engine_missing() ==> (r matches Err(e) && e is Internal),
            !self.engine_missing() ==> (r matches Ok(ms) && ms@.len() >= 1 && ms@[0].is_primary),
    {
        match &self.engine {
            Some(engine) => engine.get_monitors(),
            None => Err(CaptureError::Internal { message: "no capture engine".to_owned() }),
        }
    }
}

} // verus!
