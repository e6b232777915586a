//! Configuration structures for the library's subsystems, with their
//! validation rules.

use vstd::prelude::*;

use crate::error::{AegntError, AegntResult};
use crate::utils::Validate;

verus! {

/// Mouse humanization configuration.
#[derive(Debug, Clone, PartialEq, Eq, Structural)]
pub struct MouseConfig {
    /// Whether mouse humanization runs.
    pub enabled: bool,
    /// Target authenticity score, per mille of 1.0.
    pub authenticity_target_milli: u32,
    /// Naturalness threshold, per mille of 1.0.
    pub naturalness_threshold_milli: u32,
    /// Detection resistance level, per mille of 1.0.
    pub detection_resistance_level_milli: u32,
    /// Movement intensity, per mille of 1.0.
    pub movement_intensity_milli: u32,
    /// Randomness factor, per mille of 1.0.
    pub randomness_factor_milli: u32,
}

impl Default for MouseConfig {
    /// Humanization on, with the standard targets.
    fn default() -> (c: Self)
        ensures
            c.enabled,
            c.authenticity_target_milli == 960,
            c.naturalness_threshold_milli == 930,
            c.detection_resistance_level_milli == 980,
            c.movement_intensity_milli == 700,
            c.randomness_factor_milli == 300,
    {
        MouseConfig {
            enabled: true,
            authenticity_target_milli: 960,
            naturalness_threshold_milli: 930,
            detection_resistance_level_milli: 980,
            movement_intensity_milli: 700,
            randomness_factor_milli: 300,
        }
    }
}

/// A mouse configuration is valid when its scores are proportions.
pub open spec fn spec_mouse_valid(c: MouseConfig) -> bool {
    &&& c.authenticity_target_milli <= 1000
    &&& c.naturalness_threshold_milli <= 1000
    &&& c.detection_resistance_level_milli <= 1000
}

impl MouseConfig {
    /// Check the score ranges.
    pub fn check(&self) -> (r: AegntResult<()>)
        ensures
            r is Ok <==> spec_mouse_valid(*self),
            r matches Err(e) ==> e is Validation,
    {
        if self.authenticity_target_milli > 1000 {
            return Err(AegntError::validation("mouse authenticity target must be at most one"));
        }
        if self.naturalness_threshold_milli > 1000 {
            return Err(AegntError::validation("mouse naturalness threshold must be at most one"));
        }
        if self.detection_resistance_level_milli > 1000 {
            return Err(AegntError::validation(
                "mouse detection resistance level must be at most one"));
        }
        Ok(())
    }
}

impl Validate for MouseConfig {
    type Error = AegntError;

    fn validate(&self) -> Result<(), AegntError> {
        self.check()
    }
}

/// Typing humanization configuration.
#[derive(Debug, Clone, PartialEq, Eq, Structural)]
pub struct TypingConfig {
    /// Whether typing humanization runs.
    pub enabled: bool,
    /// Target authenticity score, per mille of 1.0.
    pub authenticity_target_milli: u32,
    /// Typo injection rate, per mille of 1.0.
    pub typo_injection_rate_milli: u32,
    /// Base typing speed, words per minute.
    pub base_typing_speed_wpm: u32,
}

impl Default for TypingConfig {
    /// Humanization on, sixty-five words per minute.
    fn default() -> (c: Self)
        ensures
            c.enabled,
            c.authenticity_target_milli == 940,
            c.typo_injection_rate_milli == 20,
            c.base_typing_speed_wpm == 65,
    {
        TypingConfig {
            enabled: true,
            authenticity_target_milli: 940,
            typo_injection_rate_milli: 20,
            base_typing_speed_wpm: 65,
        }
    }
}

/// A typing configuration is valid when the typo rate is a proportion
/// and the speed is positive.
pub open spec fn spec_typing_valid(c: TypingConfig) -> bool {
    &&& c.typo_injection_rate_milli <= 1000
    &&& c.base_typing_speed_wpm >= 1
}

impl TypingConfig {
    /// Check the ranges.
    pub fn check(&self) -> (r: AegntResult<()>)
        ensures
            r is Ok <==> spec_typing_valid(*self),
            r matches Err(e) ==> e is Validation,
    {
        if self.typo_injection_rate_milli > 1000 {
            return Err(AegntError::validation("typo injection rate must be at most one"));
        }
        if self.base_typing_speed_wpm < 1 {
            return Err(AegntError::validation("base typing speed must be positive"));
        }
        Ok(())
    }
}

impl Validate for TypingConfig {
    type Error = AegntError;

    fn validate(&self) -> Result<(), AegntError> {
        self.check()
    }
}

/// Audio humanization configuration.
#[derive(Debug, Clone, PartialEq, Eq, Structural)]
pub struct AudioConfig {
    /// Whether audio humanization runs.
    pub enabled: bool,
    /// Target authenticity score, per mille of 1.0.
    pub authenticity_target_milli: u32,
    /// Breathing frequency, breaths per minute.
    pub breathing_frequency_bpm: u32,
    /// Background noise level, per mille of 1.0.
    pub background_noise_level_milli: u32,
}

impl Default for AudioConfig {
    /// Humanization on, sixteen breaths per minute.
    fn default() -> (c: Self)
        ensures
            c.enabled,
            c.authenticity_target_milli == 950,
            c.breathing_frequency_bpm == 16,
            c.background_noise_level_milli == 100,
    {
        AudioConfig {
            enabled: true,
            authenticity_target_milli: 950,
            breathing_frequency_bpm: 16,
            background_noise_level_milli: 100,
        }
    }
}

/// An audio configuration is valid when the breathing frequency is
/// positive and the noise level a proportion.
pub open spec fn spec_audio_valid(c: AudioConfig) -> bool {
    &&& c.breathing_frequency_bpm >= 1
    &&& c.background_noise_level_milli <= 1000
}

impl AudioConfig {
    /// Check the ranges.
    pub fn check(&self) -> (r: AegntResult<()>)
        ensures
            r is Ok <==> spec_audio_valid(*self),
            r matches Err(e) ==> e is Validation,
    {
        if self.breathing_frequency_bpm < 1 {
            return Err(AegntError::validation("breathing frequency must be positive"));
        }
        if self.background_noise_level_milli > 1000 {
            return Err(AegntError::validation("background noise level must be at most one"));
        }
        Ok(())
    }
}

impl Validate for AudioConfig {
    type Error = AegntError;

    fn validate(&self) -> Result<(), AegntError> {
        self.check()
    }
}

/// Visual enhancement configuration.
#[derive(Debug, Clone, PartialEq, Eq, Structural)]
pub struct VisualConfig {
    /// Whether visual enhancement runs.
    pub enabled: bool,
    /// Target authenticity score, per mille of 1.0.
    pub authenticity_target_milli: u32,
    /// Gaze pattern intensity, per mille of 1.0.
    pub gaze_intensity_milli: u32,
    /// Blink frequency, blinks per minute.
    pub blink_frequency_bpm: u32,
}

impl Default for VisualConfig {
    /// Enhancement on, seventeen blinks per minute.
    fn default() -> (c: Self)
        ensures
            c.enabled,
            c.authenticity_target_milli == 930,
            c.gaze_intensity_milli == 600,
            c.blink_frequency_bpm == 17,
    {
        VisualConfig {
            enabled: true,
            authenticity_target_milli: 930,
            gaze_intensity_milli: 600,
            blink_frequency_bpm: 17,
        }
    }
}

/// A visual configuration is valid when the blink frequency is
/// positive and the gaze intensity a proportion.
pub open spec fn spec_visual_valid(c: VisualConfig) -> bool {
    &&& c.blink_frequency_bpm >= 1
    &&& c.gaze_intensity_milli <= 1000
}

impl VisualConfig {
    /// Check the ranges.
    pub fn check(&self) -> (r: AegntResult<()>)
        ensures
            r is Ok <==> spec_visual_valid(*self),
            r matches Err(e) ==> e is Validation,
    {
        if self.blink_frequency_bpm < 1 {
            return Err(AegntError::validation("blink frequency must be positive"));
        }
        if self.gaze_intensity_milli > 1000 {
            return Err(AegntError::validation("gaze intensity must be at most one"));
        }
        Ok(())
    }
}

impl Validate for VisualConfig {
    type Error = AegntError;

    fn validate(&self) -> Result<(), AegntError> {
        self.check()
    }
}

/// Detection validation configuration.
#[derive(Debug, Clone, PartialEq, Eq, Structural)]
pub struct DetectionConfig {
    /// Whether detection validation runs.
    pub enabled: bool,
    /// Target resistance score, per mille of 1.0.
    pub resistance_target_milli: u32,
    /// Testing timeout, seconds.
    pub testing_timeout_seconds: u32,
    /// Largest number of concurrent tests.
    pub max_concurrent_tests: usize,
}

impl Default for DetectionConfig {
    /// Validation on, half-minute timeout, four concurrent tests.
    fn default() -> (c: Self)
        ensures
            c.enabled,
            c.resistance_target_milli == 980,
            c.testing_timeout_seconds == 30,
            c.max_concurrent_tests == 4,
    {
        DetectionConfig {
            enabled: true,
            resistance_target_milli: 980,
            testing_timeout_seconds: 30,
            max_concurrent_tests: 4,
        }
    }
}

/// A detection configuration is valid when timeout and concurrency are
/// positive.
pub open spec fn spec_detection_valid(c: DetectionConfig) -> bool {
    &&& c.testing_timeout_seconds >= 1
    &&& c.max_concurrent_tests >= 1
}

impl DetectionConfig {
    /// Check the ranges.
    pub fn check(&self) -> (r: AegntResult<()>)
        ensures
            r is Ok <==> spec_detection_valid(*self),
            r matches Err(e) ==> e is Validation,
    {
        if self.testing_timeout_seconds < 1 {
            return Err(AegntError::validation("testing timeout must be positive"));
        }
        if self.max_concurrent_tests < 1 {
            return Err(AegntError::validation("concurrent tests must be positive"));
        }
        Ok(())
    }
}

impl Validate for DetectionConfig {
    type Error = AegntError;

    fn validate(&self) -> Result<(), AegntError> {
        self.check()
    }
}

/// Log verbosity levels the logging configuration accepts.
#[derive(Debug, Clone, Copy, PartialEq, Eq, Structural)]
pub enum LogLevel {
    Trace,
    Debug,
    Info,
    Warn,
    Error,
}

/// Logging configuration.
#[derive(Debug, Clone, PartialEq, Eq, Structural)]
pub struct LoggingConfig {
    /// Whether logging runs.
    pub enabled: bool,
    /// Verbosity level.
    pub level: LogLevel,
    /// Whether logs also go to a file.
    pub file_logging_enabled: bool,
    /// Largest log file size, MiB.
    pub max_file_size_mb: u64,
    /// Number of rotated files kept.
    pub max_files: u32,
    /// Whether logs go to the console.
    pub console_logging_enabled: bool,
    /// Whether log records are structured.
    pub structured_logging: bool,
}

impl Default for LoggingConfig {
    /// Console logging at the informational level.
    fn default() -> (c: Self)
        ensures
            c.enabled,
            c.level == LogLevel::Info,
            !c.file_logging_enabled,
            c.max_file_size_mb == 10,
            c.max_files == 5,
            c.console_logging_enabled,
            !c.structured_logging,
    {
        LoggingConfig {
            enabled: true,
            level: LogLevel::Info,
            file_logging_enabled: false,
            max_file_size_mb: 10,
            max_files: 5,
            console_logging_enabled: true,
            structured_logging: false,
        }
    }
}

impl LoggingConfig {
    /// A logging configuration is always within range: the level is a
    /// closed enumeration.
    pub fn check(&self) -> (r: AegntResult<()>)
        ensures
            r is Ok,
    {
        Ok(())
    }
}

impl Validate for LoggingConfig {
    type Error = AegntError;

    fn validate(&self) -> Result<(), AegntError> {
        self.check()
    }
}

/// Performance configuration.
#[derive(Debug, Clone, PartialEq, Eq, Structural)]
pub struct PerformanceConfig {
    /// Largest memory use, MiB.
    pub max_memory_mb: u64,
    /// Largest CPU use, hundredths of a percent.
    pub max_cpu_centi_percent: u32,
    /// Whether work may run in parallel.
    pub parallel_processing_enabled: bool,
    /// Worker threads, when pinned.
    pub worker_threads: Option<usize>,
    /// Whether caching runs.
    pub caching_enabled: bool,
    /// Cache size, MiB.
    pub cache_size_mb: u64,
    /// Whether the GPU may be used.
    pub gpu_acceleration_enabled: bool,
    /// Whether monitoring runs.
    pub monitoring_enabled: bool,
    /// Metrics collection interval, seconds.
    pub metrics_interval_seconds: u32,
}

impl Default for PerformanceConfig {
    /// Half a GiB of memory and half the CPU.
    fn default() -> (c: Self)
        ensures
            c.max_memory_mb == 512,
            c.max_cpu_centi_percent == 5000,
            c.parallel_processing_enabled,
            c.worker_threads is None,
            c.caching_enabled,
            c.cache_size_mb == 64,
            !c.gpu_acceleration_enabled,
            c.monitoring_enabled,
            c.metrics_interval_seconds == 60,
    {
        PerformanceConfig {
            max_memory_mb: 512,
            max_cpu_centi_percent: 5000,
            parallel_processing_enabled: true,
            worker_threads: None,
            caching_enabled: true,
            cache_size_mb: 64,
            gpu_acceleration_enabled: false,
            monitoring_enabled: true,
            metrics_interval_seconds: 60,
        }
    }
}

/// A performance configuration is valid when the memory budget is
/// positive and the CPU budget within one hundred percent.
pub open spec fn spec_performance_valid(c: PerformanceConfig) -> bool {
    &&& c.max_memory_mb >= 1
    &&& 1 <= c.max_cpu_centi_percent <= 10000
}

impl PerformanceConfig {
    /// Check the ranges.
    pub fn check(&self) -> (r: AegntResult<()>)
        ensures
            r is Ok <==> spec_performance_valid(*self),
            r matches Err(e) ==> e is Validation,
    {
        if self.max_memory_mb < 1 {
            return Err(AegntError::validation("memory budget must be positive"));
        }
        if self.max_cpu_centi_percent < 1 || self.max_cpu_centi_percent > 10000 {
            return Err(AegntError::validation(
                "CPU budget must be between zero and one hundred percent"));
        }
        Ok(())
    }
}

impl Validate for PerformanceConfig {
    type Error = AegntError;

    fn validate(&self) -> Result<(), AegntError> {
        self.check()
    }
}

/// Privacy policy configuration.
#[derive(Debug, Clone, PartialEq, Eq, Structural)]
pub struct PrivacyConfig {
    /// Whether privacy protection runs.
    pub enabled: bool,
    /// Whether processing stays local.
    pub local_only: bool,
    /// Whether stored data is encrypted.
    pub encryption_enabled: bool,
    /// Whether sensitive memory is cleared.
    pub secure_memory_clearing: bool,
    /// Whether an audit log is kept.
    pub audit_logging_enabled: bool,
    /// Data retention, days.
    pub data_retention_days: u32,
    /// Whether data is anonymized.
    pub anonymization_enabled: bool,
    /// Whether consent management runs.
    pub consent_management_enabled: bool,
}

impl Default for PrivacyConfig {
    /// Local-only processing, a month of retention.
    fn default() -> (c: Self)
        ensures
            c.enabled && c.local_only && c.encryption_enabled,
            c.secure_memory_clearing && !c.audit_logging_enabled,
            c.data_retention_days == 30,
            c.anonymization_enabled && c.consent_management_enabled,
    {
        PrivacyConfig {
            enabled: true,
            local_only: true,
            encryption_enabled: true,
            secure_memory_clearing: true,
            audit_logging_enabled: false,
            data_retention_days: 30,
            anonymization_enabled: true,
            consent_management_enabled: true,
        }
    }
}

/// A privacy configuration is valid when retention is positive.
pub open spec fn spec_privacy_valid(c: PrivacyConfig) -> bool {
    c.data_retention_days >= 1
}

impl PrivacyConfig {
    /// Check the ranges.
    pub fn check(&self) -> (r: AegntResult<()>)
        ensures
            r is Ok <==> spec_privacy_valid(*self),
            r matches Err(e) ==> e is Validation,
    {
        if self.data_retention_days < 1 {
            return Err(AegntError::validation("data retention must be positive"));
        }
        Ok(())
    }
}

impl Validate for PrivacyConfig {
    type Error = AegntError;

    fn validate(&self) -> Result<(), AegntError> {
        self.check()
    }
}

/// The whole library configuration.
#[derive(Debug, Clone, PartialEq, Eq, Structural)]
pub struct AegntConfig {
    /// Mouse humanization.
    pub mouse: MouseConfig,
    /// Typing humanization.
    pub typing: TypingConfig,
    /// Audio humanization.
    pub audio: AudioConfig,
    /// Visual enhancement.
    pub visual: VisualConfig,
    /// Detection validation.
    pub detection: DetectionConfig,
    /// Logging.
    pub logging: LoggingConfig,
    /// Performance budgets.
    pub performance: PerformanceConfig,
    /// Privacy policy.
    pub privacy: PrivacyConfig,
}

impl Default for AegntConfig {
    /// Every subsystem at its default.
    fn default() -> (c: Self)
        ensures
            spec_aegnt_valid(c),
    {
        AegntConfig {
            mouse: MouseConfig::default(),
            typing: TypingConfig::default(),
            audio: AudioConfig::default(),
            visual: VisualConfig::default(),
            detection: DetectionConfig::default(),
            logging: LoggingConfig::default(),
            performance: PerformanceConfig::default(),
            privacy: PrivacyConfig::default(),
        }
    }
}

/// A whole configuration is valid when every part is.
pub open spec fn spec_aegnt_valid(c: AegntConfig) -> bool {
    &&& spec_mouse_valid(c.mouse)
    &&& spec_typing_valid(c.typing)
    &&& spec_audio_valid(c.audio)
    &&& spec_visual_valid(c.visual)
    &&& spec_detection_valid(c.detection)
    &&& spec_performance_valid(c.performance)
    &&& spec_privacy_valid(c.privacy)
}

impl AegntConfig {
    /// Check every part.
    pub fn check(&self) -> (r: AegntResult<()>)
        ensures
            r is Ok <==> spec_aegnt_valid(*self),
            r matches Err(e) ==> e is Validation,
    {
        self.mouse.check()?;
        self.typing.check()?;
        self.audio.check()?;
        self.visual.check()?;
        self.detection.check()?;
        self.logging.check()?;
        self.performance.check()?;
        self.privacy.check()?;
        Ok(())
    }
}

impl Validate for AegntConfig {
    type Error = AegntError;

    fn validate(&self) -> Result<(), AegntError> {
        self.check()
    }
}

/// Configuration management.  Reading and writing configuration files
/// is the application shell's job; the library owns the in-memory
/// form and its defaults.
pub struct ConfigManager;

impl ConfigManager {
    /// The configuration used when nothing overrides it.
    pub fn load_defaults() -> (r: AegntResult<AegntConfig>)
        ensures
            r matches Ok(c) && spec_aegnt_valid(c),
    {
        Ok(AegntConfig::default())
    }
}

} // verus!
