//! Application-level settings: what the settings surface hands the
//! capture core.  Loading and saving the settings file is the
//! application shell's job.

use vstd::prelude::*;

verus! {

/// Screen capture settings.
#[derive(Debug, Clone)]
pub struct CaptureSettings {
    /// Quality label.
    pub quality: String,
    /// Frames per second.
    pub fps: u32,
    /// Whether audio is captured.
    pub audio_enabled: bool,
    /// Whether capture starts automatically.
    pub auto_start: bool,
    /// Hotkey binding.
    pub hotkey: String,
}

/// AI processing settings.
#[derive(Debug, Clone)]
pub struct AISettings {
    /// Preferred model name.
    pub preferred_model: String,
    /// Fallback model names, in order.
    pub fallback_models: Vec<String>,
    /// Whether narration runs.
    pub narration_enabled: bool,
    /// Whether the test audience runs.
    pub test_audience_enabled: bool,
    /// Whether personal brand learning runs.
    pub personal_brand_learning: bool,
}

/// Video output settings.
#[derive(Debug, Clone)]
pub struct VideoSettings {
    /// Output container format.
    pub output_format: String,
    /// Output resolution label.
    pub resolution: String,
    /// Quality label.
    pub quality: String,
    /// Compression codec label.
    pub compression: String,
}

/// Privacy settings.
#[derive(Debug, Clone, PartialEq, Eq, Structural)]
pub struct PrivacySettings {
    /// Whether sensitive content detection runs.
    pub sensitive_content_detection: bool,
    /// Whether redaction blurring runs.
    pub blur_enabled: bool,
    /// Whether stored captures are encrypted.
    pub encryption_enabled: bool,
    /// Whether processing stays local.
    pub local_processing_only: bool,
}

/// Performance settings.
#[derive(Debug, Clone, PartialEq, Eq, Structural)]
pub struct PerformanceSettings {
    /// Largest CPU use, hundredths of a percent.
    pub max_cpu_centi_percent: u32,
    /// Largest memory use, bytes.
    pub max_memory_usage: u64,
    /// Whether the GPU may be used.
    pub gpu_acceleration: bool,
    /// Whether encoding may run in hardware.
    pub hardware_encoding: bool,
}

/// The whole application configuration.
#[derive(Debug, Clone)]
pub struct AppConfig {
    /// Screen capture settings.
    pub capture: CaptureSettings,
    /// AI processing settings.
    pub ai: AISettings,
    /// Video output settings.
    pub video: VideoSettings,
    /// Privacy settings.
    pub privacy: PrivacySettings,
    /// Performance settings.
    pub performance: PerformanceSettings,
}

impl Default for AppConfig {
    /// High quality thirty frames per second, privacy protection on,
    /// and an eighty percent CPU ceiling.
    fn default() -> (c: Self)
        ensures
            c.capture.fps == 30,
            c.capture.audio_enabled,
            !c.capture.auto_start,
            c.capture.quality@ == "high"@,
            c.ai.narration_enabled && c.ai.test_audience_enabled && c.ai.personal_brand_learning,
            c.privacy.sensitive_content_detection && c.privacy.blur_enabled,
            c.privacy.encryption_enabled && c.privacy.local_processing_only,
            c.performance.max_cpu_centi_percent == 8000,
            c.performance.max_memory_usage == 2147483648,
            c.performance.gpu_acceleration && c.performance.hardware_encoding,
    {
        let mut fallback_models: Vec<String> = Vec::new();
        fallback_models.push("gemma-3".to_owned());
        AppConfig {
            capture: CaptureSettings {
                quality: "high".to_owned(),
                fps: 30,
                audio_enabled: true,
                auto_start: false,
                hotkey: "Ctrl+Shift+R".to_owned(),
            },
            ai: AISettings {
                preferred_model: "deepseek-r1".to_owned(),
                fallback_models,
                narration_enabled: true,
                test_audience_enabled: true,
                personal_brand_learning: true,
            },
            video: VideoSettings {
                output_format: "mp4".to_owned(),
                resolution: "1920x1080".to_owned(),
                quality: "high".to_owned(),
                compression: "h264".to_owned(),
            },
            privacy: PrivacySettings {
                sensitive_content_detection: true,
                blur_enabled: true,
                encryption_enabled: true,
                local_processing_only: true,
            },
            performance: PerformanceSettings {
                max_cpu_centi_percent: 8000,
                max_memory_usage: 2147483648,
                gpu_acceleration: true,
                hardware_encoding: true,
            },
        }
    }
}

} // verus!
