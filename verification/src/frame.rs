//! Frame model: pixel formats, resolutions, captured frames and the
//! buffer-size invariant that ties them together.

use vstd::prelude::*;

verus! {

/// Pixel layout of a captured frame.
#[derive(Debug, Clone, Copy, PartialEq, Eq, Structural)]
pub enum FrameFormat {
    RGBA8,
    BGRA8,
    RGB8,
    YUV420P,
    NV12,
}

/// Capture resolution: a standard preset or explicit dimensions.
#[derive(Debug, Clone, Copy, PartialEq, Eq, Structural)]
pub enum Resolution {
    UHD4K,
    QHD,
    FHD,
    HD,
    Custom { width: u32, height: u32 },
}

/// Bytes per pixel of a format, scaled by two so that the planar
/// formats (one and a half bytes per pixel) stay integral.
pub open spec fn twice_bytes_per_pixel(format: FrameFormat) -> int {
    match format {
        FrameFormat::RGBA8 => 8,
        FrameFormat::BGRA8 => 8,
        FrameFormat::RGB8 => 6,
        FrameFormat::YUV420P => 3,
        FrameFormat::NV12 => 3,
    }
}

/// Exact byte length of a frame buffer of the given format and dimensions.
pub open spec fn frame_byte_len(format: FrameFormat, width: u32, height: u32) -> int {
    width * height * twice_bytes_per_pixel(format) / 2
}

/// Width and height of a resolution.
pub open spec fn spec_resolution_dims(r: Resolution) -> (u32, u32) {
    match r {
        Resolution::UHD4K => (3840u32, 2160u32),
        Resolution::QHD => (2560u32, 1440u32),
        Resolution::FHD => (1920u32, 1080u32),
        Resolution::HD => (1280u32, 720u32),
        Resolution::Custom { width, height } => (width, height),
    }
}

/// Largest width and height any backend supports.
pub const MAX_DIMENSION_WIDTH: u32 = 7680;
/// Largest height any backend supports.
pub const MAX_DIMENSION_HEIGHT: u32 = 4320;

/// Dimensions a backend can actually produce: non-empty and within the
/// largest supported resolution, so every byte offset fits in `usize`.
pub open spec fn spec_valid_dims(width: u32, height: u32) -> bool {
    &&& 1 <= width <= MAX_DIMENSION_WIDTH
    &&& 1 <= height <= MAX_DIMENSION_HEIGHT
}

/// Resolve a resolution to concrete dimensions.
pub fn resolution_dims(r: &Resolution) -> (dims: (u32, u32))
    ensures
        dims == spec_resolution_dims(*r),
{
    match r {
        Resolution::UHD4K => (3840, 2160),
        Resolution::QHD => (2560, 1440),
        Resolution::FHD => (1920, 1080),
        Resolution::HD => (1280, 720),
        Resolution::Custom { width, height } => (*width, *height),
    }
}

/// Check that dimensions are within what a backend can produce.
pub fn dims_are_valid(width: u32, height: u32) -> (ok: bool)
    ensures
        ok == spec_valid_dims(width, height),
{
    1 <= width && width <= 7680 && 1 <= height && height <= 4320
}

/// Per-frame bookkeeping carried along the pipeline.
#[derive(Debug, Clone, PartialEq, Eq, Structural)]
pub struct FrameMetadata {
    /// Milliseconds spent acquiring the frame from the backend.
    pub capture_latency_ms: u64,
    /// Milliseconds spent in post-capture processing.
    pub processing_time_ms: u64,
    /// Whether the backend used hardware acceleration.
    pub gpu_accelerated: bool,
    /// Whether the privacy filter has run over the buffer.
    pub privacy_filtered: bool,
    /// Compression ratio in per mille, if the frame was compressed.
    pub compression_ratio_milli: Option<u32>,
    /// Quality score in per mille of 1.0.
    pub quality_score_milli: u32,
}

/// One captured image together with its provenance.
#[derive(Debug, Clone)]
pub struct CaptureFrame {
    /// Identifier of this frame.
    pub id: u128,
    /// Capture timestamp, monotonic milliseconds.
    pub timestamp: u64,
    /// Width in pixels.
    pub width: u32,
    /// Height in pixels.
    pub height: u32,
    /// Pixel layout of `data`.
    pub format: FrameFormat,
    /// The pixel buffer.
    pub data: Vec<u8>,
    /// The monitor the frame came from, when known.
    pub monitor_id: Option<u64>,
    /// Capture bookkeeping.
    pub metadata: FrameMetadata,
}

impl CaptureFrame {
    /// The frame invariant: the buffer length matches the declared
    /// format and dimensions, which are within backend limits.
    pub open spec fn wf(&self) -> bool {
        &&& spec_valid_dims(self.width, self.height)
        &&& self.data@.len() == frame_byte_len(self.format, self.width, self.height)
    }
}

/// Drop the alpha channel of a tightly packed four-byte-per-pixel buffer.
fn drop_alpha_channel(data: &Vec<u8>) -> (out: Vec<u8>)
    requires
        data@.len() % 4 == 0,
    ensures
        out@.len() == data@.len() / 4 * 3,
        forall|i: int| 0 <= i < out@.len() ==> out@[i] == data@[i / 3 * 4 + i % 3],
{
    let n: usize = data.len();
    let target: usize = n / 4 * 3;
    let mut out: Vec<u8> = Vec::new();
    let mut j: usize = 0;
    while j < target
        invariant
            n == data@.len(),
            target == n / 4 * 3,
            n % 4 == 0,
            0 <= j <= target,
            out@.len() == j,
            forall|i: int| 0 <= i < j ==> out@[i] == data@[i / 3 * 4 + i % 3],
        decreases target - j,
    {
        proof {
            assert(j / 3 * 4 + j % 3 < n) by (nonlinear_arith)
                requires j < target, target == n / 4 * 3, n % 4 == 0;
        }
        out.push(data[j / 3 * 4 + j % 3]);
        j = j + 1;
    }
    out
}

/// Swap the first and third channel of every four-byte pixel.
fn swap_red_blue(data: &Vec<u8>) -> (out: Vec<u8>)
    requires
        data@.len() % 4 == 0,
    ensures
        out@.len() == data@.len(),
        forall|i: int| 0 <= i < out@.len() ==> out@[i] == (
            if i % 4 == 0 { data@[i + 2] } else if i % 4 == 2 { data@[i - 2] } else { data@[i] }
        ),
{
    let mut out: Vec<u8> = Vec::new();
    let mut j: usize = 0;
    while j < data.len()
        invariant
            data@.len() % 4 == 0,
            0 <= j <= data@.len(),
            out@.len() == j,
            forall|i: int| 0 <= i < j ==> out@[i] == (
                if i % 4 == 0 { data@[i + 2] } else if i % 4 == 2 { data@[i - 2] } else { data@[i] }
            ),
        decreases data@.len() - j,
    {
        if j % 4 == 0 {
            assert(j + 2 < data@.len()) by (nonlinear_arith)
                requires j < data@.len(), data@.len() % 4 == 0, j % 4 == 0;
            out.push(data[j + 2]);
        } else if j % 4 == 2 {
            out.push(data[j - 2]);
        } else {
            out.push(data[j]);
        }
        j = j + 1;
    }
    out
}

/// What `convert_frame_format` returns: alpha dropped for RGBA to RGB,
/// red and blue swapped for BGRA to RGBA, the input copied otherwise.
pub open spec fn spec_converted_frame(data: Seq<u8>, from: FrameFormat, to: FrameFormat) -> Seq<u8> {
    if from == FrameFormat::RGBA8 && to == FrameFormat::RGB8 {
        Seq::new((data.len() / 4 * 3) as nat, |i: int| data[i / 3 * 4 + i % 3])
    } else if from == FrameFormat::BGRA8 && to == FrameFormat::RGBA8 {
        Seq::new(data.len(), |i: int|
            if i % 4 == 0 { data[i + 2] } else if i % 4 == 2 { data[i - 2] } else { data[i] })
    } else {
        data
    }
}

/// Convert a packed frame buffer between the supported format pairs;
/// any other pair is returned unchanged.
pub fn convert_frame_format(
    data: &Vec<u8>,
    from: FrameFormat,
    to: FrameFormat,
    width: u32,
    height: u32,
) -> (out: Vec<u8>)
    requires
        (from == FrameFormat::RGBA8 || from == FrameFormat::BGRA8) ==> data@.len() % 4 == 0,
    ensures
        out@ == spec_converted_frame(data@, from, to),
{
    if from == FrameFormat::RGBA8 && to == FrameFormat::RGB8 {
        let out = drop_alpha_channel(data);
        proof {
            assert(out@ =~= spec_converted_frame(data@, from, to));
        }
        out
    } else if from == FrameFormat::BGRA8 && to == FrameFormat::RGBA8 {
        let out = swap_red_blue(data);
        proof {
            assert(out@ =~= spec_converted_frame(data@, from, to));
        }
        out
    } else {
        let mut out: Vec<u8> = Vec::new();
        let mut i: usize = 0;
        while i < data.len()
            invariant
                0 <= i <= data@.len(),
                out@ =~= data@.subrange(0, i as int),
            decreases data@.len() - i,
        {
            out.push(data[i]);
            i = i + 1;
        }
        assert(out@ =~= data@);
        out
    }
}

} // verus!
