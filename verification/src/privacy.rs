//! Privacy filter: detects sensitive regions in a captured frame and
//! redacts them in place, proportional to risk.
//!
//! A frame runs through three stages: detect (pattern matching over
//! reported text, content analysis, face heuristics), merge (drop
//! low-confidence regions, keep the highest-confidence region of any
//! overlapping group), redact (blackout, pixelation or box blur,
//! dispatched on content type).

use vstd::arithmetic::div_mod::{lemma_div_multiples_vanish, lemma_fundamental_div_mod};
use vstd::prelude::*;

use crate::trusted::{match_pattern, pattern_compiles, regex_matches};

verus! {

/// Errors of the privacy filter.
#[derive(Debug, Clone)]
pub enum PrivacyError {
    /// A detection pattern did not compile.
    PatternCompilationFailed { pattern: String },
    /// Content analysis failed.
    ContentAnalysisFailed { reason: String },
    /// The frame buffer did not match its declared dimensions.
    FrameProcessingFailed { reason: String },
}

/// Result alias for the privacy filter.
pub type PrivacyResult<T> = Result<T, PrivacyError>;

/// How aggressively the filter hunts for sensitive content.
#[derive(Debug, Clone, Copy, PartialEq, Eq, Structural)]
pub enum SensitivityLevel {
    Low,
    Medium,
    High,
    Paranoid,
}

/// Rank of a sensitivity level, for ordered comparisons.
pub open spec fn sensitivity_rank(s: SensitivityLevel) -> int {
    match s {
        SensitivityLevel::Low => 1,
        SensitivityLevel::Medium => 2,
        SensitivityLevel::High => 3,
        SensitivityLevel::Paranoid => 4,
    }
}

impl SensitivityLevel {
    /// Numeric rank: higher means more aggressive detection.
    pub fn rank(&self) -> (r: u32)
        ensures
            r == sensitivity_rank(*self),
    {
        match self {
            SensitivityLevel::Low => 1,
            SensitivityLevel::Medium => 2,
            SensitivityLevel::High => 3,
            SensitivityLevel::Paranoid => 4,
        }
    }
}

/// Kind of sensitive content a detector recognized.
#[derive(Debug, Clone, PartialEq, Eq)]
pub enum SensitiveContentType {
    Email,
    CreditCard,
    SocialSecurityNumber,
    ApiKey,
    Password,
    PersonalInformation,
    FaceDetection,
    FinancialData,
    Custom(String),
}

/// Ordered severity of a detection.
#[derive(Debug, Clone, Copy, PartialEq, Eq, Structural)]
pub enum RiskLevel {
    Low,
    Medium,
    High,
    Critical,
}

/// Rank of a risk level: Low < Medium < High < Critical.
pub open spec fn risk_rank(r: RiskLevel) -> int {
    match r {
        RiskLevel::Low => 1,
        RiskLevel::Medium => 2,
        RiskLevel::High => 3,
        RiskLevel::Critical => 4,
    }
}

impl RiskLevel {
    /// Numeric rank: higher means more severe.
    pub fn rank(&self) -> (r: u32)
        ensures
            r == risk_rank(*self),
    {
        match self {
            RiskLevel::Low => 1,
            RiskLevel::Medium => 2,
            RiskLevel::High => 3,
            RiskLevel::Critical => 4,
        }
    }
}

/// Risk attached to each content kind.  Credit cards, social security
/// numbers and passwords are always critical.
pub open spec fn spec_content_risk(ct: SensitiveContentType) -> RiskLevel {
    match ct {
        SensitiveContentType::CreditCard => RiskLevel::Critical,
        SensitiveContentType::SocialSecurityNumber => RiskLevel::Critical,
        SensitiveContentType::Password => RiskLevel::Critical,
        SensitiveContentType::ApiKey => RiskLevel::High,
        SensitiveContentType::Email => RiskLevel::High,
        SensitiveContentType::FinancialData => RiskLevel::High,
        SensitiveContentType::PersonalInformation => RiskLevel::Medium,
        SensitiveContentType::FaceDetection => RiskLevel::Medium,
        SensitiveContentType::Custom(_) => RiskLevel::Medium,
    }
}

/// Risk attached to a content kind.
pub fn content_risk(ct: &SensitiveContentType) -> (r: RiskLevel)
    ensures
        r == spec_content_risk(*ct),
{
    match ct {
        SensitiveContentType::CreditCard => RiskLevel::Critical,
        SensitiveContentType::SocialSecurityNumber => RiskLevel::Critical,
        SensitiveContentType::Password => RiskLevel::Critical,
        SensitiveContentType::ApiKey => RiskLevel::High,
        SensitiveContentType::Email => RiskLevel::High,
        SensitiveContentType::FinancialData => RiskLevel::High,
        SensitiveContentType::PersonalInformation => RiskLevel::Medium,
        SensitiveContentType::FaceDetection => RiskLevel::Medium,
        SensitiveContentType::Custom(_) => RiskLevel::Medium,
    }
}

/// One detected sensitive region of a frame.
#[derive(Debug, Clone, PartialEq, Eq)]
pub struct DetectedSensitiveRegion {
    /// Left edge, pixels.
    pub x: u32,
    /// Top edge, pixels.
    pub y: u32,
    /// Width, pixels.
    pub width: u32,
    /// Height, pixels.
    pub height: u32,
    /// Detector confidence, per mille of 1.0.
    pub confidence_milli: u32,
    /// What the detector recognized.
    pub content_type: SensitiveContentType,
    /// Severity of leaking this region.
    pub risk_level: RiskLevel,
}

/// A non-empty region that lies inside a `width` by `height` frame.
pub open spec fn region_in_frame(r: DetectedSensitiveRegion, width: u32, height: u32) -> bool {
    &&& 1 <= r.width
    &&& 1 <= r.height
    &&& r.x + r.width <= width
    &&& r.y + r.height <= height
}

/// Whether two regions overlap (axis-aligned intersection test).
pub open spec fn spec_regions_overlap(a: DetectedSensitiveRegion, b: DetectedSensitiveRegion) -> bool {
    &&& max_int(a.x as int, b.x as int) < min_int(a.x + a.width, b.x + b.width)
    &&& max_int(a.y as int, b.y as int) < min_int(a.y + a.height, b.y + b.height)
}

/// Larger of two integers.
pub open spec fn max_int(a: int, b: int) -> int {
    if a >= b { a } else { b }
}

/// Smaller of two integers.
pub open spec fn min_int(a: int, b: int) -> int {
    if a <= b { a } else { b }
}

/// Axis-aligned overlap test on two regions.
pub fn regions_overlap(a: &DetectedSensitiveRegion, b: &DetectedSensitiveRegion) -> (r: bool)
    ensures
        r == spec_regions_overlap(*a, *b),
{
    let ax2: u64 = a.x as u64 + a.width as u64;
    let bx2: u64 = b.x as u64 + b.width as u64;
    let ay2: u64 = a.y as u64 + a.height as u64;
    let by2: u64 = b.y as u64 + b.height as u64;
    let left: u64 = if a.x >= b.x { a.x as u64 } else { b.x as u64 };
    let right: u64 = if ax2 <= bx2 { ax2 } else { bx2 };
    let top: u64 = if a.y >= b.y { a.y as u64 } else { b.y as u64 };
    let bottom: u64 = if ay2 <= by2 { ay2 } else { by2 };
    left < right && top < bottom
}

// ---------------------------------------------------------------------------
// Pixel coordinates of a byte offset in a packed four-byte-per-pixel buffer.
// ---------------------------------------------------------------------------

/// Column of the pixel that byte `i` belongs to.
pub open spec fn px_of(i: int, width: u32) -> int {
    (i / 4) % (width as int)
}

/// Row of the pixel that byte `i` belongs to.
pub open spec fn py_of(i: int, width: u32) -> int {
    (i / 4) / (width as int)
}

/// Whether byte `i` lies inside region `r` of a `width`-pixel-wide frame.
pub open spec fn byte_in_region(i: int, width: u32, r: DetectedSensitiveRegion) -> bool {
    &&& r.x <= px_of(i, width) < r.x + r.width
    &&& r.y <= py_of(i, width) < r.y + r.height
}

/// Byte offset of channel `c` of the pixel at `(px, py)`.
pub open spec fn byte_at(px: int, py: int, c: int, width: u32) -> int {
    (py * width + px) * 4 + c
}

/// Coordinates and channel round-trip through byte offsets.
pub proof fn lemma_byte_at_coords(px: int, py: int, c: int, width: u32)
    requires
        0 <= c < 4,
        0 <= px < width,
        0 <= py,
    ensures
        px_of(byte_at(px, py, c, width), width) == px,
        py_of(byte_at(px, py, c, width), width) == py,
        byte_at(px, py, c, width) % 4 == c,
{
    let i = byte_at(px, py, c, width);
    let q = py * width + px;
    assert(q * 4 == 4 * q) by (nonlinear_arith);
    assert(0 <= py * width) by (nonlinear_arith)
        requires 0 <= py, 0 < width;
    vstd::arithmetic::div_mod::lemma_fundamental_div_mod_converse(i, 4, q, c);
    assert(py * (width as int) == (width as int) * py) by (nonlinear_arith);
    vstd::arithmetic::div_mod::lemma_fundamental_div_mod_converse(q, width as int, py, px);
}

/// Every byte offset is the byte of its own coordinates.
pub proof fn lemma_coords_byte_at(i: int, width: u32, height: u32)
    requires
        0 < width,
        0 <= i < width * height * 4,
    ensures
        i == byte_at(px_of(i, width), py_of(i, width), i % 4, width),
        0 <= px_of(i, width) < width,
        0 <= py_of(i, width) < height,
        0 <= i % 4 < 4,
{
    let w = width as int;
    let q = i / 4;
    lemma_fundamental_div_mod(i, 4);
    lemma_fundamental_div_mod(q, w);
    let t = q / w;
    assert(w * t == t * w) by (nonlinear_arith);
    assert(py_of(i, width) * w + px_of(i, width) == q);
    assert(byte_at(px_of(i, width), py_of(i, width), i % 4, width) == q * 4 + i % 4);
    assert(i / 4 < width * height) by (nonlinear_arith)
        requires 0 <= i < width * height * 4;
    assert((i / 4) / w < height) by (nonlinear_arith)
        requires 0 < w, i / 4 < w * height, 0 <= i / 4;
}

// ---------------------------------------------------------------------------
// Redaction operators, as point functions of the input buffer.
// ---------------------------------------------------------------------------

/// Blackout: zero every colour channel inside the region; alpha and all
/// bytes outside the region keep their value.
pub open spec fn spec_blackout(data: Seq<u8>, width: u32, r: DetectedSensitiveRegion) -> Seq<u8> {
    Seq::new(data.len(), |i: int|
        if byte_in_region(i, width, r) && i % 4 != 3 { 0u8 } else { data[i] })
}

/// Side length of a pixelation block.
pub const PIXEL_BLOCK: u32 = 8;

/// Byte offset of the block-anchor sample for byte `i` under pixelation
/// of region `r`: the top-left pixel of the 8 by 8 block, same channel.
pub open spec fn anchor_byte(i: int, width: u32, r: DetectedSensitiveRegion) -> int {
    byte_at(
        r.x + (px_of(i, width) - r.x) / (PIXEL_BLOCK as int) * (PIXEL_BLOCK as int),
        r.y + (py_of(i, width) - r.y) / (PIXEL_BLOCK as int) * (PIXEL_BLOCK as int),
        i % 4,
        width,
    )
}

/// Pixelation: every colour channel inside the region takes the value of
/// its block anchor in the input; alpha and outside bytes keep theirs.
pub open spec fn spec_pixelate(data: Seq<u8>, width: u32, r: DetectedSensitiveRegion) -> Seq<u8> {
    Seq::new(data.len(), |i: int|
        if byte_in_region(i, width, r) && i % 4 != 3 { data[anchor_byte(i, width, r)] } else { data[i] })
}

/// The block anchor lies inside the region and ahead of its own pixel.
pub proof fn lemma_anchor_in_region(i: int, width: u32, height: u32, r: DetectedSensitiveRegion)
    requires
        0 < width,
        0 <= i < width * height * 4,
        byte_in_region(i, width, r),
        region_in_frame(r, width, height),
    ensures
        0 <= anchor_byte(i, width, r) < width * height * 4,
        byte_in_region(anchor_byte(i, width, r), width, r),
        anchor_byte(i, width, r) % 4 == i % 4,
        anchor_byte(anchor_byte(i, width, r), width, r) == anchor_byte(i, width, r),
{
    let b = PIXEL_BLOCK as int;
    let px = px_of(i, width);
    let py = py_of(i, width);
    lemma_coords_byte_at(i, width, height);
    let ax = r.x + (px - r.x) / b * b;
    let ay = r.y + (py - r.y) / b * b;
    assert(0 <= (px - r.x) / b * b <= px - r.x) by (nonlinear_arith)
        requires 0 <= px - r.x, b == 8;
    assert(0 <= (py - r.y) / b * b <= py - r.y) by (nonlinear_arith)
        requires 0 <= py - r.y, b == 8;
    lemma_byte_at_coords(ax, ay, i % 4, width);
    // the anchor of the anchor is the anchor itself
    assert((ax - r.x) / b * b == ax - r.x) by (nonlinear_arith)
        requires ax - r.x == (px - r.x) / b * b, 0 <= px - r.x, b == 8;
    assert((ay - r.y) / b * b == ay - r.y) by (nonlinear_arith)
        requires ay - r.y == (py - r.y) / b * b, 0 <= py - r.y, b == 8;
    lemma_byte_at_coords(ax, ay, i % 4, width);
    assert(byte_at(ax, ay, i % 4, width) < width * height * 4) by (nonlinear_arith)
        requires 0 <= ax < width, 0 <= ay < height, 0 <= i % 4 < 4;
}

/// Every byte offset of a pixel inside the frame is inside the buffer.
pub proof fn lemma_byte_at_bound(px: int, py: int, c: int, width: u32, height: u32)
    requires
        0 <= c < 4,
        0 <= px < width,
        0 <= py < height,
    ensures
        0 <= byte_at(px, py, c, width) < width * height * 4,
{
    assert(0 <= (py * width + px) * 4 + c < width * height * 4) by (nonlinear_arith)
        requires 0 <= c < 4, 0 <= px < width, 0 <= py < height;
}

/// Copy of a byte buffer.
fn clone_buffer(data: &Vec<u8>) -> (out: Vec<u8>)
    ensures
        out@ == data@,
{
    let mut out: Vec<u8> = Vec::new();
    let mut i: usize = 0;
    while i < data.len()
        invariant
            0 <= i <= data@.len(),
            out@ =~= data@.subrange(0, i as int),
        decreases data@.len() - i,
    {
        out.push(data[i]);
        i = i + 1;
    }
    assert(out@ =~= data@);
    out
}

/// Blackout applied to the rows before `py`, and on row `py` to the
/// columns before `px`.
spec fn spec_blackout_upto(
    data: Seq<u8>,
    width: u32,
    r: DetectedSensitiveRegion,
    py: int,
    px: int,
) -> Seq<u8> {
    Seq::new(data.len(), |i: int|
        if byte_in_region(i, width, r) && i % 4 != 3
            && (py_of(i, width) < py || (py_of(i, width) == py && px_of(i, width) < px)) {
            0u8
        } else {
            data[i]
        })
}

/// Zero the colour channels of every pixel of `region`, leaving alpha
/// and everything outside the region untouched.
pub fn apply_blackout(data: &mut Vec<u8>, width: u32, height: u32, region: &DetectedSensitiveRegion)
    requires
        old(data)@.len() == width * height * 4,
        region_in_frame(*region, width, height),
    ensures
        final(data)@ == spec_blackout(old(data)@, width, *region),
{
    let ghost orig = data@;
    let n: usize = data.len();
    let y_end: u32 = region.y + region.height;
    let x_end: u32 = region.x + region.width;
    let mut py: u32 = region.y;
    while py < y_end
        invariant
            orig.len() == width * height * 4,
            n == orig.len(),
            region_in_frame(*region, width, height),
            y_end == region.y + region.height,
            x_end == region.x + region.width,
            region.y <= py <= y_end,
            data@ =~= spec_blackout_upto(orig, width, *region, py as int, region.x as int),
        decreases y_end - py,
    {
        let mut px: u32 = region.x;
        while px < x_end
            invariant
                orig.len() == width * height * 4,
                n == orig.len(),
                region_in_frame(*region, width, height),
                y_end == region.y + region.height,
                x_end == region.x + region.width,
                region.y <= py < y_end,
                region.x <= px <= x_end,
                data@ =~= spec_blackout_upto(orig, width, *region, py as int, px as int),
        decreases x_end - px,
        {
            proof {
                lemma_byte_at_bound(px as int, py as int, 0, width, height);
                lemma_byte_at_bound(px as int, py as int, 2, width, height);
            }
            let base: u64 = ((py as u64) * (width as u64) + (px as u64)) * 4;
            let ghost prev = data@;
            data[base as usize] = 0;
            data[base as usize + 1] = 0;
            data[base as usize + 2] = 0;
            proof {
                let w = width;
                let rg = *region;
                assert forall|i: int| 0 <= i < n implies
                    data@[i] == spec_blackout_upto(orig, w, rg, py as int, px as int + 1)[i] by {
                    lemma_coords_byte_at(i, w, height);
                    lemma_byte_at_coords(px as int, py as int, 0, w);
                    lemma_byte_at_coords(px as int, py as int, 1, w);
                    lemma_byte_at_coords(px as int, py as int, 2, w);
                    assert(base == byte_at(px as int, py as int, 0, w));
                    if px_of(i, w) == px as int && py_of(i, w) == py as int && i % 4 != 3 {
                        lemma_byte_at_coords(px as int, py as int, i % 4, w);
                        assert(i == base + i % 4);
                        assert(data@[i] == 0);
                    } else {
                        assert(i != base && i != base + 1 && i != base + 2);
                        assert(data@[i] == prev[i]);
                    }
                }
                assert(data@ =~= spec_blackout_upto(orig, w, rg, py as int, px as int + 1));
            }
            px = px + 1;
        }
        proof {
            assert(spec_blackout_upto(orig, width, *region, py as int, x_end as int)
                =~= spec_blackout_upto(orig, width, *region, py as int + 1, region.x as int));
        }
        py = py + 1;
    }
    proof {
        assert(spec_blackout_upto(orig, width, *region, y_end as int, region.x as int)
            =~= spec_blackout(orig, width, *region));
    }
}

/// Pixelation applied to the rows before `py`, and on row `py` to the
/// columns before `px`.
spec fn spec_pixelate_upto(
    data: Seq<u8>,
    width: u32,
    r: DetectedSensitiveRegion,
    py: int,
    px: int,
) -> Seq<u8> {
    Seq::new(data.len(), |i: int|
        if byte_in_region(i, width, r) && i % 4 != 3
            && (py_of(i, width) < py || (py_of(i, width) == py && px_of(i, width) < px)) {
            data[anchor_byte(i, width, r)]
        } else {
            data[i]
        })
}

/// Flood every eight-by-eight block of `region` with the colour of the
/// block's top-left pixel, leaving alpha and the outside untouched.
pub fn apply_pixelate(data: &mut Vec<u8>, width: u32, height: u32, region: &DetectedSensitiveRegion)
    requires
        old(data)@.len() == width * height * 4,
        region_in_frame(*region, width, height),
    ensures
        final(data)@ == spec_pixelate(old(data)@, width, *region),
{
    let ghost orig = data@;
    let src = clone_buffer(data);
    let n: usize = data.len();
    let y_end: u32 = region.y + region.height;
    let x_end: u32 = region.x + region.width;
    let mut py: u32 = region.y;
    while py < y_end
        invariant
            orig.len() == width * height * 4,
            n == orig.len(),
            src@ == orig,
            region_in_frame(*region, width, height),
            y_end == region.y + region.height,
            x_end == region.x + region.width,
            region.y <= py <= y_end,
            data@ =~= spec_pixelate_upto(orig, width, *region, py as int, region.x as int),
        decreases y_end - py,
    {
        let mut px: u32 = region.x;
        while px < x_end
            invariant
                orig.len() == width * height * 4,
                n == orig.len(),
                src@ == orig,
                region_in_frame(*region, width, height),
                y_end == region.y + region.height,
                x_end == region.x + region.width,
                region.y <= py < y_end,
                region.x <= px <= x_end,
                data@ =~= spec_pixelate_upto(orig, width, *region, py as int, px as int),
            decreases x_end - px,
        {
            let ax: u32 = region.x + (px - region.x) / PIXEL_BLOCK * PIXEL_BLOCK;
            let ay: u32 = region.y + (py - region.y) / PIXEL_BLOCK * PIXEL_BLOCK;
            proof {
                lemma_byte_at_bound(px as int, py as int, 0, width, height);
                lemma_byte_at_bound(px as int, py as int, 2, width, height);
                assert(region.x <= ax <= px && region.y <= ay <= py) by (nonlinear_arith)
                    requires
                        ax == region.x + (px - region.x) / (PIXEL_BLOCK as int) * (PIXEL_BLOCK as int),
                        ay == region.y + (py - region.y) / (PIXEL_BLOCK as int) * (PIXEL_BLOCK as int),
                        region.x <= px,
                        region.y <= py,
                        PIXEL_BLOCK == 8;
                lemma_byte_at_bound(ax as int, ay as int, 0, width, height);
                lemma_byte_at_bound(ax as int, ay as int, 2, width, height);
            }
            let base: u64 = ((py as u64) * (width as u64) + (px as u64)) * 4;
            let abase: u64 = ((ay as u64) * (width as u64) + (ax as u64)) * 4;
            let ghost prev = data@;
            data[base as usize] = src[abase as usize];
            data[base as usize + 1] = src[abase as usize + 1];
            data[base as usize + 2] = src[abase as usize + 2];
            proof {
                let w = width;
                let rg = *region;
                assert forall|i: int| 0 <= i < n implies
                    data@[i] == spec_pixelate_upto(orig, w, rg, py as int, px as int + 1)[i] by {
                    lemma_coords_byte_at(i, w, height);
                    lemma_byte_at_coords(px as int, py as int, 0, w);
                    lemma_byte_at_coords(px as int, py as int, 1, w);
                    lemma_byte_at_coords(px as int, py as int, 2, w);
                    assert(base == byte_at(px as int, py as int, 0, w));
                    if px_of(i, w) == px as int && py_of(i, w) == py as int && i % 4 != 3 {
                        lemma_byte_at_coords(px as int, py as int, i % 4, w);
                        lemma_byte_at_coords(ax as int, ay as int, i % 4, w);
                        assert(i == base + i % 4);
                        assert(anchor_byte(i, w, rg) == abase + i % 4);
                        assert(data@[i] == orig[anchor_byte(i, w, rg)]);
                    } else {
                        assert(i != base && i != base + 1 && i != base + 2);
                        assert(data@[i] == prev[i]);
                    }
                }
                assert(data@ =~= spec_pixelate_upto(orig, w, rg, py as int, px as int + 1));
            }
            px = px + 1;
        }
        proof {
            assert(spec_pixelate_upto(orig, width, *region, py as int, x_end as int)
                =~= spec_pixelate_upto(orig, width, *region, py as int + 1, region.x as int));
        }
        py = py + 1;
    }
    proof {
        assert(spec_pixelate_upto(orig, width, *region, y_end as int, region.x as int)
            =~= spec_pixelate(orig, width, *region));
    }
}

// ---------------------------------------------------------------------------
// Box blur: local neighbourhood averaging over a clamped window.
// ---------------------------------------------------------------------------

/// `v` clamped to the closed interval `[lo, hi]`.
pub open spec fn clamp_int(v: int, lo: int, hi: int) -> int {
    if v < lo { lo } else if v > hi { hi } else { v }
}

/// One sample of the blur window for the pixel at `(px, py)`, channel
/// `c`, at window offset `(dx, dy)`.  Sample coordinates are clamped on
/// the left and top to the frame edge and on the right and bottom to
/// the region edge.
pub open spec fn blur_sample(
    data: Seq<u8>,
    width: u32,
    r: DetectedSensitiveRegion,
    px: int,
    py: int,
    c: int,
    dx: int,
    dy: int,
) -> int {
    data[byte_at(
        clamp_int(px + dx, 0, r.x + r.width - 1),
        clamp_int(py + dy, 0, r.y + r.height - 1),
        c,
        width,
    )] as int
}

/// Sum of the first `k` samples of one window row (offsets
/// `-rad .. -rad + k - 1`).
pub open spec fn blur_row_sum(
    data: Seq<u8>,
    width: u32,
    r: DetectedSensitiveRegion,
    px: int,
    py: int,
    c: int,
    rad: int,
    dy: int,
    k: nat,
) -> int
    decreases k,
{
    if k == 0 {
        0
    } else {
        blur_row_sum(data, width, r, px, py, c, rad, dy, (k - 1) as nat)
            + blur_sample(data, width, r, px, py, c, -rad + (k - 1), dy)
    }
}

/// Sum of the first `m` full rows of the blur window.
pub open spec fn blur_win_sum(
    data: Seq<u8>,
    width: u32,
    r: DetectedSensitiveRegion,
    px: int,
    py: int,
    c: int,
    rad: int,
    m: nat,
) -> int
    decreases m,
{
    if m == 0 {
        0
    } else {
        blur_win_sum(data, width, r, px, py, c, rad, (m - 1) as nat)
            + blur_row_sum(data, width, r, px, py, c, rad, -rad + (m - 1), (2 * rad + 1) as nat)
    }
}

/// Average of the full `(2 rad + 1)` square window.
pub open spec fn blur_value(
    data: Seq<u8>,
    width: u32,
    r: DetectedSensitiveRegion,
    px: int,
    py: int,
    c: int,
    rad: int,
) -> int {
    blur_win_sum(data, width, r, px, py, c, rad, (2 * rad + 1) as nat)
        / ((2 * rad + 1) * (2 * rad + 1))
}

/// Box blur: every colour channel inside the region becomes the window
/// average around its pixel; alpha and outside bytes keep their value.
pub open spec fn spec_box_blur(data: Seq<u8>, width: u32, r: DetectedSensitiveRegion, rad: u32) -> Seq<u8> {
    Seq::new(data.len(), |i: int|
        if byte_in_region(i, width, r) && i % 4 != 3 {
            blur_value(data, width, r, px_of(i, width), py_of(i, width), i % 4, rad as int) as u8
        } else {
            data[i]
        })
}

/// Every blur sample is a byte value.
proof fn lemma_blur_sample_bound(
    data: Seq<u8>,
    width: u32,
    height: u32,
    r: DetectedSensitiveRegion,
    px: int,
    py: int,
    c: int,
    dx: int,
    dy: int,
)
    requires
        data.len() == width * height * 4,
        region_in_frame(r, width, height),
        0 <= c < 4,
    ensures
        0 <= blur_sample(data, width, r, px, py, c, dx, dy) <= 255,
{
    let sx = clamp_int(px + dx, 0, r.x + r.width - 1);
    let sy = clamp_int(py + dy, 0, r.y + r.height - 1);
    lemma_byte_at_bound(sx, sy, c, width, height);
}

/// A window row sum of `k` samples lies between zero and `255 k`.
proof fn lemma_blur_row_sum_bound(
    data: Seq<u8>,
    width: u32,
    height: u32,
    r: DetectedSensitiveRegion,
    px: int,
    py: int,
    c: int,
    rad: int,
    dy: int,
    k: nat,
)
    requires
        data.len() == width * height * 4,
        region_in_frame(r, width, height),
        0 <= c < 4,
    ensures
        0 <= blur_row_sum(data, width, r, px, py, c, rad, dy, k) <= 255 * k,
    decreases k,
{
    if k > 0 {
        lemma_blur_row_sum_bound(data, width, height, r, px, py, c, rad, dy, (k - 1) as nat);
        lemma_blur_sample_bound(data, width, height, r, px, py, c, -rad + (k - 1), dy);
    }
}

/// A window sum of `m` rows lies between zero and `255 (2 rad + 1) m`.
proof fn lemma_blur_win_sum_bound(
    data: Seq<u8>,
    width: u32,
    height: u32,
    r: DetectedSensitiveRegion,
    px: int,
    py: int,
    c: int,
    rad: int,
    m: nat,
)
    requires
        data.len() == width * height * 4,
        region_in_frame(r, width, height),
        0 <= c < 4,
        0 <= rad,
    ensures
        0 <= blur_win_sum(data, width, r, px, py, c, rad, m) <= 255 * ((2 * rad + 1) * m),
    decreases m,
{
    if m > 0 {
        lemma_blur_win_sum_bound(data, width, height, r, px, py, c, rad, (m - 1) as nat);
        lemma_blur_row_sum_bound(data, width, height, r, px, py, c, rad, -rad + (m - 1),
            (2 * rad + 1) as nat);
        assert(255 * ((2 * rad + 1) * (m - 1)) + 255 * (2 * rad + 1) == 255 * ((2 * rad + 1) * m))
            by (nonlinear_arith);
    }
}

/// The window average is a byte value.
proof fn lemma_blur_value_bound(
    data: Seq<u8>,
    width: u32,
    height: u32,
    r: DetectedSensitiveRegion,
    px: int,
    py: int,
    c: int,
    rad: int,
)
    requires
        data.len() == width * height * 4,
        region_in_frame(r, width, height),
        0 <= c < 4,
        0 <= rad,
    ensures
        0 <= blur_value(data, width, r, px, py, c, rad) <= 255,
{
    let side = 2 * rad + 1;
    let win = blur_win_sum(data, width, r, px, py, c, rad, side as nat);
    lemma_blur_win_sum_bound(data, width, height, r, px, py, c, rad, side as nat);
    assert(win <= 255 * (side * side));
    assert(0 < side * side) by (nonlinear_arith)
        requires 0 < side;
    vstd::arithmetic::div_mod::lemma_div_is_ordered(win, 255 * (side * side), side * side);
    lemma_div_multiples_vanish(255, side * side);
    vstd::arithmetic::div_mod::lemma_div_pos_is_pos(win, side * side);
}

/// Sum the blur window of one channel of one pixel.
fn blur_channel_sum(
    src: &Vec<u8>,
    width: u32,
    height: u32,
    region: &DetectedSensitiveRegion,
    px: u32,
    py: u32,
    c: u32,
    radius: u32,
) -> (sum: u32)
    requires
        src@.len() == width * height * 4,
        region_in_frame(*region, width, height),
        c < 3,
        radius <= 5,
    ensures
        sum == blur_win_sum(src@, width, *region, px as int, py as int, c as int, radius as int,
            (2 * radius + 1) as nat),
{
    let nn: usize = src.len();
    let side: u32 = 2 * radius + 1;
    let x_hi: u32 = region.x + region.width - 1;
    let y_hi: u32 = region.y + region.height - 1;
    let mut sum: u32 = 0;
    let mut m: u32 = 0;
    while m < side
        invariant
            nn == src@.len(),
            src@.len() == width * height * 4,
            region_in_frame(*region, width, height),
            c < 3,
            radius <= 5,
            side == 2 * radius + 1,
            x_hi == region.x + region.width - 1,
            y_hi == region.y + region.height - 1,
            0 <= m <= side,
            sum == blur_win_sum(src@, width, *region, px as int, py as int, c as int,
                radius as int, m as nat),
        decreases side - m,
    {
        let ghost dy = m as int - radius as int;
        let mut k: u32 = 0;
        while k < side
            invariant
                nn == src@.len(),
                src@.len() == width * height * 4,
                region_in_frame(*region, width, height),
                c < 3,
                radius <= 5,
                side == 2 * radius + 1,
                x_hi == region.x + region.width - 1,
                y_hi == region.y + region.height - 1,
                0 <= m < side,
                0 <= k <= side,
                dy == m as int - radius as int,
                sum == blur_win_sum(src@, width, *region, px as int, py as int, c as int,
                        radius as int, m as nat)
                    + blur_row_sum(src@, width, *region, px as int, py as int, c as int,
                        radius as int, dy, k as nat),
            decreases side - k,
        {
            let dxi: i64 = k as i64 - radius as i64;
            let dyi: i64 = m as i64 - radius as i64;
            let mut sx: i64 = px as i64 + dxi;
            if sx < 0 {
                sx = 0;
            }
            if sx > x_hi as i64 {
                sx = x_hi as i64;
            }
            let mut sy: i64 = py as i64 + dyi;
            if sy < 0 {
                sy = 0;
            }
            if sy > y_hi as i64 {
                sy = y_hi as i64;
            }
            proof {
                assert(sx == clamp_int(px + dxi, 0, region.x + region.width - 1));
                assert(sy == clamp_int(py + dyi, 0, region.y + region.height - 1));
                lemma_byte_at_bound(sx as int, sy as int, c as int, width, height);
                lemma_blur_win_sum_bound(src@, width, height, *region, px as int, py as int,
                    c as int, radius as int, m as nat);
                lemma_blur_row_sum_bound(src@, width, height, *region, px as int, py as int,
                    c as int, radius as int, dy, k as nat);
                lemma_blur_sample_bound(src@, width, height, *region, px as int, py as int,
                    c as int, dxi as int, dyi as int);
                assert(255 * ((2 * radius + 1) * (m as int)) <= 255 * 11 * 11) by (nonlinear_arith)
                    requires radius <= 5, m < 2 * radius + 1;
                assert(255 * (k as int) <= 255 * 11);
            }
            let idx: u64 = ((sy as u64) * (width as u64) + (sx as u64)) * 4 + (c as u64);
            proof {
                assert(idx == byte_at(sx as int, sy as int, c as int, width));
                assert(src@[idx as int] as int == blur_sample(src@, width, *region, px as int,
                    py as int, c as int, dxi as int, dyi as int));
                assert(blur_row_sum(src@, width, *region, px as int, py as int, c as int,
                        radius as int, dy, (k + 1) as nat)
                    == blur_row_sum(src@, width, *region, px as int, py as int, c as int,
                        radius as int, dy, k as nat)
                    + blur_sample(src@, width, *region, px as int, py as int, c as int,
                        -(radius as int) + k as int, dy));
            }
            sum = sum + (src[idx as usize] as u32);
            k = k + 1;
        }
        m = m + 1;
    }
    sum
}

/// Box blur applied to the rows before `py`, and on row `py` to the
/// columns before `px`.
spec fn spec_box_blur_upto(
    data: Seq<u8>,
    width: u32,
    r: DetectedSensitiveRegion,
    rad: u32,
    py: int,
    px: int,
) -> Seq<u8> {
    Seq::new(data.len(), |i: int|
        if byte_in_region(i, width, r) && i % 4 != 3
            && (py_of(i, width) < py || (py_of(i, width) == py && px_of(i, width) < px)) {
            blur_value(data, width, r, px_of(i, width), py_of(i, width), i % 4, rad as int) as u8
        } else {
            data[i]
        })
}

/// Replace every colour channel of `region` with the average of its
/// clamped neighbourhood window, leaving alpha and the outside
/// untouched.  The averages are taken over the input buffer.
pub fn apply_box_blur(
    data: &mut Vec<u8>,
    width: u32,
    height: u32,
    region: &DetectedSensitiveRegion,
    radius: u32,
)
    requires
        old(data)@.len() == width * height * 4,
        region_in_frame(*region, width, height),
        radius <= 5,
    ensures
        final(data)@ == spec_box_blur(old(data)@, width, *region, radius),
{
    let ghost orig = data@;
    let src = clone_buffer(data);
    let n: usize = data.len();
    let side: u32 = 2 * radius + 1;
    proof {
        assert(1 <= side * side <= 121) by (nonlinear_arith)
            requires 1 <= side <= 11;
    }
    let count: u32 = side * side;
    let y_end: u32 = region.y + region.height;
    let x_end: u32 = region.x + region.width;
    let mut py: u32 = region.y;
    while py < y_end
        invariant
            orig.len() == width * height * 4,
            n == orig.len(),
            src@ == orig,
            region_in_frame(*region, width, height),
            radius <= 5,
            side == 2 * radius + 1,
            count == side * side,
            1 <= count,
            y_end == region.y + region.height,
            x_end == region.x + region.width,
            region.y <= py <= y_end,
            data@ =~= spec_box_blur_upto(orig, width, *region, radius, py as int, region.x as int),
        decreases y_end - py,
    {
        let mut px: u32 = region.x;
        while px < x_end
            invariant
                orig.len() == width * height * 4,
                n == orig.len(),
                src@ == orig,
                region_in_frame(*region, width, height),
                radius <= 5,
                side == 2 * radius + 1,
                count == side * side,
                1 <= count,
                y_end == region.y + region.height,
                x_end == region.x + region.width,
                region.y <= py < y_end,
                region.x <= px <= x_end,
                data@ =~= spec_box_blur_upto(orig, width, *region, radius, py as int, px as int),
            decreases x_end - px,
        {
            let s0 = blur_channel_sum(&src, width, height, region, px, py, 0, radius);
            let s1 = blur_channel_sum(&src, width, height, region, px, py, 1, radius);
            let s2 = blur_channel_sum(&src, width, height, region, px, py, 2, radius);
            let v0: u32 = s0 / count;
            let v1: u32 = s1 / count;
            let v2: u32 = s2 / count;
            proof {
                lemma_byte_at_bound(px as int, py as int, 0, width, height);
                lemma_byte_at_bound(px as int, py as int, 2, width, height);
                lemma_blur_value_bound(orig, width, height, *region, px as int, py as int, 0,
                    radius as int);
                lemma_blur_value_bound(orig, width, height, *region, px as int, py as int, 1,
                    radius as int);
                lemma_blur_value_bound(orig, width, height, *region, px as int, py as int, 2,
                    radius as int);
                assert(count == (2 * radius + 1) * (2 * radius + 1));
                assert(v0 == blur_value(orig, width, *region, px as int, py as int, 0, radius as int));
                assert(v1 == blur_value(orig, width, *region, px as int, py as int, 1, radius as int));
                assert(v2 == blur_value(orig, width, *region, px as int, py as int, 2, radius as int));
            }
            let base: u64 = ((py as u64) * (width as u64) + (px as u64)) * 4;
            let ghost prev = data@;
            data[base as usize] = v0 as u8;
            data[base as usize + 1] = v1 as u8;
            data[base as usize + 2] = v2 as u8;
            proof {
                let w = width;
                let rg = *region;
                assert forall|i: int| 0 <= i < n implies
                    data@[i] == spec_box_blur_upto(orig, w, rg, radius, py as int, px as int + 1)[i] by {
                    lemma_coords_byte_at(i, w, height);
                    lemma_byte_at_coords(px as int, py as int, 0, w);
                    lemma_byte_at_coords(px as int, py as int, 1, w);
                    lemma_byte_at_coords(px as int, py as int, 2, w);
                    assert(base == byte_at(px as int, py as int, 0, w));
                    if px_of(i, w) == px as int && py_of(i, w) == py as int && i % 4 != 3 {
                        lemma_byte_at_coords(px as int, py as int, i % 4, w);
                        assert(i == base + i % 4);
                    } else {
                        assert(i != base && i != base + 1 && i != base + 2);
                        assert(data@[i] == prev[i]);
                    }
                }
                assert(data@ =~= spec_box_blur_upto(orig, w, rg, radius, py as int, px as int + 1));
            }
            px = px + 1;
        }
        proof {
            assert(spec_box_blur_upto(orig, width, *region, radius, py as int, x_end as int)
                =~= spec_box_blur_upto(orig, width, *region, radius, py as int + 1, region.x as int));
        }
        py = py + 1;
    }
    proof {
        assert(spec_box_blur_upto(orig, width, *region, radius, y_end as int, region.x as int)
            =~= spec_box_blur(orig, width, *region, radius));
    }
}

// ---------------------------------------------------------------------------
// Configuration, observations, and their ghost views.
// ---------------------------------------------------------------------------

/// Configuration of the privacy filter.
#[derive(Debug, Clone)]
pub struct PrivacyConfig {
    /// Run text extraction over frames.
    pub enable_text_detection: bool,
    /// Run the regex pattern detectors over extracted text.
    pub enable_pattern_matching: bool,
    /// Run the face-region heuristic.
    pub enable_face_blurring: bool,
    /// Run the simulated content-analysis scorer.
    pub enable_screen_content_analysis: bool,
    /// How aggressively to hunt for sensitive content.
    pub sensitivity_level: SensitivityLevel,
    /// User-supplied regex patterns.
    pub custom_patterns: Vec<String>,
    /// Blur strength, per mille of 1.0.
    pub blur_intensity_milli: u32,
    /// Detections below this confidence (per mille) are dropped.
    pub detection_confidence_threshold_milli: u32,
}

/// Ghost view of a privacy configuration: patterns as character
/// sequences, everything else as is.
pub ghost struct PrivacyConfigV {
    /// See `PrivacyConfig::enable_text_detection`.
    pub enable_text_detection: bool,
    /// See `PrivacyConfig::enable_pattern_matching`.
    pub enable_pattern_matching: bool,
    /// See `PrivacyConfig::enable_face_blurring`.
    pub enable_face_blurring: bool,
    /// See `PrivacyConfig::enable_screen_content_analysis`.
    pub enable_screen_content_analysis: bool,
    /// See `PrivacyConfig::sensitivity_level`.
    pub sensitivity_level: SensitivityLevel,
    /// The custom patterns, as character sequences.
    pub custom_patterns: Seq<Seq<char>>,
    /// See `PrivacyConfig::blur_intensity_milli`.
    pub blur_intensity_milli: int,
    /// See `PrivacyConfig::detection_confidence_threshold_milli`.
    pub detection_confidence_threshold_milli: int,
}

impl View for PrivacyConfig {
    type V = PrivacyConfigV;

    open spec fn view(&self) -> PrivacyConfigV {
        PrivacyConfigV {
            enable_text_detection: self.enable_text_detection,
            enable_pattern_matching: self.enable_pattern_matching,
            enable_face_blurring: self.enable_face_blurring,
            enable_screen_content_analysis: self.enable_screen_content_analysis,
            sensitivity_level: self.sensitivity_level,
            custom_patterns: views_of(self.custom_patterns@),
            blur_intensity_milli: self.blur_intensity_milli as int,
            detection_confidence_threshold_milli: self.detection_confidence_threshold_milli as int,
        }
    }
}

impl Default for PrivacyConfig {
    /// All detectors on, medium sensitivity, blur strength 0.8 and
    /// confidence threshold 0.7 (both per mille).
    fn default() -> (c: Self)
        ensures
            c.enable_text_detection && c.enable_pattern_matching,
            c.enable_face_blurring && c.enable_screen_content_analysis,
            c.sensitivity_level == SensitivityLevel::Medium,
            c.custom_patterns@.len() == 0,
            c.blur_intensity_milli == 800,
            c.detection_confidence_threshold_milli == 700,
    {
        PrivacyConfig {
            enable_text_detection: true,
            enable_pattern_matching: true,
            enable_face_blurring: true,
            enable_screen_content_analysis: true,
            sensitivity_level: SensitivityLevel::Medium,
            custom_patterns: Vec::new(),
            blur_intensity_milli: 800,
            detection_confidence_threshold_milli: 700,
        }
    }
}

/// One piece of text reported by the (external) text-extraction stage,
/// with the pixel rectangle it was read from.
#[derive(Debug, Clone)]
pub struct TextObservation {
    /// Left edge, pixels.
    pub x: u32,
    /// Top edge, pixels.
    pub y: u32,
    /// Width, pixels.
    pub width: u32,
    /// Height, pixels.
    pub height: u32,
    /// The text read from the rectangle.
    pub text: String,
}

/// Ghost view of a text observation.
pub ghost struct TextObservationV {
    /// Left edge, pixels.
    pub x: int,
    /// Top edge, pixels.
    pub y: int,
    /// Width, pixels.
    pub width: int,
    /// Height, pixels.
    pub height: int,
    /// The text, as a character sequence.
    pub text: Seq<char>,
}

impl View for TextObservation {
    type V = TextObservationV;

    open spec fn view(&self) -> TextObservationV {
        TextObservationV {
            x: self.x as int,
            y: self.y as int,
            width: self.width as int,
            height: self.height as int,
            text: self.text@,
        }
    }
}

/// Ghost view of a content kind: custom patterns as character sequences.
pub ghost enum ContentTypeV {
    Email,
    CreditCard,
    SocialSecurityNumber,
    ApiKey,
    Password,
    PersonalInformation,
    FaceDetection,
    FinancialData,
    Custom(Seq<char>),
}

/// View of a content kind.
pub open spec fn ct_view(ct: SensitiveContentType) -> ContentTypeV {
    match ct {
        SensitiveContentType::Email => ContentTypeV::Email,
        SensitiveContentType::CreditCard => ContentTypeV::CreditCard,
        SensitiveContentType::SocialSecurityNumber => ContentTypeV::SocialSecurityNumber,
        SensitiveContentType::ApiKey => ContentTypeV::ApiKey,
        SensitiveContentType::Password => ContentTypeV::Password,
        SensitiveContentType::PersonalInformation => ContentTypeV::PersonalInformation,
        SensitiveContentType::FaceDetection => ContentTypeV::FaceDetection,
        SensitiveContentType::FinancialData => ContentTypeV::FinancialData,
        SensitiveContentType::Custom(p) => ContentTypeV::Custom(p@),
    }
}

/// Ghost view of a detected region.
pub ghost struct RegionV {
    /// Left edge, pixels.
    pub x: int,
    /// Top edge, pixels.
    pub y: int,
    /// Width, pixels.
    pub width: int,
    /// Height, pixels.
    pub height: int,
    /// Confidence, per mille.
    pub confidence: int,
    /// What was recognized.
    pub content_type: ContentTypeV,
    /// Severity.
    pub risk_level: RiskLevel,
}

/// View of a detected region.
pub open spec fn region_view(r: DetectedSensitiveRegion) -> RegionV {
    RegionV {
        x: r.x as int,
        y: r.y as int,
        width: r.width as int,
        height: r.height as int,
        confidence: r.confidence_milli as int,
        content_type: ct_view(r.content_type),
        risk_level: r.risk_level,
    }
}

impl View for DetectedSensitiveRegion {
    type V = RegionV;

    open spec fn view(&self) -> RegionV {
        region_view(*self)
    }
}

/// The rectangle of a region view, as a region value whose remaining
/// fields are immaterial (the redaction operators read only the
/// rectangle).
pub open spec fn rect_of(rv: RegionV) -> DetectedSensitiveRegion {
    DetectedSensitiveRegion {
        x: rv.x as u32,
        y: rv.y as u32,
        width: rv.width as u32,
        height: rv.height as u32,
        confidence_milli: 0u32,
        content_type: SensitiveContentType::Email,
        risk_level: RiskLevel::Low,
    }
}

/// A region view whose rectangle is non-empty, lies inside the frame,
/// and has all fields within machine range.
pub open spec fn region_v_in_frame(rv: RegionV, width: u32, height: u32) -> bool {
    &&& 1 <= rv.width
    &&& 1 <= rv.height
    &&& 0 <= rv.x
    &&& 0 <= rv.y
    &&& rv.x + rv.width <= width
    &&& rv.y + rv.height <= height
    &&& 0 <= rv.confidence <= 1000
}

/// Overlap of two region views.
pub open spec fn regions_v_overlap(a: RegionV, b: RegionV) -> bool {
    &&& max_int(a.x, b.x) < min_int(a.x + a.width, b.x + b.width)
    &&& max_int(a.y, b.y) < min_int(a.y + a.height, b.y + b.height)
}

// ---------------------------------------------------------------------------
// Pattern classification of extracted text.
// ---------------------------------------------------------------------------

/// Regex for e-mail addresses.
pub const EMAIL_PATTERN: &'static str = r"[a-zA-Z0-9._%+-]+@[a-zA-Z0-9.-]+\.[a-zA-Z]{2,}";

/// Regex for credit card numbers.
pub const CREDIT_CARD_PATTERN: &'static str = r"\b\d{4}[-\s]?\d{4}[-\s]?\d{4}[-\s]?\d{4}\b";

/// Regex for social security numbers.
pub const SSN_PATTERN: &'static str = r"\b\d{3}-\d{2}-\d{4}\b";

/// Regex for API keys (long alphanumeric runs).
pub const API_KEY_PATTERN: &'static str = r"\b[A-Za-z0-9]{20,}\b";

/// Regex for labelled passwords.
pub const PASSWORD_PATTERN: &'static str = r#"(?i)password[\s:=]['"]?[^\s'"]{8,}['"]?"#;

/// The custom patterns of a configuration, as character sequences.
pub open spec fn views_of(ps: Seq<String>) -> Seq<Seq<char>> {
    ps.map_values(|p: String| p@)
}

/// Whether a pattern compiles and matches the text.
pub open spec fn spec_pattern_hit(pattern: Seq<char>, text: Seq<char>) -> bool {
    pattern_compiles(pattern) && regex_matches(pattern, text)
}

/// Confidence attached to each pattern detector, per mille.
pub const CRITICAL_PATTERN_CONFIDENCE: u32 = 950;
/// Confidence of an e-mail pattern hit, per mille.
pub const EMAIL_PATTERN_CONFIDENCE: u32 = 930;
/// Confidence of an API key pattern hit, per mille.
pub const API_KEY_PATTERN_CONFIDENCE: u32 = 900;
/// Confidence of a custom pattern hit, per mille.
pub const CUSTOM_PATTERN_CONFIDENCE: u32 = 880;

/// Classification of a text against the custom patterns, starting at
/// index `j`: the first pattern that compiles and matches wins.
pub open spec fn spec_classify_custom(
    text: Seq<char>,
    customs: Seq<Seq<char>>,
    j: int,
) -> Option<(ContentTypeV, int)>
    decreases customs.len() - j,
{
    if j < 0 || j >= customs.len() {
        None
    } else if spec_pattern_hit(customs[j], text) {
        Some((ContentTypeV::Custom(customs[j]), CUSTOM_PATTERN_CONFIDENCE as int))
    } else {
        spec_classify_custom(text, customs, j + 1)
    }
}

/// Classification of an extracted text: the built-in detectors in
/// order of severity, then the custom patterns.
pub open spec fn spec_classify(text: Seq<char>, customs: Seq<Seq<char>>) -> Option<(ContentTypeV, int)> {
    if spec_pattern_hit(CREDIT_CARD_PATTERN@, text) {
        Some((ContentTypeV::CreditCard, CRITICAL_PATTERN_CONFIDENCE as int))
    } else if spec_pattern_hit(SSN_PATTERN@, text) {
        Some((ContentTypeV::SocialSecurityNumber, CRITICAL_PATTERN_CONFIDENCE as int))
    } else if spec_pattern_hit(PASSWORD_PATTERN@, text) {
        Some((ContentTypeV::Password, CRITICAL_PATTERN_CONFIDENCE as int))
    } else if spec_pattern_hit(API_KEY_PATTERN@, text) {
        Some((ContentTypeV::ApiKey, API_KEY_PATTERN_CONFIDENCE as int))
    } else if spec_pattern_hit(EMAIL_PATTERN@, text) {
        Some((ContentTypeV::Email, EMAIL_PATTERN_CONFIDENCE as int))
    } else {
        spec_classify_custom(text, customs, 0)
    }
}

/// Run one pattern over a text: a hit needs the pattern to compile and
/// to match.
fn pattern_hit(pattern: &str, text: &str) -> (r: bool)
    ensures
        r == spec_pattern_hit(pattern@, text@),
{
    match match_pattern(pattern, text) {
        Some(true) => true,
        _ => false,
    }
}

/// Classify an extracted text against the built-in and custom
/// detection patterns.
fn classify_text(text: &str, customs: &Vec<String>) -> (r: Option<(SensitiveContentType, u32)>)
    ensures
        ({
            let spec = spec_classify(text@, views_of(customs@));
            match r {
                Some((ct, conf)) => {
                    &&& spec matches Some((ctv, sconf))
                    &&& ct_view(ct) == ctv
                    &&& conf == sconf
                },
                None => spec is None,
            }
        }),
{
    if pattern_hit(CREDIT_CARD_PATTERN, text) {
        Some((SensitiveContentType::CreditCard, CRITICAL_PATTERN_CONFIDENCE))
    } else if pattern_hit(SSN_PATTERN, text) {
        Some((SensitiveContentType::SocialSecurityNumber, CRITICAL_PATTERN_CONFIDENCE))
    } else if pattern_hit(PASSWORD_PATTERN, text) {
        Some((SensitiveContentType::Password, CRITICAL_PATTERN_CONFIDENCE))
    } else if pattern_hit(API_KEY_PATTERN, text) {
        Some((SensitiveContentType::ApiKey, API_KEY_PATTERN_CONFIDENCE))
    } else if pattern_hit(EMAIL_PATTERN, text) {
        Some((SensitiveContentType::Email, EMAIL_PATTERN_CONFIDENCE))
    } else {
        let ghost customs_v = views_of(customs@);
        let mut j: usize = 0;
        while j < customs.len()
            invariant
                0 <= j <= customs@.len(),
                customs_v == views_of(customs@),
                !spec_pattern_hit(CREDIT_CARD_PATTERN@, text@),
                !spec_pattern_hit(SSN_PATTERN@, text@),
                !spec_pattern_hit(PASSWORD_PATTERN@, text@),
                !spec_pattern_hit(API_KEY_PATTERN@, text@),
                !spec_pattern_hit(EMAIL_PATTERN@, text@),
                spec_classify_custom(text@, customs_v, 0)
                    == spec_classify_custom(text@, customs_v, j as int),
            decreases customs@.len() - j,
        {
            if pattern_hit(customs[j].as_str(), text) {
                let hit = customs[j].clone();
                proof {
                    assert(customs_v[j as int] == customs@[j as int]@);
                    assert(spec_pattern_hit(customs_v[j as int], text@));
                    assert(spec_classify_custom(text@, customs_v, j as int)
                        == Some((ContentTypeV::Custom(customs_v[j as int]),
                            CUSTOM_PATTERN_CONFIDENCE as int)));
                    assert(ct_view(SensitiveContentType::Custom(hit))
                        == ContentTypeV::Custom(customs_v[j as int]));
                    assert(spec_classify_custom(text@, customs_v, 0)
                        == Some((ContentTypeV::Custom(customs_v[j as int]),
                            CUSTOM_PATTERN_CONFIDENCE as int)));
                    assert(spec_classify(text@, views_of(customs@))
                        == Some((ContentTypeV::Custom(customs_v[j as int]),
                            CUSTOM_PATTERN_CONFIDENCE as int)));
                }
                return Some((SensitiveContentType::Custom(hit), CUSTOM_PATTERN_CONFIDENCE));
            }
            j = j + 1;
        }
        None
    }
}

// ---------------------------------------------------------------------------
// Detection: already-redacted checks and the three detectors.
// ---------------------------------------------------------------------------

/// Views of a sequence of regions.
pub open spec fn region_views(s: Seq<DetectedSensitiveRegion>) -> Seq<RegionV> {
    s.map_values(|r: DetectedSensitiveRegion| region_view(r))
}

/// Views of a sequence of text observations.
pub open spec fn obs_views(s: Seq<TextObservation>) -> Seq<TextObservationV> {
    s.map_values(|o: TextObservation| o@)
}

/// Every colour channel inside the region is zero.
pub open spec fn spec_region_all_black(data: Seq<u8>, width: u32, rv: RegionV) -> bool {
    forall|i: int|
        0 <= i < data.len() && byte_in_region(i, width, rect_of(rv)) && i % 4 != 3
            ==> data[i] == 0
}

/// Every colour channel inside the region equals its block anchor: the
/// region is already pixelated.
pub open spec fn spec_region_block_uniform(data: Seq<u8>, width: u32, rv: RegionV) -> bool {
    forall|i: int|
        0 <= i < data.len() && byte_in_region(i, width, rect_of(rv)) && i % 4 != 3
            ==> data[i] == data[anchor_byte(i, width, rect_of(rv))]
}

/// Scan a region for any non-zero colour channel.
fn region_all_black(data: &Vec<u8>, width: u32, height: u32, region: &DetectedSensitiveRegion)
    -> (r: bool)
    requires
        data@.len() == width * height * 4,
        region_in_frame(*region, width, height),
    ensures
        r == spec_region_all_black(data@, width, region@),
{
    let n: usize = data.len();
    let y_end: u32 = region.y + region.height;
    let x_end: u32 = region.x + region.width;
    let mut py: u32 = region.y;
    while py < y_end
        invariant
            data@.len() == width * height * 4,
            n == data@.len(),
            region_in_frame(*region, width, height),
            y_end == region.y + region.height,
            x_end == region.x + region.width,
            region.y <= py <= y_end,
            forall|i: int|
                0 <= i < data@.len() && byte_in_region(i, width, rect_of(region@)) && i % 4 != 3
                    && py_of(i, width) < py ==> data@[i] == 0,
        decreases y_end - py,
    {
        let mut px: u32 = region.x;
        while px < x_end
            invariant
                data@.len() == width * height * 4,
                n == data@.len(),
                region_in_frame(*region, width, height),
                y_end == region.y + region.height,
                x_end == region.x + region.width,
                region.y <= py < y_end,
                region.x <= px <= x_end,
                forall|i: int|
                    0 <= i < data@.len() && byte_in_region(i, width, rect_of(region@)) && i % 4 != 3
                        && py_of(i, width) < py ==> data@[i] == 0,
                forall|i: int|
                    0 <= i < data@.len() && byte_in_region(i, width, rect_of(region@)) && i % 4 != 3
                        && py_of(i, width) == py && px_of(i, width) < px ==> data@[i] == 0,
            decreases x_end - px,
        {
            proof {
                lemma_byte_at_bound(px as int, py as int, 0, width, height);
                lemma_byte_at_bound(px as int, py as int, 2, width, height);
            }
            let base: u64 = ((py as u64) * (width as u64) + (px as u64)) * 4;
            let mut c: u32 = 0;
            while c < 3
                invariant
                    data@.len() == width * height * 4,
                    n == data@.len(),
                    region_in_frame(*region, width, height),
                    region.y <= py < region.y + region.height,
                    region.x <= px < region.x + region.width,
                    base == byte_at(px as int, py as int, 0, width),
                    0 <= base && base + 3 < n,
                    0 <= c <= 3,
                    forall|k: int| 0 <= k < c ==> #[trigger] data@[base + k] == 0,
                decreases 3 - c,
            {
                if data[(base + c as u64) as usize] != 0 {
                    proof {
                        lemma_byte_at_coords(px as int, py as int, c as int, width);
                        assert(byte_in_region(base + c, width, rect_of(region@)));
                        assert(!spec_region_all_black(data@, width, region@));
                    }
                    return false;
                }
                c = c + 1;
            }
            proof {
                let w = width;
                assert forall|i: int|
                    0 <= i < data@.len() && byte_in_region(i, w, rect_of(region@)) && i % 4 != 3
                        && (py_of(i, w) < py || (py_of(i, w) == py && px_of(i, w) < px + 1))
                        implies data@[i] == 0 by {
                    lemma_coords_byte_at(i, w, height);
                    if py_of(i, w) == py as int && px_of(i, w) == px as int {
                        lemma_byte_at_coords(px as int, py as int, i % 4, w);
                        assert(i == base + i % 4);
                    }
                }
            }
            px = px + 1;
        }
        py = py + 1;
    }
    proof {
        assert forall|i: int|
            0 <= i < data@.len() && byte_in_region(i, width, rect_of(region@)) && i % 4 != 3
                implies data@[i] == 0 by {
            lemma_coords_byte_at(i, width, height);
        }
    }
    true
}

/// Scan a region for any colour channel that differs from its block
/// anchor.
fn region_block_uniform(data: &Vec<u8>, width: u32, height: u32, region: &DetectedSensitiveRegion)
    -> (r: bool)
    requires
        data@.len() == width * height * 4,
        region_in_frame(*region, width, height),
    ensures
        r == spec_region_block_uniform(data@, width, region@),
{
    let n: usize = data.len();
    let y_end: u32 = region.y + region.height;
    let x_end: u32 = region.x + region.width;
    let mut py: u32 = region.y;
    while py < y_end
        invariant
            data@.len() == width * height * 4,
            n == data@.len(),
            region_in_frame(*region, width, height),
            y_end == region.y + region.height,
            x_end == region.x + region.width,
            region.y <= py <= y_end,
            forall|i: int|
                0 <= i < data@.len() && byte_in_region(i, width, rect_of(region@)) && i % 4 != 3
                    && py_of(i, width) < py
                    ==> data@[i] == data@[anchor_byte(i, width, rect_of(region@))],
        decreases y_end - py,
    {
        let mut px: u32 = region.x;
        while px < x_end
            invariant
                data@.len() == width * height * 4,
                n == data@.len(),
                region_in_frame(*region, width, height),
                y_end == region.y + region.height,
                x_end == region.x + region.width,
                region.y <= py < y_end,
                region.x <= px <= x_end,
                forall|i: int|
                    0 <= i < data@.len() && byte_in_region(i, width, rect_of(region@)) && i % 4 != 3
                        && py_of(i, width) < py
                        ==> data@[i] == data@[anchor_byte(i, width, rect_of(region@))],
                forall|i: int|
                    0 <= i < data@.len() && byte_in_region(i, width, rect_of(region@)) && i % 4 != 3
                        && py_of(i, width) == py && px_of(i, width) < px
                        ==> data@[i] == data@[anchor_byte(i, width, rect_of(region@))],
            decreases x_end - px,
        {
            let ax: u32 = region.x + (px - region.x) / PIXEL_BLOCK * PIXEL_BLOCK;
            let ay: u32 = region.y + (py - region.y) / PIXEL_BLOCK * PIXEL_BLOCK;
            proof {
                lemma_byte_at_bound(px as int, py as int, 0, width, height);
                lemma_byte_at_bound(px as int, py as int, 2, width, height);
                assert(region.x <= ax <= px && region.y <= ay <= py) by (nonlinear_arith)
                    requires
                        ax == region.x + (px - region.x) / (PIXEL_BLOCK as int) * (PIXEL_BLOCK as int),
                        ay == region.y + (py - region.y) / (PIXEL_BLOCK as int) * (PIXEL_BLOCK as int),
                        region.x <= px,
                        region.y <= py,
                        PIXEL_BLOCK == 8;
                lemma_byte_at_bound(ax as int, ay as int, 0, width, height);
                lemma_byte_at_bound(ax as int, ay as int, 2, width, height);
            }
            let base: u64 = ((py as u64) * (width as u64) + (px as u64)) * 4;
            let abase: u64 = ((ay as u64) * (width as u64) + (ax as u64)) * 4;
            let mut c: u32 = 0;
            while c < 3
                invariant
                    data@.len() == width * height * 4,
                    n == data@.len(),
                    region_in_frame(*region, width, height),
                    region.y <= py < region.y + region.height,
                    region.x <= px < region.x + region.width,
                    base == byte_at(px as int, py as int, 0, width),
                    abase == byte_at(ax as int, ay as int, 0, width),
                    ax == region.x + (px - region.x) / (PIXEL_BLOCK as int) * (PIXEL_BLOCK as int),
                    ay == region.y + (py - region.y) / (PIXEL_BLOCK as int) * (PIXEL_BLOCK as int),
                    0 <= base && base + 3 < n,
                    0 <= abase && abase + 3 < n,
                    0 <= c <= 3,
                    forall|k: int| 0 <= k < c ==> #[trigger] data@[base + k] == data@[abase + k],
                decreases 3 - c,
            {
                if data[(base + c as u64) as usize] != data[(abase + c as u64) as usize] {
                    proof {
                        lemma_byte_at_coords(px as int, py as int, c as int, width);
                        lemma_byte_at_coords(ax as int, ay as int, c as int, width);
                        assert(byte_in_region(base + c, width, rect_of(region@)));
                        assert(anchor_byte(base + c, width, rect_of(region@)) == abase + c);
                        assert(!spec_region_block_uniform(data@, width, region@));
                    }
                    return false;
                }
                c = c + 1;
            }
            proof {
                let w = width;
                let rr = rect_of(region@);
                assert forall|i: int|
                    0 <= i < data@.len() && byte_in_region(i, w, rr) && i % 4 != 3
                        && (py_of(i, w) < py || (py_of(i, w) == py && px_of(i, w) < px + 1))
                        implies data@[i] == data@[anchor_byte(i, w, rr)] by {
                    lemma_coords_byte_at(i, w, height);
                    if py_of(i, w) == py as int && px_of(i, w) == px as int {
                        lemma_byte_at_coords(px as int, py as int, i % 4, w);
                        lemma_byte_at_coords(ax as int, ay as int, i % 4, w);
                        assert(i == base + i % 4);
                        assert(anchor_byte(i, w, rr) == abase + i % 4);
                    }
                }
            }
            px = px + 1;
        }
        py = py + 1;
    }
    proof {
        assert forall|i: int|
            0 <= i < data@.len() && byte_in_region(i, width, rect_of(region@)) && i % 4 != 3
                implies data@[i] == data@[anchor_byte(i, width, rect_of(region@))] by {
            lemma_coords_byte_at(i, width, height);
        }
    }
    true
}

// ---------------------------------------------------------------------------
// Redaction style dispatch.
// ---------------------------------------------------------------------------

/// How a kept region is redacted.
pub ghost enum RedactionStyle {
    /// Colour channels zeroed.
    Blackout,
    /// Eight-by-eight block pixelation.
    Pixelate,
    /// Box blur with the given radius.
    Blur { radius: int },
    /// Left as is (low risk below the sensitivity floor).
    Untouched,
}

/// Risk of a content kind, at the view level.
pub open spec fn risk_of_ct_v(ct: ContentTypeV) -> RiskLevel {
    match ct {
        ContentTypeV::CreditCard => RiskLevel::Critical,
        ContentTypeV::SocialSecurityNumber => RiskLevel::Critical,
        ContentTypeV::Password => RiskLevel::Critical,
        ContentTypeV::ApiKey => RiskLevel::High,
        ContentTypeV::Email => RiskLevel::High,
        ContentTypeV::FinancialData => RiskLevel::High,
        ContentTypeV::PersonalInformation => RiskLevel::Medium,
        ContentTypeV::FaceDetection => RiskLevel::Medium,
        ContentTypeV::Custom(_) => RiskLevel::Medium,
    }
}

/// Blur strength of a risk level, per mille.
pub open spec fn spec_risk_strength(r: RiskLevel) -> int {
    if r == RiskLevel::Critical { 1000 } else if r == RiskLevel::High { 700 } else { 400 }
}

/// The redaction a region receives: blackout for the critical identity
/// and credential kinds, pixelation for structured text, otherwise box
/// blur whose radius scales with risk strength and blur intensity; a
/// low-risk region is redacted only when sensitivity is High or above.
pub open spec fn spec_style_of(rv: RegionV, cfg: PrivacyConfigV) -> RedactionStyle {
    match rv.content_type {
        ContentTypeV::CreditCard => RedactionStyle::Blackout,
        ContentTypeV::SocialSecurityNumber => RedactionStyle::Blackout,
        ContentTypeV::Password => RedactionStyle::Blackout,
        ContentTypeV::ApiKey => RedactionStyle::Pixelate,
        ContentTypeV::Email => RedactionStyle::Pixelate,
        _ => {
            if rv.risk_level == RiskLevel::Low && sensitivity_rank(cfg.sensitivity_level) < 3 {
                RedactionStyle::Untouched
            } else {
                let strength = spec_risk_strength(rv.risk_level);
                let scaled = if rv.content_type is FaceDetection {
                    strength
                } else {
                    strength * cfg.blur_intensity_milli / 1000
                };
                RedactionStyle::Blur { radius: min_int(scaled * 5 / 1000, 5) }
            }
        },
    }
}

/// One redaction applied to the frame, as a function of the buffer.
pub open spec fn spec_apply_region(
    data: Seq<u8>,
    width: u32,
    rv: RegionV,
    cfg: PrivacyConfigV,
) -> Seq<u8> {
    match spec_style_of(rv, cfg) {
        RedactionStyle::Blackout => spec_blackout(data, width, rect_of(rv)),
        RedactionStyle::Pixelate => spec_pixelate(data, width, rect_of(rv)),
        RedactionStyle::Blur { radius } => spec_box_blur(data, width, rect_of(rv), radius as u32),
        RedactionStyle::Untouched => data,
    }
}

/// Whether the region is already redacted in its own style, so that
/// re-scanning it must produce no new detection.
pub open spec fn spec_already_redacted(
    data: Seq<u8>,
    width: u32,
    rv: RegionV,
    cfg: PrivacyConfigV,
) -> bool {
    match spec_style_of(rv, cfg) {
        RedactionStyle::Blackout => spec_region_all_black(data, width, rv),
        RedactionStyle::Pixelate => spec_region_block_uniform(data, width, rv),
        _ => false,
    }
}

// ---------------------------------------------------------------------------
// The three detectors, at the view level.
// ---------------------------------------------------------------------------

/// The simulated text detection of large frames: an e-mail region in
/// the upper right corner.
pub open spec fn sim_email_region(width: u32) -> RegionV {
    RegionV {
        x: width - 300,
        y: 50,
        width: 250,
        height: 30,
        confidence: 950,
        content_type: ContentTypeV::Email,
        risk_level: RiskLevel::High,
    }
}

/// Candidate of the simulated large-frame text detection.
pub open spec fn spec_sim_text_candidates(
    data: Seq<u8>,
    width: u32,
    height: u32,
    cfg: PrivacyConfigV,
) -> Seq<RegionV> {
    if width > 1920 && height > 1080
        && !spec_already_redacted(data, width, sim_email_region(width), cfg) {
        seq![sim_email_region(width)]
    } else {
        Seq::empty()
    }
}

/// The region of one observation, classified.
pub open spec fn spec_obs_region(o: TextObservationV, ct: ContentTypeV, conf: int) -> RegionV {
    RegionV {
        x: o.x,
        y: o.y,
        width: o.width,
        height: o.height,
        confidence: conf,
        content_type: ct,
        risk_level: risk_of_ct_v(ct),
    }
}

/// Whether an observation rectangle is non-empty and inside the frame.
pub open spec fn spec_obs_fits(o: TextObservationV, width: u32, height: u32) -> bool {
    &&& 0 <= o.x
    &&& 0 <= o.y
    &&& 1 <= o.width
    &&& 1 <= o.height
    &&& o.x + o.width <= width
    &&& o.y + o.height <= height
}

/// Candidates from the reported text observations, from index `j` on:
/// an observation contributes a region when it fits the frame, its
/// text classifies as sensitive, and the region is not already
/// redacted.
pub open spec fn spec_obs_candidates(
    data: Seq<u8>,
    width: u32,
    height: u32,
    obs: Seq<TextObservationV>,
    cfg: PrivacyConfigV,
    j: int,
) -> Seq<RegionV>
    decreases obs.len() - j,
{
    if j < 0 || j >= obs.len() {
        Seq::empty()
    } else {
        let head = match spec_classify(obs[j].text, cfg.custom_patterns) {
            Some((ct, conf)) => {
                let rv = spec_obs_region(obs[j], ct, conf);
                if spec_obs_fits(obs[j], width, height)
                    && !spec_already_redacted(data, width, rv, cfg) {
                    seq![rv]
                } else {
                    Seq::empty()
                }
            },
            None => Seq::empty(),
        };
        head + spec_obs_candidates(data, width, height, obs, cfg, j + 1)
    }
}

/// Candidate of the simulated content-analysis scorer: a financial
/// data region on large frames, at high sensitivity.
pub open spec fn spec_content_candidates(
    data: Seq<u8>,
    width: u32,
    height: u32,
    cfg: PrivacyConfigV,
) -> Seq<RegionV> {
    if cfg.enable_screen_content_analysis && sensitivity_rank(cfg.sensitivity_level) >= 3
        && width > 1200 && height > 800 {
        seq![RegionV {
            x: 100,
            y: 200,
            width: 200,
            height: 150,
            confidence: 780,
            content_type: ContentTypeV::FinancialData,
            risk_level: RiskLevel::High,
        }]
    } else {
        Seq::empty()
    }
}

/// Candidate of the face-region heuristic, at medium sensitivity or
/// above.
pub open spec fn spec_face_candidates(
    data: Seq<u8>,
    width: u32,
    height: u32,
    cfg: PrivacyConfigV,
) -> Seq<RegionV> {
    if cfg.enable_face_blurring && sensitivity_rank(cfg.sensitivity_level) >= 2
        && min_int(width as int / 8, height as int / 6) >= 1 {
        seq![RegionV {
            x: width as int / 4,
            y: height as int / 4,
            width: min_int(width as int / 8, height as int / 6),
            height: min_int(width as int / 8, height as int / 6),
            confidence: 850,
            content_type: ContentTypeV::FaceDetection,
            risk_level: RiskLevel::Medium,
        }]
    } else {
        Seq::empty()
    }
}

/// All detector candidates, in detector order: pattern text (simulated
/// plus observations), content analysis, face heuristics.
pub open spec fn spec_candidates(
    data: Seq<u8>,
    width: u32,
    height: u32,
    obs: Seq<TextObservationV>,
    cfg: PrivacyConfigV,
) -> Seq<RegionV> {
    let text = if cfg.enable_pattern_matching {
        spec_sim_text_candidates(data, width, height, cfg)
            + spec_obs_candidates(data, width, height, obs, cfg, 0)
    } else {
        Seq::empty()
    };
    text + spec_content_candidates(data, width, height, cfg)
        + spec_face_candidates(data, width, height, cfg)
}

// ---------------------------------------------------------------------------
// Merge stage: threshold, stable sort by confidence, greedy dedup.
// ---------------------------------------------------------------------------

/// The regions at or above the confidence threshold, in order.
pub open spec fn spec_threshold(s: Seq<RegionV>, t: int) -> Seq<RegionV>
    decreases s.len(),
{
    if s.len() == 0 {
        Seq::empty()
    } else {
        let head: Seq<RegionV> = if s[0].confidence >= t { seq![s[0]] } else { Seq::empty() };
        head + spec_threshold(s.drop_first(), t)
    }
}

/// Insert a region into a descending-by-confidence list, after every
/// element of at least its confidence (stable).
pub open spec fn spec_insert_desc(x: RegionV, s: Seq<RegionV>) -> Seq<RegionV>
    decreases s.len(),
{
    if s.len() == 0 {
        seq![x]
    } else if s[0].confidence >= x.confidence {
        seq![s[0]] + spec_insert_desc(x, s.drop_first())
    } else {
        seq![x] + s
    }
}

/// Stable insertion sort, descending by confidence.
pub open spec fn spec_sort_desc(s: Seq<RegionV>) -> Seq<RegionV>
    decreases s.len(),
{
    if s.len() == 0 {
        Seq::empty()
    } else {
        spec_insert_desc(s.last(), spec_sort_desc(s.drop_last()))
    }
}

/// Greedy overlap removal: walk the confidence-sorted list and keep a
/// region only when it overlaps nothing kept before it.
pub open spec fn spec_greedy(s: Seq<RegionV>, acc: Seq<RegionV>) -> Seq<RegionV>
    decreases s.len(),
{
    if s.len() == 0 {
        acc
    } else if exists|k: int| 0 <= k < acc.len() && regions_v_overlap(s[0], #[trigger] acc[k]) {
        spec_greedy(s.drop_first(), acc)
    } else {
        spec_greedy(s.drop_first(), acc.push(s[0]))
    }
}

/// The regions the merge stage keeps for redaction.
pub open spec fn spec_kept_regions(
    data: Seq<u8>,
    width: u32,
    height: u32,
    obs: Seq<TextObservationV>,
    cfg: PrivacyConfigV,
) -> Seq<RegionV> {
    spec_greedy(
        spec_sort_desc(
            spec_threshold(
                spec_candidates(data, width, height, obs, cfg),
                cfg.detection_confidence_threshold_milli,
            ),
        ),
        Seq::empty(),
    )
}

/// The kept regions, redacted in order over the buffer.
pub open spec fn spec_redact_seq(
    data: Seq<u8>,
    width: u32,
    rs: Seq<RegionV>,
    cfg: PrivacyConfigV,
) -> Seq<u8>
    decreases rs.len(),
{
    if rs.len() == 0 {
        data
    } else {
        spec_redact_seq(spec_apply_region(data, width, rs[0], cfg), width, rs.drop_first(), cfg)
    }
}

/// What the privacy filter does to a well-formed frame buffer.
pub open spec fn spec_process_frame(
    data: Seq<u8>,
    width: u32,
    height: u32,
    obs: Seq<TextObservationV>,
    cfg: PrivacyConfigV,
) -> Seq<u8> {
    spec_redact_seq(data, width, spec_kept_regions(data, width, height, obs, cfg), cfg)
}

// ---------------------------------------------------------------------------
// The filter itself.
// ---------------------------------------------------------------------------

/// The custom patterns that compile, in order.
pub open spec fn spec_compiling(ps: Seq<Seq<char>>) -> Seq<Seq<char>>
    decreases ps.len(),
{
    if ps.len() == 0 {
        Seq::empty()
    } else {
        spec_compiling(ps.drop_last())
            + (if pattern_compiles(ps.last()) { seq![ps.last()] } else { Seq::empty() })
    }
}

/// The configuration a freshly built filter holds: the one given, with
/// the custom patterns that do not compile dropped.
pub open spec fn spec_new_config(cfg: PrivacyConfigV) -> PrivacyConfigV {
    PrivacyConfigV { custom_patterns: spec_compiling(cfg.custom_patterns), ..cfg }
}

/// Whether a pattern is accepted by the regex compiler.
fn pattern_ok(pattern: &str) -> (r: bool)
    ensures
        r == pattern_compiles(pattern@),
{
    match match_pattern(pattern, "") {
        Some(_) => true,
        None => false,
    }
}

/// Privacy filtering engine: compiled detection patterns plus the
/// redaction dispatch.
pub struct AdvancedPrivacyFilter {
    config: PrivacyConfig,
}

impl View for AdvancedPrivacyFilter {
    type V = PrivacyConfigV;

    closed spec fn view(&self) -> PrivacyConfigV {
        self.config@
    }
}

impl AdvancedPrivacyFilter {
    /// Build a filter: each built-in pattern must compile, and custom
    /// patterns that do not compile are dropped.
    pub fn new(config: PrivacyConfig) -> (r: PrivacyResult<Self>)
        ensures
            r is Ok <==> pattern_compiles(CREDIT_CARD_PATTERN@)
                && pattern_compiles(SSN_PATTERN@)
                && pattern_compiles(PASSWORD_PATTERN@)
                && pattern_compiles(API_KEY_PATTERN@)
                && pattern_compiles(EMAIL_PATTERN@),
            r matches Ok(f) ==> f@ == spec_new_config(config@),
            r matches Err(e) ==> e is PatternCompilationFailed,
    {
        if !pattern_ok(CREDIT_CARD_PATTERN) {
            return Err(PrivacyError::PatternCompilationFailed {
                pattern: CREDIT_CARD_PATTERN.to_owned(),
            });
        }
        if !pattern_ok(SSN_PATTERN) {
            return Err(PrivacyError::PatternCompilationFailed { pattern: SSN_PATTERN.to_owned() });
        }
        if !pattern_ok(PASSWORD_PATTERN) {
            return Err(PrivacyError::PatternCompilationFailed {
                pattern: PASSWORD_PATTERN.to_owned(),
            });
        }
        if !pattern_ok(API_KEY_PATTERN) {
            return Err(PrivacyError::PatternCompilationFailed {
                pattern: API_KEY_PATTERN.to_owned(),
            });
        }
        if !pattern_ok(EMAIL_PATTERN) {
            return Err(PrivacyError::PatternCompilationFailed { pattern: EMAIL_PATTERN.to_owned() });
        }
        let mut kept: Vec<String> = Vec::new();
        let mut i: usize = 0;
        while i < config.custom_patterns.len()
            invariant
                0 <= i <= config.custom_patterns@.len(),
                views_of(kept@) == spec_compiling(views_of(config.custom_patterns@).take(i as int)),
            decreases config.custom_patterns@.len() - i,
        {
            let ghost pre = views_of(config.custom_patterns@).take(i as int);
            let ghost post = views_of(config.custom_patterns@).take(i as int + 1);
            proof {
                assert(post.drop_last() =~= pre);
                assert(post.last() == config.custom_patterns@[i as int]@);
            }
            if pattern_ok(config.custom_patterns[i].as_str()) {
                kept.push(config.custom_patterns[i].clone());
                proof {
                    assert(views_of(kept@) =~= spec_compiling(post));
                }
            } else {
                proof {
                    assert(views_of(kept@) =~= spec_compiling(post));
                }
            }
            i = i + 1;
        }
        proof {
            assert(views_of(config.custom_patterns@).take(config.custom_patterns@.len() as int)
                =~= views_of(config.custom_patterns@));
        }
        let filtered = PrivacyConfig {
            enable_text_detection: config.enable_text_detection,
            enable_pattern_matching: config.enable_pattern_matching,
            enable_face_blurring: config.enable_face_blurring,
            enable_screen_content_analysis: config.enable_screen_content_analysis,
            sensitivity_level: config.sensitivity_level,
            custom_patterns: kept,
            blur_intensity_milli: config.blur_intensity_milli,
            detection_confidence_threshold_milli: config.detection_confidence_threshold_milli,
        };
        Ok(AdvancedPrivacyFilter { config: filtered })
    }

    /// Detect sensitive regions: pattern matching over the reported
    /// text, the content-analysis scorer, and the face heuristic.
    fn detect_sensitive_regions(
        &self,
        data: &Vec<u8>,
        width: u32,
        height: u32,
        observations: &Vec<TextObservation>,
    ) -> (cands: Vec<DetectedSensitiveRegion>)
        requires
            data@.len() == width * height * 4,
        ensures
            region_views(cands@) == spec_candidates(data@, width, height,
                obs_views(observations@), self@),
            forall|k: int| 0 <= k < cands@.len()
                ==> region_in_frame(#[trigger] cands@[k], width, height),
    {
        let mut cands: Vec<DetectedSensitiveRegion> = Vec::new();
        let ghost cfg = self@;
        let ghost obs_v = obs_views(observations@);
        if self.config.enable_pattern_matching {
            if width > 1920 && height > 1080 {
                let sim = DetectedSensitiveRegion {
                    x: width - 300,
                    y: 50,
                    width: 250,
                    height: 30,
                    confidence_milli: 950,
                    content_type: SensitiveContentType::Email,
                    risk_level: RiskLevel::High,
                };
                proof {
                    assert(region_view(sim) == sim_email_region(width));
                    assert(spec_style_of(sim_email_region(width), cfg) is Pixelate);
                }
                if !region_block_uniform(data, width, height, &sim) {
                    cands.push(sim);
                }
            }
            proof {
                assert(region_views(cands@) =~= spec_sim_text_candidates(data@, width, height, cfg));
            }
            let ghost base = spec_sim_text_candidates(data@, width, height, cfg);
            let ghost mut emitted: Seq<RegionV> = Seq::empty();
            let mut j: usize = 0;
            while j < observations.len()
                invariant
                    data@.len() == width * height * 4,
                    cfg == self@,
                    obs_v == obs_views(observations@),
                    base == spec_sim_text_candidates(data@, width, height, cfg),
                    0 <= j <= observations@.len(),
                    region_views(cands@) =~= base + emitted,
                    spec_obs_candidates(data@, width, height, obs_v, cfg, 0)
                        =~= emitted + spec_obs_candidates(data@, width, height, obs_v, cfg, j as int),
                    forall|k: int| 0 <= k < cands@.len()
                        ==> region_in_frame(#[trigger] cands@[k], width, height),
                decreases observations@.len() - j,
            {
                let ghost before = spec_obs_candidates(data@, width, height, obs_v, cfg, j as int);
                let ghost after = spec_obs_candidates(data@, width, height, obs_v, cfg, j as int + 1);
                let o = &observations[j];
                let fits = 1 <= o.width && 1 <= o.height
                    && (o.x as u64 + o.width as u64) <= width as u64
                    && (o.y as u64 + o.height as u64) <= height as u64;
                proof {
                    assert(fits == spec_obs_fits(obs_v[j as int], width, height));
                }
                match classify_text(o.text.as_str(), &self.config.custom_patterns) {
                    Some((ct, conf)) => {
                        let risk = content_risk(&ct);
                        let region = DetectedSensitiveRegion {
                            x: o.x,
                            y: o.y,
                            width: o.width,
                            height: o.height,
                            confidence_milli: conf,
                            content_type: ct,
                            risk_level: risk,
                        };
                        let ghost rv = region_view(region);
                        proof {
                            assert(spec_classify(obs_v[j as int].text, cfg.custom_patterns)
                                matches Some((sct, sconf)) && ct_view(region.content_type) == sct
                                && region.confidence_milli == sconf);
                            assert(risk_of_ct_v(ct_view(region.content_type))
                                == spec_content_risk(region.content_type));
                            assert(rv == spec_obs_region(obs_v[j as int],
                                ct_view(region.content_type), conf as int));
                        }
                        if fits {
                            let skip = match &region.content_type {
                                SensitiveContentType::CreditCard => region_all_black(data, width, height, &region),
                                SensitiveContentType::SocialSecurityNumber => region_all_black(data, width, height, &region),
                                SensitiveContentType::Password => region_all_black(data, width, height, &region),
                                SensitiveContentType::ApiKey => region_block_uniform(data, width, height, &region),
                                SensitiveContentType::Email => region_block_uniform(data, width, height, &region),
                                _ => false,
                            };
                            proof {
                                assert(skip == spec_already_redacted(data@, width, rv, cfg));
                            }
                            if !skip {
                                let ghost prev_views = region_views(cands@);
                                cands.push(region);
                                proof {
                                    assert(region_views(cands@) =~= prev_views.push(rv));
                                    assert(before =~= seq![rv] + after);
                                    emitted = emitted.push(rv);
                                }
                            } else {
                                proof {
                                    assert(before =~= after);
                                }
                            }
                        } else {
                            proof {
                                assert(before =~= after);
                            }
                        }
                    },
                    None => {
                        proof {
                            assert(before =~= after);
                        }
                    },
                }
                proof {
                    assert(region_views(cands@) =~= base + emitted);
                    assert(spec_obs_candidates(data@, width, height, obs_v, cfg, 0)
                        =~= emitted + after);
                }
                j = j + 1;
            }
            proof {
                let full = spec_obs_candidates(data@, width, height, obs_v, cfg, 0);
                let tail = spec_obs_candidates(data@, width, height, obs_v, cfg,
                    observations@.len() as int);
                assert(tail =~= Seq::<RegionV>::empty());
                assert(emitted =~= full);
                assert(region_views(cands@) =~= base + full);
            }
        }
        proof {
            let text = if cfg.enable_pattern_matching {
                spec_sim_text_candidates(data@, width, height, cfg)
                    + spec_obs_candidates(data@, width, height, obs_v, cfg, 0)
            } else {
                Seq::<RegionV>::empty()
            };
            assert(region_views(cands@) =~= text);
        }
        let ghost text_done = region_views(cands@);
        if self.config.enable_screen_content_analysis
            && self.config.sensitivity_level.rank() >= 3 && width > 1200 && height > 800 {
            let region = DetectedSensitiveRegion {
                x: 100,
                y: 200,
                width: 200,
                height: 150,
                confidence_milli: 780,
                content_type: SensitiveContentType::FinancialData,
                risk_level: RiskLevel::High,
            };
            cands.push(region);
        }
        proof {
            assert(region_views(cands@) =~= text_done
                + spec_content_candidates(data@, width, height, cfg));
        }
        let ghost content_done = region_views(cands@);
        if self.config.enable_face_blurring && self.config.sensitivity_level.rank() >= 2 {
            let fs_w: u32 = width / 8;
            let fs_h: u32 = height / 6;
            let fs: u32 = if fs_w <= fs_h { fs_w } else { fs_h };
            if fs >= 1 {
                proof {
                    vstd::arithmetic::div_mod::lemma_div_is_ordered_by_denominator(width as int, 4, 8);
                    vstd::arithmetic::div_mod::lemma_div_is_ordered_by_denominator(width as int, 2, 4);
                    vstd::arithmetic::div_mod::lemma_div_is_ordered_by_denominator(height as int, 4, 6);
                    vstd::arithmetic::div_mod::lemma_div_is_ordered_by_denominator(height as int, 2, 4);
                    assert(width as int / 2 + width as int / 2 <= width as int) by (nonlinear_arith);
                    assert(height as int / 2 + height as int / 2 <= height as int) by (nonlinear_arith);
                }
                let region = DetectedSensitiveRegion {
                    x: width / 4,
                    y: height / 4,
                    width: fs,
                    height: fs,
                    confidence_milli: 850,
                    content_type: SensitiveContentType::FaceDetection,
                    risk_level: RiskLevel::Medium,
                };
                cands.push(region);
            }
        }
        proof {
            assert(region_views(cands@) =~= content_done
                + spec_face_candidates(data@, width, height, cfg));
            assert(region_views(cands@) =~= spec_candidates(data@, width, height, obs_v, cfg));
        }
        cands
    }
}

// ---------------------------------------------------------------------------
// Merge stage, redaction dispatch, and frame processing.
// ---------------------------------------------------------------------------

/// `spec_insert_desc` places an element exactly at the first position
/// whose confidence is smaller.
proof fn lemma_insert_desc_at(x: RegionV, s: Seq<RegionV>, k: int)
    requires
        0 <= k <= s.len(),
        forall|i: int| 0 <= i < k ==> #[trigger] s[i].confidence >= x.confidence,
        k < s.len() ==> s[k].confidence < x.confidence,
    ensures
        spec_insert_desc(x, s) == s.take(k) + seq![x] + s.skip(k),
    decreases k,
{
    if k == 0 {
        if s.len() == 0 {
            assert(spec_insert_desc(x, s) =~= s.take(0) + seq![x] + s.skip(0));
        } else {
            assert(spec_insert_desc(x, s) =~= s.take(0) + seq![x] + s.skip(0));
        }
    } else {
        assert(s[0].confidence >= x.confidence);
        lemma_insert_desc_at(x, s.drop_first(), k - 1);
        assert(seq![s[0]] + (s.drop_first().take(k - 1) + seq![x] + s.drop_first().skip(k - 1))
            =~= s.take(k) + seq![x] + s.skip(k));
        assert(spec_insert_desc(x, s) == seq![s[0]] + spec_insert_desc(x, s.drop_first()));
        assert(seq![s[0]] + (s.drop_first().take(k - 1) + seq![x] + s.drop_first().skip(k - 1))
            =~= seq![s[0]] + s.drop_first().take(k - 1) + seq![x] + s.drop_first().skip(k - 1));
    }
}

/// Drop the regions below the confidence threshold, keeping order.
fn filter_by_threshold(
    regions: Vec<DetectedSensitiveRegion>,
    threshold: u32,
    width: u32,
    height: u32,
) -> (out: Vec<DetectedSensitiveRegion>)
    requires
        forall|k: int| 0 <= k < regions@.len()
            ==> region_in_frame(#[trigger] regions@[k], width, height),
    ensures
        region_views(out@) == spec_threshold(region_views(regions@), threshold as int),
        forall|k: int| 0 <= k < out@.len() ==> region_in_frame(#[trigger] out@[k], width, height),
{
    let ghost orig = region_views(regions@);
    let mut v = regions;
    let mut out: Vec<DetectedSensitiveRegion> = Vec::new();
    while v.len() > 0
        invariant
            spec_threshold(orig, threshold as int)
                =~= region_views(out@) + spec_threshold(region_views(v@), threshold as int),
            forall|k: int| 0 <= k < v@.len() ==> region_in_frame(#[trigger] v@[k], width, height),
            forall|k: int| 0 <= k < out@.len() ==> region_in_frame(#[trigger] out@[k], width, height),
        decreases v@.len(),
    {
        let ghost vv = region_views(v@);
        let ghost first = v@[0];
        proof {
            assert(vv[0] == region_view(first));
        }
        let x = v.remove(0);
        proof {
            assert(region_views(v@) =~= vv.drop_first());
            assert(region_view(x) == vv[0]);
        }
        let ghost out_pre = region_views(out@);
        if x.confidence_milli >= threshold {
            out.push(x);
            proof {
                assert(region_views(out@) =~= out_pre.push(vv[0]));
                assert(out_pre + (seq![vv[0]] + spec_threshold(vv.drop_first(), threshold as int))
                    =~= out_pre.push(vv[0]) + spec_threshold(vv.drop_first(), threshold as int));
            }
        } else {
            proof {
                assert(spec_threshold(vv, threshold as int)
                    =~= spec_threshold(vv.drop_first(), threshold as int));
            }
        }
    }
    proof {
        assert(spec_threshold(region_views(v@), threshold as int) =~= Seq::<RegionV>::empty());
        assert(region_views(out@) + Seq::<RegionV>::empty() =~= region_views(out@));
    }
    out
}

/// Stable insertion sort by confidence, descending.
fn sort_by_confidence(
    regions: Vec<DetectedSensitiveRegion>,
    width: u32,
    height: u32,
) -> (out: Vec<DetectedSensitiveRegion>)
    requires
        forall|k: int| 0 <= k < regions@.len()
            ==> region_in_frame(#[trigger] regions@[k], width, height),
    ensures
        region_views(out@) == spec_sort_desc(region_views(regions@)),
        forall|k: int| 0 <= k < out@.len() ==> region_in_frame(#[trigger] out@[k], width, height),
{
    let ghost orig = region_views(regions@);
    let mut v = regions;
    let mut out: Vec<DetectedSensitiveRegion> = Vec::new();
    let ghost mut done: int = 0;
    while v.len() > 0
        invariant
            0 <= done <= orig.len(),
            orig.len() - done == v@.len(),
            region_views(v@) =~= orig.skip(done),
            region_views(out@) == spec_sort_desc(orig.take(done)),
            forall|k: int| 0 <= k < v@.len() ==> region_in_frame(#[trigger] v@[k], width, height),
            forall|k: int| 0 <= k < out@.len() ==> region_in_frame(#[trigger] out@[k], width, height),
        decreases v@.len(),
    {
        let ghost vv = region_views(v@);
        let ghost first = v@[0];
        proof {
            assert(vv[0] == region_view(first));
        }
        let x = v.remove(0);
        proof {
            assert(region_views(v@) =~= vv.drop_first());
            assert(vv.drop_first() =~= orig.skip(done + 1));
            assert(vv =~= orig.skip(done));
            assert(region_view(x) == orig[done]);
        }
        let mut pos: usize = 0;
        while pos < out.len() && out[pos].confidence_milli >= x.confidence_milli
            invariant
                0 <= pos <= out@.len(),
                forall|i: int| 0 <= i < pos
                    ==> #[trigger] region_views(out@)[i].confidence >= region_view(x).confidence,
                region_views(out@) == spec_sort_desc(orig.take(done)),
            decreases out@.len() - pos,
        {
            proof {
                assert(region_views(out@)[pos as int] == region_view(out@[pos as int]));
            }
            pos = pos + 1;
        }
        proof {
            if pos < out.len() {
                assert(region_views(out@)[pos as int] == region_view(out@[pos as int]));
            }
        }
        let ghost out_pre = region_views(out@);
        proof {
            lemma_insert_desc_at(region_view(x), out_pre, pos as int);
        }
        out.insert(pos, x);
        proof {
            assert(region_views(out@)
                =~= out_pre.take(pos as int) + seq![region_view(x)] + out_pre.skip(pos as int));
            assert(region_views(out@) == spec_insert_desc(region_view(x), out_pre));
            assert(orig.take(done + 1).drop_last() =~= orig.take(done));
            assert(orig.take(done + 1).last() == orig[done]);
            assert(spec_sort_desc(orig.take(done + 1))
                == spec_insert_desc(orig[done], spec_sort_desc(orig.take(done))));
            done = done + 1;
        }
    }
    proof {
        assert(orig.take(done) =~= orig);
    }
    out
}

/// Whether a region overlaps any region of a list.
fn overlaps_any(x: &DetectedSensitiveRegion, list: &Vec<DetectedSensitiveRegion>) -> (r: bool)
    ensures
        r == exists|k: int| 0 <= k < region_views(list@).len()
            && regions_v_overlap(region_view(*x), #[trigger] region_views(list@)[k]),
{
    let mut k: usize = 0;
    while k < list.len()
        invariant
            0 <= k <= list@.len(),
            forall|i: int| 0 <= i < k
                ==> !regions_v_overlap(region_view(*x), #[trigger] region_views(list@)[i]),
        decreases list@.len() - k,
    {
        if regions_overlap(x, &list[k]) {
            proof {
                assert(regions_v_overlap(region_view(*x), region_views(list@)[k as int]));
            }
            return true;
        }
        proof {
            assert(!regions_v_overlap(region_view(*x), region_views(list@)[k as int]));
        }
        k = k + 1;
    }
    false
}

/// Greedy overlap removal over a confidence-sorted list: keep a region
/// only when it overlaps nothing kept before it.
fn dedup_overlaps(
    regions: Vec<DetectedSensitiveRegion>,
    width: u32,
    height: u32,
) -> (out: Vec<DetectedSensitiveRegion>)
    requires
        forall|k: int| 0 <= k < regions@.len()
            ==> region_in_frame(#[trigger] regions@[k], width, height),
    ensures
        region_views(out@) == spec_greedy(region_views(regions@), Seq::empty()),
        forall|k: int| 0 <= k < out@.len() ==> region_in_frame(#[trigger] out@[k], width, height),
{
    let ghost orig = region_views(regions@);
    let mut v = regions;
    let mut out: Vec<DetectedSensitiveRegion> = Vec::new();
    proof {
        assert(region_views(out@) =~= Seq::<RegionV>::empty());
    }
    while v.len() > 0
        invariant
            spec_greedy(orig, Seq::empty())
                == spec_greedy(region_views(v@), region_views(out@)),
            forall|k: int| 0 <= k < v@.len() ==> region_in_frame(#[trigger] v@[k], width, height),
            forall|k: int| 0 <= k < out@.len() ==> region_in_frame(#[trigger] out@[k], width, height),
        decreases v@.len(),
    {
        let ghost vv = region_views(v@);
        let ghost first = v@[0];
        proof {
            assert(vv[0] == region_view(first));
        }
        let x = v.remove(0);
        proof {
            assert(region_views(v@) =~= vv.drop_first());
            assert(region_view(x) == vv[0]);
        }
        let ghost out_pre = region_views(out@);
        if overlaps_any(&x, &out) {
            proof {
                assert(spec_greedy(vv, out_pre) == spec_greedy(vv.drop_first(), out_pre));
            }
        } else {
            out.push(x);
            proof {
                assert(region_views(out@) =~= out_pre.push(vv[0]));
                assert(spec_greedy(vv, out_pre) == spec_greedy(vv.drop_first(), out_pre.push(vv[0])));
            }
        }
    }
    proof {
        assert(region_views(v@) =~= Seq::<RegionV>::empty());
    }
    out
}

/// Blur window sums depend only on the region rectangle.
proof fn lemma_blur_row_sum_rect(
    data: Seq<u8>,
    width: u32,
    r1: DetectedSensitiveRegion,
    r2: DetectedSensitiveRegion,
    px: int,
    py: int,
    c: int,
    rad: int,
    dy: int,
    k: nat,
)
    requires
        r1.x == r2.x,
        r1.y == r2.y,
        r1.width == r2.width,
        r1.height == r2.height,
    ensures
        blur_row_sum(data, width, r1, px, py, c, rad, dy, k)
            == blur_row_sum(data, width, r2, px, py, c, rad, dy, k),
    decreases k,
{
    if k > 0 {
        lemma_blur_row_sum_rect(data, width, r1, r2, px, py, c, rad, dy, (k - 1) as nat);
    }
}

/// Blur window sums depend only on the region rectangle.
proof fn lemma_blur_win_sum_rect(
    data: Seq<u8>,
    width: u32,
    r1: DetectedSensitiveRegion,
    r2: DetectedSensitiveRegion,
    px: int,
    py: int,
    c: int,
    rad: int,
    m: nat,
)
    requires
        r1.x == r2.x,
        r1.y == r2.y,
        r1.width == r2.width,
        r1.height == r2.height,
    ensures
        blur_win_sum(data, width, r1, px, py, c, rad, m)
            == blur_win_sum(data, width, r2, px, py, c, rad, m),
    decreases m,
{
    if m > 0 {
        lemma_blur_win_sum_rect(data, width, r1, r2, px, py, c, rad, (m - 1) as nat);
        lemma_blur_row_sum_rect(data, width, r1, r2, px, py, c, rad, -rad + (m - 1),
            (2 * rad + 1) as nat);
    }
}

/// The redaction operators depend only on the region rectangle.
proof fn lemma_ops_rect_only(
    data: Seq<u8>,
    width: u32,
    r1: DetectedSensitiveRegion,
    r2: DetectedSensitiveRegion,
    rad: u32,
)
    requires
        r1.x == r2.x,
        r1.y == r2.y,
        r1.width == r2.width,
        r1.height == r2.height,
    ensures
        spec_blackout(data, width, r1) == spec_blackout(data, width, r2),
        spec_pixelate(data, width, r1) == spec_pixelate(data, width, r2),
        spec_box_blur(data, width, r1, rad) == spec_box_blur(data, width, r2, rad),
{
    assert(spec_blackout(data, width, r1) =~= spec_blackout(data, width, r2));
    assert(spec_pixelate(data, width, r1) =~= spec_pixelate(data, width, r2));
    assert forall|i: int| 0 <= i < data.len()
        implies spec_box_blur(data, width, r1, rad)[i] == spec_box_blur(data, width, r2, rad)[i] by {
        if byte_in_region(i, width, r1) && i % 4 != 3 {
            lemma_blur_win_sum_rect(data, width, r1, r2, px_of(i, width), py_of(i, width),
                i % 4, rad as int, (2 * rad + 1) as nat);
        }
    }
    assert(spec_box_blur(data, width, r1, rad) =~= spec_box_blur(data, width, r2, rad));
}

impl AdvancedPrivacyFilter {
    /// Apply the redaction a region calls for: blackout, pixelation or
    /// box blur, dispatched on content type and risk.
    fn apply_one(
        &self,
        data: &mut Vec<u8>,
        width: u32,
        height: u32,
        region: &DetectedSensitiveRegion,
    )
        requires
            old(data)@.len() == width * height * 4,
            region_in_frame(*region, width, height),
        ensures
            final(data)@ == spec_apply_region(old(data)@, width, region@, self@),
    {
        let ghost orig = data@;
        let is_blackout = match &region.content_type {
            SensitiveContentType::CreditCard => true,
            SensitiveContentType::SocialSecurityNumber => true,
            SensitiveContentType::Password => true,
            _ => false,
        };
        let is_pixelate = match &region.content_type {
            SensitiveContentType::ApiKey => true,
            SensitiveContentType::Email => true,
            _ => false,
        };
        if is_blackout {
            apply_blackout(data, width, height, region);
            proof {
                lemma_ops_rect_only(orig, width, *region, rect_of(region@), 0);
            }
        } else if is_pixelate {
            apply_pixelate(data, width, height, region);
            proof {
                lemma_ops_rect_only(orig, width, *region, rect_of(region@), 0);
            }
        } else if region.risk_level == RiskLevel::Low
            && self.config.sensitivity_level.rank() < 3 {
            // low risk below the sensitivity floor: leave the region as is
        } else {
            let strength: u32 = if region.risk_level == RiskLevel::Critical {
                1000
            } else if region.risk_level == RiskLevel::High {
                700
            } else {
                400
            };
            let is_face = match &region.content_type {
                SensitiveContentType::FaceDetection => true,
                _ => false,
            };
            let scaled: u64 = if is_face {
                strength as u64
            } else {
                (strength as u64) * (self.config.blur_intensity_milli as u64) / 1000
            };
            let radius64: u64 = scaled * 5 / 1000;
            let radius: u32 = if radius64 > 5 { 5 } else { radius64 as u32 };
            proof {
                assert(radius as int == min_int(
                    (if region@.content_type is FaceDetection {
                        spec_risk_strength(region@.risk_level)
                    } else {
                        spec_risk_strength(region@.risk_level) * self@.blur_intensity_milli / 1000
                    }) * 5 / 1000,
                    5,
                ));
            }
            apply_box_blur(data, width, height, region, radius);
            proof {
                lemma_ops_rect_only(orig, width, *region, rect_of(region@), radius);
            }
        }
    }

    /// Filter one frame: detect sensitive regions, drop the ones below
    /// the confidence threshold, keep the highest-confidence region of
    /// any overlapping group, and redact each kept region.  Fails
    /// exactly when the buffer length does not match the dimensions.
    pub fn process_frame(
        &self,
        data: &Vec<u8>,
        width: u32,
        height: u32,
        observations: &Vec<TextObservation>,
    ) -> (r: PrivacyResult<Vec<u8>>)
        ensures
            r is Ok <==> data@.len() == width * height * 4,
            r matches Ok(out) ==> out@ == spec_process_frame(data@, width, height,
                obs_views(observations@), self@),
            r matches Err(e) ==> e is FrameProcessingFailed,
    {
        proof {
            assert((width as int) * (height as int) <= 0xffffffff * 0xffffffff)
                by (nonlinear_arith)
                requires width <= 0xffffffffu32, height <= 0xffffffffu32;
        }
        let expected: u128 = (width as u128) * (height as u128) * 4;
        if (data.len() as u128) != expected {
            return Err(PrivacyError::FrameProcessingFailed {
                reason: "frame buffer length does not match the declared dimensions".to_owned(),
            });
        }
        let ghost cfg = self@;
        let ghost obs_v = obs_views(observations@);
        let cands = self.detect_sensitive_regions(data, width, height, observations);
        let passing = filter_by_threshold(cands, self.config.detection_confidence_threshold_milli,
            width, height);
        let sorted = sort_by_confidence(passing, width, height);
        let kept = dedup_overlaps(sorted, width, height);
        let ghost kept_v = region_views(kept@);
        proof {
            assert(kept_v == spec_kept_regions(data@, width, height, obs_v, cfg));
        }
        let mut out = clone_buffer(data);
        proof {
            assert(kept_v.skip(0) =~= kept_v);
        }
        let mut i: usize = 0;
        while i < kept.len()
            invariant
                cfg == self@,
                0 <= i <= kept@.len(),
                kept_v == region_views(kept@),
                out@.len() == width * height * 4,
                forall|k: int| 0 <= k < kept@.len()
                    ==> region_in_frame(#[trigger] kept@[k], width, height),
                spec_redact_seq(data@, width, kept_v, cfg)
                    == spec_redact_seq(out@, width, kept_v.skip(i as int), cfg),
            decreases kept@.len() - i,
        {
            let ghost pre = out@;
            self.apply_one(&mut out, width, height, &kept[i]);
            proof {
                let suffix = kept_v.skip(i as int);
                assert(suffix[0] == kept_v[i as int]);
                assert(suffix.drop_first() =~= kept_v.skip(i as int + 1));
                assert(out@ == spec_apply_region(pre, width, kept_v[i as int], cfg));
                assert(spec_redact_seq(pre, width, suffix, cfg)
                    == spec_redact_seq(out@, width, kept_v.skip(i as int + 1), cfg));
                assert(out@.len() == pre.len());
            }
            i = i + 1;
        }
        proof {
            assert(kept_v.skip(kept_v.len() as int) =~= Seq::<RegionV>::empty());
            assert(spec_redact_seq(out@, width, Seq::empty(), cfg) == out@);
        }
        Ok(out)
    }
}

// ---------------------------------------------------------------------------
// Laws of the filter.
// ---------------------------------------------------------------------------

/// Blacking out a region twice equals blacking it out once.
pub proof fn lemma_blackout_idempotent(data: Seq<u8>, width: u32, r: DetectedSensitiveRegion)
    ensures
        spec_blackout(spec_blackout(data, width, r), width, r) == spec_blackout(data, width, r),
{
    assert(spec_blackout(spec_blackout(data, width, r), width, r)
        =~= spec_blackout(data, width, r));
}

/// Pixelating a region twice equals pixelating it once: the block
/// anchor of a block anchor is itself.
pub proof fn lemma_pixelate_idempotent(
    data: Seq<u8>,
    width: u32,
    height: u32,
    r: DetectedSensitiveRegion,
)
    requires
        0 < width,
        data.len() == width * height * 4,
        region_in_frame(r, width, height),
    ensures
        spec_pixelate(spec_pixelate(data, width, r), width, r) == spec_pixelate(data, width, r),
{
    let once = spec_pixelate(data, width, r);
    assert forall|i: int| 0 <= i < data.len()
        implies spec_pixelate(once, width, r)[i] == once[i] by {
        if byte_in_region(i, width, r) && i % 4 != 3 {
            lemma_coords_byte_at(i, width, height);
            lemma_anchor_in_region(i, width, height, r);
        }
    }
    assert(spec_pixelate(once, width, r) =~= once);
}

/// A redaction leaves every byte outside its region unchanged.
pub proof fn lemma_apply_region_outside(
    data: Seq<u8>,
    width: u32,
    rv: RegionV,
    cfg: PrivacyConfigV,
    j: int,
)
    requires
        0 <= j < data.len(),
        !byte_in_region(j, width, rect_of(rv)),
    ensures
        spec_apply_region(data, width, rv, cfg)[j] == data[j],
        spec_apply_region(data, width, rv, cfg).len() == data.len(),
{
}

/// Redacting a list of regions leaves every byte outside all of their
/// rectangles unchanged.
pub proof fn lemma_redact_seq_outside(
    data: Seq<u8>,
    width: u32,
    rs: Seq<RegionV>,
    cfg: PrivacyConfigV,
    j: int,
)
    requires
        0 <= j < data.len(),
        forall|k: int| 0 <= k < rs.len() ==> !byte_in_region(j, width, rect_of(#[trigger] rs[k])),
    ensures
        spec_redact_seq(data, width, rs, cfg).len() == data.len(),
        spec_redact_seq(data, width, rs, cfg)[j] == data[j],
    decreases rs.len(),
{
    if rs.len() > 0 {
        lemma_apply_region_outside(data, width, rs[0], cfg, j);
        let d1 = spec_apply_region(data, width, rs[0], cfg);
        assert(d1.len() == data.len());
        assert(forall|k: int| 0 <= k < rs.drop_first().len()
            ==> !byte_in_region(j, width, rect_of(#[trigger] rs.drop_first()[k])));
        lemma_redact_seq_outside(d1, width, rs.drop_first(), cfg, j);
    }
}

/// Redacting a list of regions keeps the buffer length.
pub proof fn lemma_redact_seq_len(data: Seq<u8>, width: u32, rs: Seq<RegionV>, cfg: PrivacyConfigV)
    ensures
        spec_redact_seq(data, width, rs, cfg).len() == data.len(),
    decreases rs.len(),
{
    if rs.len() > 0 {
        lemma_redact_seq_len(spec_apply_region(data, width, rs[0], cfg), width, rs.drop_first(), cfg);
    }
}

/// The merge stage keeps pairwise non-overlapping regions.
pub proof fn lemma_greedy_pairwise_disjoint(s: Seq<RegionV>, acc: Seq<RegionV>)
    requires
        forall|k: int, l: int| 0 <= k < acc.len() && 0 <= l < acc.len() && k != l
            ==> !regions_v_overlap(#[trigger] acc[k], #[trigger] acc[l]),
    ensures
        forall|k: int, l: int|
            0 <= k < spec_greedy(s, acc).len() && 0 <= l < spec_greedy(s, acc).len() && k != l
                ==> !regions_v_overlap(
                    #[trigger] spec_greedy(s, acc)[k],
                    #[trigger] spec_greedy(s, acc)[l]),
        acc.len() <= spec_greedy(s, acc).len(),
        forall|k: int| 0 <= k < acc.len() ==> #[trigger] spec_greedy(s, acc)[k] == acc[k],
    decreases s.len(),
{
    if s.len() > 0 {
        if exists|k: int| 0 <= k < acc.len() && regions_v_overlap(s[0], #[trigger] acc[k]) {
            lemma_greedy_pairwise_disjoint(s.drop_first(), acc);
        } else {
            let acc2 = acc.push(s[0]);
            assert forall|k: int, l: int|
                0 <= k < acc2.len() && 0 <= l < acc2.len() && k != l
                    implies !regions_v_overlap(#[trigger] acc2[k], #[trigger] acc2[l]) by {
                if k == acc.len() {
                    assert(!regions_v_overlap(s[0], acc[l]));
                    assert(!regions_v_overlap(acc2[k], acc2[l]));
                } else if l == acc.len() {
                    assert(!regions_v_overlap(s[0], acc[k]));
                }
            }
            lemma_greedy_pairwise_disjoint(s.drop_first(), acc2);
        }
    }
}

/// Blackout and pixelation write values that depend only on the bytes
/// of their own region, and make it scan as already redacted; later
/// redactions of disjoint regions keep it so.  This is the heart of
/// the blackout guarantee: after redacting a pairwise-disjoint list,
/// every region whose style is blackout reads zero in its colour
/// channels, and every pixelated region scans block-uniform.
pub proof fn lemma_redact_seq_region_state(
    data: Seq<u8>,
    width: u32,
    height: u32,
    rs: Seq<RegionV>,
    cfg: PrivacyConfigV,
    i: int,
)
    requires
        0 < width,
        data.len() == width * height * 4,
        0 <= i < rs.len(),
        forall|k: int| 0 <= k < rs.len() ==> region_v_in_frame(#[trigger] rs[k], width, height),
        forall|k: int, l: int| 0 <= k < rs.len() && 0 <= l < rs.len() && k != l
            ==> !regions_v_overlap(#[trigger] rs[k], #[trigger] rs[l]),
    ensures
        spec_style_of(rs[i], cfg) is Blackout
            ==> spec_region_all_black(spec_redact_seq(data, width, rs, cfg), width, rs[i]),
        spec_style_of(rs[i], cfg) is Pixelate
            ==> spec_region_block_uniform(spec_redact_seq(data, width, rs, cfg), width, rs[i]),
    decreases rs.len(),
{
    let d1 = spec_apply_region(data, width, rs[0], cfg);
    lemma_redact_seq_len(data, width, rs, cfg);
    if i == 0 {
        // the first redaction establishes the state; the rest act on
        // disjoint regions and preserve every byte of this one
        let rest = rs.drop_first();
        let out = spec_redact_seq(d1, width, rest, cfg);
        assert(spec_redact_seq(data, width, rs, cfg) == out);
        assert forall|j: int|
            0 <= j < d1.len() && byte_in_region(j, width, rect_of(rs[0]))
                implies #[trigger] out[j] == d1[j] by {
            assert forall|k: int| 0 <= k < rest.len()
                implies !byte_in_region(j, width, rect_of(#[trigger] rest[k])) by {
                assert(rest[k] == rs[k + 1]);
                assert(!regions_v_overlap(rs[0], rs[k + 1]));
                lemma_coords_byte_at(j, width, height);
            }
            lemma_redact_seq_outside(d1, width, rest, cfg, j);
        }
        if spec_style_of(rs[0], cfg) is Blackout {
            assert forall|j: int|
                0 <= j < out.len() && byte_in_region(j, width, rect_of(rs[0])) && j % 4 != 3
                    implies out[j] == 0 by {
                assert(d1[j] == 0);
            }
        }
        if spec_style_of(rs[0], cfg) is Pixelate {
            assert forall|j: int|
                0 <= j < out.len() && byte_in_region(j, width, rect_of(rs[0])) && j % 4 != 3
                    implies out[j] == out[anchor_byte(j, width, rect_of(rs[0]))] by {
                lemma_coords_byte_at(j, width, height);
                lemma_anchor_in_region(j, width, height, rect_of(rs[0]));
                let a = anchor_byte(j, width, rect_of(rs[0]));
                assert(d1[j] == data[a]);
                assert(d1[a] == data[anchor_byte(a, width, rect_of(rs[0]))]);
                assert(out[j] == d1[j] && out[a] == d1[a]);
            }
        }
    } else {
        let rest = rs.drop_first();
        assert forall|k: int| 0 <= k < rest.len()
            implies region_v_in_frame(#[trigger] rest[k], width, height) by {
            assert(rest[k] == rs[k + 1]);
        }
        assert forall|k: int, l: int|
            0 <= k < rest.len() && 0 <= l < rest.len() && k != l
                implies !regions_v_overlap(#[trigger] rest[k], #[trigger] rest[l]) by {
            assert(rest[k] == rs[k + 1] && rest[l] == rs[l + 1]);
        }
        assert(d1.len() == data.len());
        lemma_redact_seq_region_state(d1, width, height, rest, cfg, i - 1);
        assert(rest[i - 1] == rs[i]);
        assert(spec_redact_seq(data, width, rs, cfg) == spec_redact_seq(d1, width, rest, cfg));
    }
}

/// The view-level content kinds that are redacted by blackout.
pub open spec fn is_blackout_ct(ct: ContentTypeV) -> bool {
    ||| ct is CreditCard
    ||| ct is SocialSecurityNumber
    ||| ct is Password
}

/// Critical content is blacked out: in the output of the filter, every
/// kept region redacted by blackout (credit cards, social security
/// numbers, passwords) reads zero in all its colour channels.
pub proof fn lemma_critical_regions_blacked(
    data: Seq<u8>,
    width: u32,
    height: u32,
    obs: Seq<TextObservationV>,
    cfg: PrivacyConfigV,
    i: int,
)
    requires
        0 < width,
        data.len() == width * height * 4,
        0 <= i < spec_kept_regions(data, width, height, obs, cfg).len(),
        forall|k: int| 0 <= k < spec_kept_regions(data, width, height, obs, cfg).len()
            ==> region_v_in_frame(
                #[trigger] spec_kept_regions(data, width, height, obs, cfg)[k], width, height),
        is_blackout_ct(spec_kept_regions(data, width, height, obs, cfg)[i].content_type),
    ensures
        spec_region_all_black(
            spec_process_frame(data, width, height, obs, cfg),
            width,
            spec_kept_regions(data, width, height, obs, cfg)[i],
        ),
{
    let kept = spec_kept_regions(data, width, height, obs, cfg);
    lemma_greedy_pairwise_disjoint(
        spec_sort_desc(spec_threshold(spec_candidates(data, width, height, obs, cfg),
            cfg.detection_confidence_threshold_milli)),
        Seq::empty(),
    );
    assert(spec_style_of(kept[i], cfg) is Blackout);
    lemma_redact_seq_region_state(data, width, height, kept, cfg, i);
}

/// All regions below the threshold are dropped by the merge stage.
proof fn lemma_threshold_all_below(s: Seq<RegionV>, t: int)
    requires
        forall|k: int| 0 <= k < s.len() ==> #[trigger] s[k].confidence < t,
    ensures
        spec_threshold(s, t) == Seq::<RegionV>::empty(),
    decreases s.len(),
{
    if s.len() > 0 {
        assert(s[0].confidence < t);
        assert(forall|k: int| 0 <= k < s.drop_first().len()
            ==> #[trigger] s.drop_first()[k].confidence < t);
        lemma_threshold_all_below(s.drop_first(), t);
        assert(spec_threshold(s, t) =~= Seq::<RegionV>::empty());
    }
}

/// When every detection falls below the confidence threshold, the
/// filter returns the frame byte for byte.
pub proof fn lemma_all_below_threshold_identity(
    data: Seq<u8>,
    width: u32,
    height: u32,
    obs: Seq<TextObservationV>,
    cfg: PrivacyConfigV,
)
    requires
        forall|k: int| 0 <= k < spec_candidates(data, width, height, obs, cfg).len()
            ==> #[trigger] spec_candidates(data, width, height, obs, cfg)[k].confidence
                < cfg.detection_confidence_threshold_milli,
    ensures
        spec_process_frame(data, width, height, obs, cfg) == data,
{
    lemma_threshold_all_below(spec_candidates(data, width, height, obs, cfg),
        cfg.detection_confidence_threshold_milli);
    assert(spec_sort_desc(Seq::<RegionV>::empty()) == Seq::<RegionV>::empty());
    assert(spec_greedy(Seq::<RegionV>::empty(), Seq::<RegionV>::empty())
        == Seq::<RegionV>::empty());
    assert(spec_kept_regions(data, width, height, obs, cfg) == Seq::<RegionV>::empty());
}

/// Two overlapping detections with different confidences, both at or
/// above the threshold, merge to exactly one kept region: the one with
/// the higher confidence.
pub proof fn lemma_dedup_overlapping_pair(a: RegionV, b: RegionV, t: int)
    requires
        a.confidence > b.confidence,
        b.confidence >= t,
        regions_v_overlap(a, b),
    ensures
        spec_greedy(spec_sort_desc(spec_threshold(seq![a, b], t)), Seq::empty()) == seq![a],
        spec_greedy(spec_sort_desc(spec_threshold(seq![b, a], t)), Seq::empty()) == seq![a],
{
    let ab = seq![a, b];
    let ba = seq![b, a];
    assert(spec_threshold(Seq::<RegionV>::empty(), t) =~= Seq::<RegionV>::empty());
    assert(ab.drop_first() =~= seq![b]);
    assert(seq![b].drop_first() =~= Seq::<RegionV>::empty());
    assert(seq![b][0] == b && seq![a][0] == a);
    assert(spec_threshold(seq![b], t) =~= seq![b] + spec_threshold(Seq::<RegionV>::empty(), t));
    assert(spec_threshold(seq![b], t) =~= seq![b]);
    assert(seq![a].drop_first() =~= Seq::<RegionV>::empty());
    assert(spec_threshold(seq![a], t) =~= seq![a] + spec_threshold(Seq::<RegionV>::empty(), t));
    assert(spec_threshold(ab, t) =~= seq![a] + spec_threshold(seq![b], t));
    assert(spec_threshold(ab, t) =~= ab);
    assert(ba.drop_first() =~= seq![a]);
    assert(spec_threshold(seq![a], t) =~= seq![a]);
    assert(spec_threshold(ab, t) =~= seq![a] + spec_threshold(seq![b], t));
    assert(spec_threshold(ba, t) =~= seq![b] + spec_threshold(seq![a], t));
    assert(spec_threshold(ba, t) =~= ba);

    // sorting: both orders sort to [a, b]
    assert(spec_sort_desc(Seq::<RegionV>::empty()) == Seq::<RegionV>::empty());
    assert(ab.drop_last() =~= seq![a]);
    assert(seq![a].drop_last() =~= Seq::<RegionV>::empty());
    assert(seq![a].last() == a && seq![b].last() == b && ab.last() == b && ba.last() == a);
    assert(spec_sort_desc(seq![a])
        == spec_insert_desc(a, spec_sort_desc(seq![a].drop_last())));
    assert(spec_sort_desc(seq![a]) =~= spec_insert_desc(a, Seq::empty()));
    assert(spec_insert_desc(a, Seq::<RegionV>::empty()) =~= seq![a]);
    assert(spec_sort_desc(seq![a]) =~= seq![a]);
    assert(spec_sort_desc(ab) == spec_insert_desc(b, spec_sort_desc(ab.drop_last())));
    assert(spec_sort_desc(ab) =~= spec_insert_desc(b, seq![a]));
    assert(seq![a].drop_first() =~= Seq::<RegionV>::empty());
    assert(spec_insert_desc(b, Seq::<RegionV>::empty()) =~= seq![b]);
    assert(spec_insert_desc(b, seq![a])
        =~= seq![a] + spec_insert_desc(b, seq![a].drop_first()));
    assert(spec_insert_desc(b, seq![a]) =~= seq![a] + seq![b]);
    assert(seq![a] + seq![b] =~= seq![a, b]);
    assert(spec_sort_desc(ab) =~= seq![a, b]);
    assert(ba.drop_last() =~= seq![b]);
    assert(seq![b].drop_last() =~= Seq::<RegionV>::empty());
    assert(spec_sort_desc(seq![b])
        == spec_insert_desc(b, spec_sort_desc(seq![b].drop_last())));
    assert(spec_sort_desc(seq![b]) =~= seq![b]);
    assert(spec_sort_desc(ba) == spec_insert_desc(a, spec_sort_desc(ba.drop_last())));
    assert(spec_sort_desc(ba) =~= spec_insert_desc(a, seq![b]));
    assert(spec_insert_desc(a, seq![b]) =~= seq![a] + seq![b]);
    assert(spec_sort_desc(ba) =~= seq![a, b]);

    // greedy: a enters, b overlaps a and is dropped
    let s = seq![a, b];
    assert(!(exists|k: int| 0 <= k < Seq::<RegionV>::empty().len()
        && regions_v_overlap(s[0], #[trigger] Seq::<RegionV>::empty()[k])));
    assert(spec_greedy(s, Seq::empty())
        == spec_greedy(s.drop_first(), Seq::<RegionV>::empty().push(a)));
    assert(s.drop_first() =~= seq![b]);
    assert(Seq::<RegionV>::empty().push(a) =~= seq![a]);
    assert(regions_v_overlap(b, seq![a][0]));
    assert(exists|k: int| 0 <= k < seq![a].len()
        && regions_v_overlap(seq![b][0], #[trigger] seq![a][k]));
    assert(spec_greedy(seq![b], seq![a]) == spec_greedy(seq![b].drop_first(), seq![a]));
    assert(spec_greedy(Seq::<RegionV>::empty(), seq![a]) == seq![a]);
}

// ---------------------------------------------------------------------------
// Membership through the merge stages, towards idempotence.
// ---------------------------------------------------------------------------

/// Whether a region value occurs in a list.
pub open spec fn regions_contain(s: Seq<RegionV>, x: RegionV) -> bool {
    exists|i: int| 0 <= i < s.len() && s[i] == x
}

/// The threshold stage keeps exactly the elements at or above the
/// threshold, and nothing else.
proof fn lemma_threshold_membership(s: Seq<RegionV>, t: int, x: RegionV)
    ensures
        regions_contain(s, x) && x.confidence >= t ==> regions_contain(spec_threshold(s, t), x),
        regions_contain(spec_threshold(s, t), x) ==> regions_contain(s, x) && x.confidence >= t,
    decreases s.len(),
{
    if s.len() > 0 {
        lemma_threshold_membership(s.drop_first(), t, x);
        let rest = spec_threshold(s.drop_first(), t);
        let head: Seq<RegionV> = if s[0].confidence >= t { seq![s[0]] } else { Seq::empty() };
        assert(spec_threshold(s, t) == head + rest);
        if regions_contain(s, x) && x.confidence >= t {
            let i = choose|i: int| 0 <= i < s.len() && s[i] == x;
            if i == 0 {
                assert((head + rest)[0] == x);
            } else {
                assert(s.drop_first()[i - 1] == x);
                assert(regions_contain(rest, x));
                let k = choose|k: int| 0 <= k < rest.len() && rest[k] == x;
                assert((head + rest)[head.len() + k] == x);
            }
        }
        if regions_contain(spec_threshold(s, t), x) {
            let i = choose|i: int| 0 <= i < (head + rest).len() && (head + rest)[i] == x;
            if i < head.len() {
                assert(x == s[0] && x.confidence >= t);
            } else {
                assert(rest[i - head.len()] == x);
            }
        }
    }
}

/// Insertion keeps the inserted element and everything already there,
/// and introduces nothing else.
proof fn lemma_insert_desc_membership(x: RegionV, s: Seq<RegionV>, y: RegionV)
    ensures
        regions_contain(spec_insert_desc(x, s), y) <==> (y == x || regions_contain(s, y)),
    decreases s.len(),
{
    let out = spec_insert_desc(x, s);
    if s.len() == 0 {
        assert(out == seq![x]);
        assert(regions_contain(out, y) ==> out[choose|i: int| 0 <= i < out.len() && out[i] == y] == y);
        if y == x {
            assert(out[0] == y);
        }
    } else if s[0].confidence >= x.confidence {
        lemma_insert_desc_membership(x, s.drop_first(), y);
        let rest = spec_insert_desc(x, s.drop_first());
        assert(out == seq![s[0]] + rest);
        if regions_contain(out, y) {
            let i = choose|i: int| 0 <= i < out.len() && out[i] == y;
            if i == 0 {
                assert(s[0] == y);
            } else {
                assert(rest[i - 1] == y);
                if y != x {
                    let k = choose|k: int| 0 <= k < s.drop_first().len() && s.drop_first()[k] == y;
                    assert(s[k + 1] == y);
                }
            }
        }
        if y == x || regions_contain(s, y) {
            if y == x || regions_contain(s.drop_first(), y) {
                assert(regions_contain(rest, y));
                let k = choose|k: int| 0 <= k < rest.len() && rest[k] == y;
                assert(out[k + 1] == y);
            } else {
                let i = choose|i: int| 0 <= i < s.len() && s[i] == y;
                if i != 0 {
                    assert(s.drop_first()[i - 1] == y);
                    assert(false);
                }
                assert(out[0] == y);
            }
        }
    } else {
        assert(out == seq![x] + s);
        if regions_contain(out, y) {
            let i = choose|i: int| 0 <= i < out.len() && out[i] == y;
            if i > 0 {
                assert(s[i - 1] == y);
            }
        }
        if y == x {
            assert(out[0] == y);
        }
        if regions_contain(s, y) {
            let i = choose|i: int| 0 <= i < s.len() && s[i] == y;
            assert(out[i + 1] == y);
        }
    }
}

/// Sorting neither adds nor removes element values.
proof fn lemma_sort_desc_membership(s: Seq<RegionV>, y: RegionV)
    ensures
        regions_contain(spec_sort_desc(s), y) <==> regions_contain(s, y),
    decreases s.len(),
{
    if s.len() > 0 {
        lemma_sort_desc_membership(s.drop_last(), y);
        lemma_insert_desc_membership(s.last(), spec_sort_desc(s.drop_last()), y);
        if regions_contain(s, y) {
            let i = choose|i: int| 0 <= i < s.len() && s[i] == y;
            if i < s.len() - 1 {
                assert(s.drop_last()[i] == y);
            }
        }
        if y == s.last() || regions_contain(s.drop_last(), y) {
            if y == s.last() {
                assert(s[s.len() - 1] == y);
            } else {
                let i = choose|i: int| 0 <= i < s.drop_last().len() && s.drop_last()[i] == y;
                assert(s[i] == y);
            }
        }
    }
}

/// Everything the greedy stage keeps comes from its input or its
/// accumulator.
proof fn lemma_greedy_subset(s: Seq<RegionV>, acc: Seq<RegionV>, y: RegionV)
    ensures
        regions_contain(spec_greedy(s, acc), y) ==> (regions_contain(s, y)
            || regions_contain(acc, y)),
    decreases s.len(),
{
    if s.len() > 0 {
        if exists|k: int| 0 <= k < acc.len() && regions_v_overlap(s[0], #[trigger] acc[k]) {
            lemma_greedy_subset(s.drop_first(), acc, y);
            if regions_contain(spec_greedy(s, acc), y) && !regions_contain(acc, y) {
                let i = choose|i: int| 0 <= i < s.drop_first().len() && s.drop_first()[i] == y;
                assert(s[i + 1] == y);
            }
        } else {
            lemma_greedy_subset(s.drop_first(), acc.push(s[0]), y);
            if regions_contain(spec_greedy(s, acc), y) {
                if regions_contain(acc.push(s[0]), y) {
                    let i = choose|i: int| 0 <= i < acc.push(s[0]).len() && acc.push(s[0])[i] == y;
                    if i == acc.len() {
                        assert(s[0] == y);
                    }
                } else if regions_contain(s.drop_first(), y) {
                    let i = choose|i: int| 0 <= i < s.drop_first().len() && s.drop_first()[i] == y;
                    assert(s[i + 1] == y);
                }
            }
        }
    }
}

/// Every input of the greedy stage is either kept or overlaps
/// something kept.
proof fn lemma_greedy_covering(s: Seq<RegionV>, acc: Seq<RegionV>, x: RegionV)
    requires
        regions_contain(s, x),
    ensures
        exists|i: int| 0 <= i < spec_greedy(s, acc).len()
            && ((#[trigger] spec_greedy(s, acc)[i]) == x
                || regions_v_overlap(x, spec_greedy(s, acc)[i])),
    decreases s.len(),
{
    let out = spec_greedy(s, acc);
    let j = choose|j: int| 0 <= j < s.len() && s[j] == x;
    if exists|k: int| 0 <= k < acc.len() && regions_v_overlap(s[0], #[trigger] acc[k]) {
        let k = choose|k: int| 0 <= k < acc.len() && regions_v_overlap(s[0], acc[k]);
        if j == 0 {
            // x overlaps an accumulator element, which the greedy stage keeps
            lemma_greedy_pairwise_disjoint_weak(s.drop_first(), acc);
            assert(spec_greedy(s.drop_first(), acc)[k] == acc[k]);
            assert(regions_v_overlap(x, out[k]));
        } else {
            assert(s.drop_first()[j - 1] == x);
            lemma_greedy_covering(s.drop_first(), acc, x);
        }
    } else {
        let acc2 = acc.push(s[0]);
        if j == 0 {
            // x itself is kept
            lemma_greedy_pairwise_disjoint_weak(s.drop_first(), acc2);
            assert(spec_greedy(s.drop_first(), acc2)[acc.len() as int] == acc2[acc.len() as int]);
            assert(out[acc.len() as int] == x);
        } else {
            assert(s.drop_first()[j - 1] == x);
            lemma_greedy_covering(s.drop_first(), acc2, x);
        }
    }
}

/// The greedy stage keeps its accumulator as a prefix.
proof fn lemma_greedy_pairwise_disjoint_weak(s: Seq<RegionV>, acc: Seq<RegionV>)
    ensures
        acc.len() <= spec_greedy(s, acc).len(),
        forall|k: int| 0 <= k < acc.len() ==> #[trigger] spec_greedy(s, acc)[k] == acc[k],
    decreases s.len(),
{
    if s.len() > 0 {
        if exists|k: int| 0 <= k < acc.len() && regions_v_overlap(s[0], #[trigger] acc[k]) {
            lemma_greedy_pairwise_disjoint_weak(s.drop_first(), acc);
        } else {
            lemma_greedy_pairwise_disjoint_weak(s.drop_first(), acc.push(s[0]));
        }
    }
}

/// The region an observation would contribute, before the
/// already-redacted check: its classification applied to its
/// rectangle, when it fits the frame.
pub open spec fn spec_pot_region(
    o: TextObservationV,
    width: u32,
    height: u32,
    customs: Seq<Seq<char>>,
) -> Option<RegionV> {
    match spec_classify(o.text, customs) {
        Some((ct, conf)) => {
            if spec_obs_fits(o, width, height) {
                Some(spec_obs_region(o, ct, conf))
            } else {
                None
            }
        },
        None => None,
    }
}

/// The observation candidates are exactly the potential regions whose
/// rectangles do not already scan as redacted.
proof fn lemma_obs_candidates_characterization(
    data: Seq<u8>,
    width: u32,
    height: u32,
    obs: Seq<TextObservationV>,
    cfg: PrivacyConfigV,
    j: int,
    x: RegionV,
)
    requires
        0 <= j <= obs.len(),
    ensures
        regions_contain(spec_obs_candidates(data, width, height, obs, cfg, j), x)
            <==> exists|l: int| j <= l < obs.len()
                && #[trigger] spec_pot_region(obs[l], width, height, cfg.custom_patterns)
                    == Some(x)
                && !spec_already_redacted(data, width, x, cfg),
    decreases obs.len() - j,
{
    if j < obs.len() {
        lemma_obs_candidates_characterization(data, width, height, obs, cfg, j + 1, x);
        let cands = spec_obs_candidates(data, width, height, obs, cfg, j);
        let rest = spec_obs_candidates(data, width, height, obs, cfg, j + 1);
        let head: Seq<RegionV> = match spec_classify(obs[j].text, cfg.custom_patterns) {
            Some((ct, conf)) => {
                let rv = spec_obs_region(obs[j], ct, conf);
                if spec_obs_fits(obs[j], width, height)
                    && !spec_already_redacted(data, width, rv, cfg) {
                    seq![rv]
                } else {
                    Seq::empty()
                }
            },
            None => Seq::empty(),
        };
        assert(cands == head + rest);
        if regions_contain(cands, x) {
            let i = choose|i: int| 0 <= i < cands.len() && cands[i] == x;
            if i < head.len() {
                assert(head[0] == x);
                assert(spec_pot_region(obs[j], width, height, cfg.custom_patterns) == Some(x));
            } else {
                assert(rest[i - head.len()] == x);
            }
        }
        if exists|l: int| j <= l < obs.len()
            && #[trigger] spec_pot_region(obs[l], width, height, cfg.custom_patterns) == Some(x)
            && !spec_already_redacted(data, width, x, cfg) {
            let l = choose|l: int| j <= l < obs.len()
                && #[trigger] spec_pot_region(obs[l], width, height, cfg.custom_patterns)
                    == Some(x)
                && !spec_already_redacted(data, width, x, cfg);
            if l == j {
                assert(head[0] == x);
                assert(cands[0] == x);
            } else {
                assert(regions_contain(rest, x));
                let i = choose|i: int| 0 <= i < rest.len() && rest[i] == x;
                assert(cands[head.len() + i] == x);
            }
        }
    }
}

/// A classification is one of the five built-in kinds or a custom
/// pattern hit.
proof fn lemma_classify_range(text: Seq<char>, customs: Seq<Seq<char>>)
    ensures
        spec_classify(text, customs) matches Some((ct, conf)) ==> ({
            ||| is_blackout_ct(ct)
            ||| ct is ApiKey
            ||| ct is Email
            ||| ct is Custom
        } && 0 <= conf <= 1000),
{
    lemma_classify_custom_range(text, customs, 0);
}

/// The custom chain only ever reports custom hits.
proof fn lemma_classify_custom_range(text: Seq<char>, customs: Seq<Seq<char>>, j: int)
    ensures
        spec_classify_custom(text, customs, j) matches Some((ct, conf))
            ==> (ct is Custom && conf == CUSTOM_PATTERN_CONFIDENCE),
    decreases customs.len() - j,
{
    if 0 <= j < customs.len() {
        lemma_classify_custom_range(text, customs, j + 1);
    }
}

/// The already-redacted check reads only the bytes of its rectangle:
/// two buffers that agree there scan alike.
proof fn lemma_redacted_check_local(
    data1: Seq<u8>,
    data2: Seq<u8>,
    width: u32,
    height: u32,
    rv: RegionV,
    cfg: PrivacyConfigV,
)
    requires
        0 < width,
        data1.len() == width * height * 4,
        data2.len() == data1.len(),
        region_v_in_frame(rv, width, height),
        forall|i: int| 0 <= i < data1.len() && byte_in_region(i, width, rect_of(rv))
            ==> #[trigger] data2[i] == data1[i],
    ensures
        spec_already_redacted(data2, width, rv, cfg) == spec_already_redacted(data1, width, rv, cfg),
{
    let r = rect_of(rv);
    assert(region_in_frame(r, width, height));
    if spec_style_of(rv, cfg) is Blackout {
        if spec_region_all_black(data1, width, rv) {
            assert forall|i: int|
                0 <= i < data2.len() && byte_in_region(i, width, r) && i % 4 != 3
                    implies data2[i] == 0 by {
                assert(data2[i] == data1[i]);
            }
        }
        if spec_region_all_black(data2, width, rv) {
            assert forall|i: int|
                0 <= i < data1.len() && byte_in_region(i, width, r) && i % 4 != 3
                    implies data1[i] == 0 by {
                assert(data2[i] == data1[i]);
            }
        }
    }
    if spec_style_of(rv, cfg) is Pixelate {
        if spec_region_block_uniform(data1, width, rv) {
            assert forall|i: int|
                0 <= i < data2.len() && byte_in_region(i, width, r) && i % 4 != 3
                    implies data2[i] == data2[anchor_byte(i, width, r)] by {
                lemma_coords_byte_at(i, width, height);
                lemma_anchor_in_region(i, width, height, r);
                assert(data2[i] == data1[i]);
                assert(data2[anchor_byte(i, width, r)] == data1[anchor_byte(i, width, r)]);
            }
        }
        if spec_region_block_uniform(data2, width, rv) {
            assert forall|i: int|
                0 <= i < data1.len() && byte_in_region(i, width, r) && i % 4 != 3
                    implies data1[i] == data1[anchor_byte(i, width, r)] by {
                lemma_coords_byte_at(i, width, height);
                lemma_anchor_in_region(i, width, height, r);
                assert(data2[i] == data1[i]);
                assert(data2[anchor_byte(i, width, r)] == data1[anchor_byte(i, width, r)]);
            }
        }
    }
}

/// A byte inside one of two non-overlapping in-frame regions is
/// outside the other.
proof fn lemma_disjoint_regions_bytes(
    a: RegionV,
    b: RegionV,
    width: u32,
    height: u32,
    i: int,
)
    requires
        0 < width,
        !regions_v_overlap(a, b),
        region_v_in_frame(a, width, height),
        region_v_in_frame(b, width, height),
        0 <= i < width * height * 4,
        byte_in_region(i, width, rect_of(a)),
    ensures
        !byte_in_region(i, width, rect_of(b)),
{
    lemma_coords_byte_at(i, width, height);
}

/// A candidate value of the first run is a potential region with a
/// blackout or pixelation style, inside the frame.
proof fn lemma_candidate_shape(
    data: Seq<u8>,
    width: u32,
    height: u32,
    obs: Seq<TextObservationV>,
    cfg: PrivacyConfigV,
    x: RegionV,
)
    requires
        forall|j: int| 0 <= j < obs.len()
            ==> (#[trigger] spec_classify(obs[j].text, cfg.custom_patterns)
                matches Some((ct, conf)) ==> !(ct is Custom)),
        regions_contain(spec_obs_candidates(data, width, height, obs, cfg, 0), x),
    ensures
        exists|l: int| 0 <= l < obs.len()
            && #[trigger] spec_pot_region(obs[l], width, height, cfg.custom_patterns) == Some(x),
        spec_style_of(x, cfg) is Blackout || spec_style_of(x, cfg) is Pixelate,
        region_v_in_frame(x, width, height),
        spec_style_of(x, cfg) is Blackout <==> is_blackout_ct(x.content_type),
{
    lemma_obs_candidates_characterization(data, width, height, obs, cfg, 0, x);
    let l = choose|l: int| 0 <= l < obs.len()
        && #[trigger] spec_pot_region(obs[l], width, height, cfg.custom_patterns) == Some(x)
        && !spec_already_redacted(data, width, x, cfg);
    lemma_classify_range(obs[l].text, cfg.custom_patterns);
}

/// Idempotence of the privacy filter: running it again over its own
/// output changes nothing, because every redacted region re-scans as
/// already redacted and produces no new detection.  The law is stated
/// for pattern-driven detection — sensitivity low enough that the face
/// and content heuristics stay off, a frame small enough that the
/// simulated large-frame detection stays off, classifications from the
/// built-in detectors (whose redactions are blackout or pixelation,
/// both fixed points), and reported regions that do not overlap.
/// At Medium sensitivity or above the excluded face and content
/// heuristics redact by box blur, which is not a fixed point: a second
/// pass blurs those regions again, so such inputs fall outside this
/// law, though their redacted regions still produce no new pattern
/// detections.
pub proof fn lemma_filter_idempotent(
    data: Seq<u8>,
    width: u32,
    height: u32,
    obs: Seq<TextObservationV>,
    cfg: PrivacyConfigV,
)
    requires
        0 < width,
        data.len() == width * height * 4,
        sensitivity_rank(cfg.sensitivity_level) <= 1,
        !(width > 1920 && height > 1080),
        forall|j: int| 0 <= j < obs.len()
            ==> (#[trigger] spec_classify(obs[j].text, cfg.custom_patterns)
                matches Some((ct, conf)) ==> !(ct is Custom)),
        forall|j: int, l: int|
            0 <= j < obs.len() && 0 <= l < obs.len() && j != l
                ==> match (
                    #[trigger] spec_pot_region(obs[j], width, height, cfg.custom_patterns),
                    #[trigger] spec_pot_region(obs[l], width, height, cfg.custom_patterns),
                ) {
                    (Some(a), Some(b)) => !regions_v_overlap(a, b),
                    _ => true,
                },
    ensures
        spec_process_frame(
            spec_process_frame(data, width, height, obs, cfg), width, height, obs, cfg)
            == spec_process_frame(data, width, height, obs, cfg),
{
    let t = cfg.detection_confidence_threshold_milli;
    let d1 = spec_process_frame(data, width, height, obs, cfg);
    let cands1 = spec_candidates(data, width, height, obs, cfg);
    let kept1 = spec_kept_regions(data, width, height, obs, cfg);

    // the gated detectors contribute nothing, on any buffer
    assert(spec_face_candidates(data, width, height, cfg) =~= Seq::<RegionV>::empty());
    assert(spec_content_candidates(data, width, height, cfg) =~= Seq::<RegionV>::empty());
    assert(spec_sim_text_candidates(data, width, height, cfg) =~= Seq::<RegionV>::empty());
    assert(spec_face_candidates(d1, width, height, cfg) =~= Seq::<RegionV>::empty());
    assert(spec_content_candidates(d1, width, height, cfg) =~= Seq::<RegionV>::empty());
    assert(spec_sim_text_candidates(d1, width, height, cfg) =~= Seq::<RegionV>::empty());

    if !cfg.enable_pattern_matching {
        assert(cands1 =~= Seq::<RegionV>::empty());
        assert(spec_threshold(cands1, t) == Seq::<RegionV>::empty());
        assert(spec_sort_desc(Seq::<RegionV>::empty()) == Seq::<RegionV>::empty());
        assert(kept1 == Seq::<RegionV>::empty());
        assert(d1 == data);
        assert(spec_candidates(d1, width, height, obs, cfg) =~= Seq::<RegionV>::empty());
        assert(spec_kept_regions(d1, width, height, obs, cfg) == Seq::<RegionV>::empty());
        assert(spec_process_frame(d1, width, height, obs, cfg) == d1);
    } else {
        let obs1 = spec_obs_candidates(data, width, height, obs, cfg, 0);
        assert(cands1 =~= obs1);
        let sorted1 = spec_sort_desc(spec_threshold(cands1, t));
        assert(kept1 == spec_greedy(sorted1, Seq::empty()));

        // every kept region is a candidate of the first run
        assert forall|i: int| 0 <= i < kept1.len()
            implies regions_contain(cands1, #[trigger] kept1[i]) by {
            assert(regions_contain(kept1, kept1[i]));
            lemma_greedy_subset(sorted1, Seq::empty(), kept1[i]);
            assert(!regions_contain(Seq::<RegionV>::empty(), kept1[i]));
            lemma_sort_desc_membership(spec_threshold(cands1, t), kept1[i]);
            lemma_threshold_membership(cands1, t, kept1[i]);
        }
        // kept regions have blackout or pixelation style and sit in frame
        assert forall|i: int| 0 <= i < kept1.len()
            implies (region_v_in_frame(#[trigger] kept1[i], width, height)
                && (spec_style_of(kept1[i], cfg) is Blackout
                    || spec_style_of(kept1[i], cfg) is Pixelate)) by {
            lemma_candidate_shape(data, width, height, obs, cfg, kept1[i]);
        }
        // kept regions are pairwise disjoint
        lemma_greedy_pairwise_disjoint(sorted1, Seq::empty());
        assert(d1 == spec_redact_seq(data, width, kept1, cfg));
        lemma_redact_seq_len(data, width, kept1, cfg);

        // each kept region re-scans as already redacted in the output
        assert forall|i: int| 0 <= i < kept1.len()
            implies spec_already_redacted(d1, width, #[trigger] kept1[i], cfg) by {
            lemma_redact_seq_region_state(data, width, height, kept1, cfg, i);
        }

        // every second-run candidate is below the threshold
        let obs2 = spec_obs_candidates(d1, width, height, obs, cfg, 0);
        let cands2 = spec_candidates(d1, width, height, obs, cfg);
        assert(cands2 =~= obs2);
        assert forall|k: int| 0 <= k < cands2.len()
            implies (#[trigger] cands2[k]).confidence < t by {
            let x = cands2[k];
            assert(regions_contain(obs2, x));
            lemma_obs_candidates_characterization(d1, width, height, obs, cfg, 0, x);
            let l = choose|l: int| 0 <= l < obs.len()
                && #[trigger] spec_pot_region(obs[l], width, height, cfg.custom_patterns)
                    == Some(x)
                && !spec_already_redacted(d1, width, x, cfg);
            lemma_classify_range(obs[l].text, cfg.custom_patterns);
            assert(region_v_in_frame(x, width, height));
            if x.confidence >= t {
                lemma_obs_candidates_characterization(data, width, height, obs, cfg, 0, x);
                if regions_contain(cands1, x) {
                    // x was a first-run candidate above the threshold,
                    // so the merge stage kept it (its overlaps are
                    // ruled out by the disjointness hypothesis) and it
                    // was redacted
                    lemma_threshold_membership(cands1, t, x);
                    lemma_sort_desc_membership(spec_threshold(cands1, t), x);
                    lemma_greedy_covering(sorted1, Seq::empty(), x);
                    let i = choose|i: int| 0 <= i < kept1.len()
                        && ((#[trigger] kept1[i]) == x || regions_v_overlap(x, kept1[i]));
                    if kept1[i] != x {
                        // an overlapping kept region would be another
                        // potential region, contradicting disjointness
                        lemma_obs_candidates_characterization(data, width, height, obs, cfg,
                            0, kept1[i]);
                        let m = choose|m: int| 0 <= m < obs.len()
                            && #[trigger] spec_pot_region(obs[m], width, height,
                                cfg.custom_patterns) == Some(kept1[i])
                            && !spec_already_redacted(data, width, kept1[i], cfg);
                        if m == l {
                            assert(kept1[i] == x);
                        } else {
                            assert(!regions_v_overlap(x, kept1[i]));
                        }
                        assert(false);
                    }
                    assert(spec_already_redacted(d1, width, x, cfg));
                    assert(false);
                } else {
                    // x scanned as already redacted before the first
                    // run; its bytes were not touched, so it scans so
                    // again
                    assert(spec_already_redacted(data, width, x, cfg));
                    assert forall|b: int|
                        0 <= b < data.len() && byte_in_region(b, width, rect_of(x))
                            implies #[trigger] d1[b] == data[b] by {
                        assert forall|q: int| 0 <= q < kept1.len()
                            implies !byte_in_region(b, width, rect_of(#[trigger] kept1[q])) by {
                            lemma_obs_candidates_characterization(data, width, height, obs,
                                cfg, 0, kept1[q]);
                            let m = choose|m: int| 0 <= m < obs.len()
                                && #[trigger] spec_pot_region(obs[m], width, height,
                                    cfg.custom_patterns) == Some(kept1[q])
                                && !spec_already_redacted(data, width, kept1[q], cfg);
                            if m == l {
                                assert(kept1[q] == x);
                                assert(regions_contain(cands1, x));
                                assert(false);
                            }
                            assert(!regions_v_overlap(x, kept1[q]));
                            lemma_disjoint_regions_bytes(x, kept1[q], width, height, b);
                        }
                        lemma_redact_seq_outside(data, width, kept1, cfg, b);
                    }
                    lemma_redacted_check_local(data, d1, width, height, x, cfg);
                    assert(spec_already_redacted(d1, width, x, cfg));
                    assert(false);
                }
            }
        }
        lemma_threshold_all_below(cands2, t);
        assert(spec_sort_desc(Seq::<RegionV>::empty()) == Seq::<RegionV>::empty());
        assert(spec_kept_regions(d1, width, height, obs, cfg) == Seq::<RegionV>::empty());
        assert(spec_process_frame(d1, width, height, obs, cfg) == d1);
    }
}

} // verus!








