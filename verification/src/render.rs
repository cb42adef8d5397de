//! The rendering pipeline's computation: target pixel dimensions and
//! the post-processing of the raw buffer the native rasterizer hands
//! back.
//!
//! The rasterizer itself runs outside this library.  The shell around
//! it asks [`target_dimension`] how large a bitmap to request, passes
//! the raw blue-green-red-alpha buffer to [`finish_render`] together
//! with the selected [`RenderMode`], and returns the finished
//! [`RenderResult`] to the caller.  An out-of-range page index never
//! reaches the rasterizer: the shell answers it with [`empty_render`].

use vstd::prelude::*;
use crate::pixels::{
    composite_over_white,
    invert_colors,
    spec_composite_over_white,
    spec_invert_colors,
};

verus! {

/// Scale factors are fixed-point with this many units to one: a scale
/// of one and a half is `1500`.
pub const SCALE_UNIT: u32 = 1000;

/// Which post-processing the rendering pipeline applies to the raw
/// buffer.  Exactly one variant is in force per render call; dark-mode
/// inversion and alpha-compositing never combine silently.
#[derive(Clone, Copy, PartialEq, Eq, Structural, Debug)]
pub enum RenderMode {
    /// The raw buffer, untouched.
    Plain,
    /// Color channels negated, alpha untouched.
    DarkMode,
    /// Every pixel composited over a white background, alpha forced
    /// opaque.
    OverWhite,
    /// Composited over white first, then color-negated.
    OverWhiteDark,
}

/// Why a render call failed.
#[derive(Clone, PartialEq, Eq, Debug)]
pub enum RenderError {
    /// The raw buffer's length does not match the requested
    /// dimensions.
    MalformedBuffer,
    /// The native rasterizer reported a failure; carries its
    /// diagnostic text.
    EngineFailure(String),
}

/// A finished render: tightly packed 4-byte pixels, `width * height`
/// of them.
#[derive(Clone, PartialEq, Eq, Debug)]
pub struct RenderResult {
    /// Width of the image in pixels.
    pub width: u32,
    /// Height of the image in pixels.
    pub height: u32,
    /// The pixel data, 4 bytes per pixel.
    pub pixels: Vec<u8>,
}

impl RenderResult {
    /// The buffer holds exactly `width * height` 4-byte pixels.
    pub open spec fn wf(self) -> bool {
        self.pixels@.len() == 4 * (self.width as int) * (self.height as int)
    }
}

/// The buffer after the post-processing that `mode` selects.
pub open spec fn spec_post_process(s: Seq<u8>, mode: RenderMode) -> Seq<u8> {
    match mode {
        RenderMode::Plain => s,
        RenderMode::DarkMode => spec_invert_colors(s),
        RenderMode::OverWhite => spec_composite_over_white(s),
        RenderMode::OverWhiteDark => spec_invert_colors(spec_composite_over_white(s)),
    }
}

/// A page dimension in milli-points (units of
/// [`crate::geometry::POINT_UNIT`] to the point) multiplied by a
/// scale factor in units of [`SCALE_UNIT`], rounded to the nearest
/// whole pixel: `round(points * scale)` with both factors fixed
/// point, so the divisor is `1000 * 1000`.
pub open spec fn spec_target_dimension(size: int, scale: int) -> int {
    (size * scale + 500_000) / 1_000_000
}

/// Target pixel size for one axis of a page: the page's native size
/// in milli-points times the scale factor (in units of
/// [`SCALE_UNIT`]), rounded to the nearest whole pixel.  `None` when
/// the result does not fit a `u32`.
pub fn target_dimension(size: u32, scale: u32) -> (r: Option<u32>)
    requires
        scale >= 1,
    ensures
        spec_target_dimension(size as int, scale as int) <= u32::MAX ==> r == Some(
            spec_target_dimension(size as int, scale as int) as u32,
        ),
        spec_target_dimension(size as int, scale as int) > u32::MAX ==> r is None,
{
    proof {
        assert((size as int) * (scale as int) <= 0xffff_ffff * 0xffff_ffff) by (nonlinear_arith)
            requires
                size as int <= 0xffff_ffff,
                scale as int <= 0xffff_ffff,
        ;
    }
    let product: u64 = (size as u64) * (scale as u64);
    let scaled: u64 = (product + 500_000) / 1_000_000;
    if scaled <= u32::MAX as u64 {
        Some(scaled as u32)
    } else {
        None
    }
}

/// The zero-size result a render call returns for a page index that is
/// out of range: defensive, never an error, never forwarded to the
/// native rasterizer.
pub fn empty_render() -> (r: RenderResult)
    ensures
        r.width == 0,
        r.height == 0,
        r.pixels@.len() == 0,
        r.wf(),
{
    RenderResult { width: 0, height: 0, pixels: Vec::new() }
}

/// Turns the rasterizer's raw buffer into the finished render.
///
/// Succeeds exactly when the buffer holds `width * height` 4-byte
/// pixels; the pixels of the result are the raw pixels after the
/// post-processing that `mode` selects.  The result always satisfies
/// [`RenderResult::wf`]: its buffer length equals
/// `width * height * 4`.
pub fn finish_render(width: u32, height: u32, raw: Vec<u8>, mode: RenderMode) -> (r: Result<
    RenderResult,
    RenderError,
>)
    ensures
        raw@.len() == 4 * (width as int) * (height as int) ==> (r matches Ok(res)
            && res.width == width && res.height == height && res.pixels@ == spec_post_process(
            raw@,
            mode,
        ) && res.wf()),
        raw@.len() != 4 * (width as int) * (height as int) ==> r == Err::<
            RenderResult,
            RenderError,
        >(RenderError::MalformedBuffer),
{
    proof {
        assert((width as int) * (height as int) <= 0xffff_ffff * 0xffff_ffff) by (nonlinear_arith)
            requires
                width as int <= 0xffff_ffff,
                height as int <= 0xffff_ffff,
        ;
    }
    let area: u64 = (width as u64) * (height as u64);
    proof {
        assert(4 * ((width as int) * (height as int)) == 4 * (width as int) * (height as int))
            by (nonlinear_arith);
    }
    if (raw.len() as u128) != (area as u128) * 4 {
        return Err(RenderError::MalformedBuffer);
    }
    proof {
        assert(raw@.len() == 4 * (area as int));
        assert(raw@.len() % 4 == 0);
        assert(raw@.len() == 4 * (width as int) * (height as int));
    }
    let mut pixels = raw;
    match mode {
        RenderMode::Plain => {},
        RenderMode::DarkMode => invert_colors(&mut pixels),
        RenderMode::OverWhite => composite_over_white(&mut pixels),
        RenderMode::OverWhiteDark => {
            composite_over_white(&mut pixels);
            invert_colors(&mut pixels);
        },
    }
    Ok(RenderResult { width, height, pixels })
}

/// Dark mode changes a render only in its color channels: against the
/// plain mode on the same raw buffer, the length and every alpha
/// channel byte are identical.
pub proof fn lemma_dark_mode_differs_only_in_color(raw: Seq<u8>)
    ensures
        spec_post_process(raw, RenderMode::DarkMode).len() == spec_post_process(
            raw,
            RenderMode::Plain,
        ).len(),
        forall|i: int|
            0 <= i < raw.len() && i % 4 == 3 ==> spec_post_process(raw, RenderMode::DarkMode)[i]
                == spec_post_process(raw, RenderMode::Plain)[i],
{
}

} // verus!
