//! The OCR pipeline's computation: image preparation and the
//! interpretation of the worker process's outcome.
//!
//! A page is rendered, its buffer brought into red-green-blue-alpha
//! channel order, and encoded as a PNG in memory; the shell pipes the
//! PNG to the external OCR worker over its standard input and hands
//! the exit status and both output streams back to
//! [`ocr_outcome`].  A worker that exits non-zero is a hard failure
//! carrying the captured diagnostic text; no partial text is returned.

use vstd::prelude::*;
use crate::pixels::{spec_swap_red_blue, swap_red_blue};

verus! {

/// The bytes of the PNG encoding of a `width` by `height` image of
/// 4-byte red-green-blue-alpha pixels.  The encoding is a function of
/// the pixel data alone; its bytes are named rather than spelled out.
pub uninterp spec fn png_of(width: u32, height: u32, pixels: Seq<u8>) -> Seq<u8>;

/// The text that lossy UTF-8 decoding yields for `bytes`: invalid
/// sequences are replaced, never rejected.  A function of the bytes
/// alone; named rather than spelled out.
pub uninterp spec fn lossy_utf8(bytes: Seq<u8>) -> Seq<char>;

/// Why an OCR call failed.
#[derive(Clone, PartialEq, Eq, Debug)]
pub enum OcrError {
    /// The pixel buffer's length does not match the stated dimensions.
    MalformedBuffer,
    /// The in-memory PNG encoder reported a failure.
    EncodeFailed,
    /// The worker process could not be started or piped to; carries a
    /// guidance message.
    WorkerUnavailable(String),
    /// The worker process exited non-zero; carries the text it wrote
    /// to its error stream.
    WorkerFailed(String),
}

/// The OCR engine: a handle for the external worker process.  Holding
/// one is lightweight; the work happens in the process the shell
/// spawns per recognition call.
#[derive(Clone, Copy, PartialEq, Eq, Structural, Debug)]
pub struct OcrEngine {
}

impl OcrEngine {
    /// Creates a new instance of the OCR engine.
    pub fn new() -> (r: OcrEngine)
        ensures
            r == (OcrEngine {  }),
    {
        OcrEngine {  }
    }
}

impl Default for OcrEngine {
    fn default() -> (r: OcrEngine)
        ensures
            r == (OcrEngine {  }),
    {
        OcrEngine::new()
    }
}

/// Relies on image's PNG encoder (`ImageBuffer::from_raw` over `Rgba`
/// pixels and `PngEncoder` writing to a `Vec`): a buffer of exactly
/// `width * height` 4-byte pixels encodes to the PNG bytes of that
/// image, a function of the arguments alone.  With the exact buffer
/// length required here, a zero width or height is the encoder's only
/// failure path, so the encoding succeeds whenever both dimensions
/// are at least one.
#[verifier::external_body]
fn png_encode_rgba(width: u32, height: u32, pixels: &Vec<u8>) -> (r: Option<Vec<u8>>)
    requires
        pixels@.len() == 4 * (width as int) * (height as int),
    ensures
        r matches Some(png) ==> png@ == png_of(width, height, pixels@),
        width >= 1 && height >= 1 ==> r is Some,
{
    let buffer: image::ImageBuffer<image::Rgba<u8>, &[u8]> =
        match image::ImageBuffer::from_raw(width, height, pixels.as_slice()) {
            Some(buffer) => buffer,
            None => return None,
        };
    let mut png: Vec<u8> = Vec::new();
    let encoder = image::codecs::png::PngEncoder::new(&mut png);
    match buffer.write_with_encoder(encoder) {
        Ok(()) => Some(png),
        Err(_) => None,
    }
}

/// Relies on `String::from_utf8_lossy`: decodes the bytes as UTF-8
/// with invalid sequences replaced, a function of the bytes alone; an
/// empty input decodes to the empty string.
#[verifier::external_body]
fn utf8_lossy(bytes: &Vec<u8>) -> (r: String)
    ensures
        r@ == lossy_utf8(bytes@),
        bytes@.len() == 0 ==> r@.len() == 0,
{
    String::from_utf8_lossy(bytes.as_slice()).into_owned()
}

/// Encodes a red-green-blue-alpha pixel buffer as a PNG in memory.
///
/// Fails with [`OcrError::MalformedBuffer`] exactly when the buffer
/// does not hold `width * height` 4-byte pixels, and with
/// [`OcrError::EncodeFailed`] only when the encoder rejects the
/// image; for a well-sized buffer with both dimensions at least one,
/// encoding succeeds.
pub fn encode_rgba_png(width: u32, height: u32, pixels: &Vec<u8>) -> (r: Result<Vec<u8>, OcrError>)
    ensures
        pixels@.len() != 4 * (width as int) * (height as int) ==> r == Err::<Vec<u8>, OcrError>(
            OcrError::MalformedBuffer,
        ),
        pixels@.len() == 4 * (width as int) * (height as int) ==> (match r {
            Ok(png) => png@ == png_of(width, height, pixels@),
            Err(e) => e == OcrError::EncodeFailed,
        }),
        pixels@.len() == 4 * (width as int) * (height as int) && width >= 1 && height >= 1 ==> r
            is Ok,
{
    proof {
        assert((width as int) * (height as int) <= 0xffff_ffff * 0xffff_ffff) by (nonlinear_arith)
            requires
                width as int <= 0xffff_ffff,
                height as int <= 0xffff_ffff,
        ;
        assert(4 * ((width as int) * (height as int)) == 4 * (width as int) * (height as int))
            by (nonlinear_arith);
    }
    let area: u64 = (width as u64) * (height as u64);
    if (pixels.len() as u128) != (area as u128) * 4 {
        return Err(OcrError::MalformedBuffer);
    }
    match png_encode_rgba(width, height, pixels) {
        Some(png) => Ok(png),
        None => Err(OcrError::EncodeFailed),
    }
}

/// Prepares a rendered page for the OCR worker: swaps the buffer from
/// blue-green-red-alpha into the red-green-blue-alpha order the
/// encoder expects, then encodes it as a PNG in memory.
///
/// Fails with [`OcrError::MalformedBuffer`] exactly when the buffer
/// does not hold `width * height` 4-byte pixels, and with
/// [`OcrError::EncodeFailed`] only when the encoder rejects the
/// image; for a well-sized buffer with both dimensions at least one,
/// encoding succeeds.
pub fn prepare_ocr_image(width: u32, height: u32, pixels: Vec<u8>) -> (r: Result<Vec<u8>, OcrError>)
    ensures
        pixels@.len() != 4 * (width as int) * (height as int) ==> r == Err::<Vec<u8>, OcrError>(
            OcrError::MalformedBuffer,
        ),
        pixels@.len() == 4 * (width as int) * (height as int) ==> (match r {
            Ok(png) => png@ == png_of(width, height, spec_swap_red_blue(pixels@)),
            Err(e) => e == OcrError::EncodeFailed,
        }),
        pixels@.len() == 4 * (width as int) * (height as int) && width >= 1 && height >= 1 ==> r
            is Ok,
{
    proof {
        assert((width as int) * (height as int) <= 0xffff_ffff * 0xffff_ffff) by (nonlinear_arith)
            requires
                width as int <= 0xffff_ffff,
                height as int <= 0xffff_ffff,
        ;
        assert(4 * ((width as int) * (height as int)) == 4 * (width as int) * (height as int))
            by (nonlinear_arith);
    }
    let area: u64 = (width as u64) * (height as u64);
    if (pixels.len() as u128) != (area as u128) * 4 {
        return Err(OcrError::MalformedBuffer);
    }
    let mut corrected = pixels;
    swap_red_blue(&mut corrected);
    encode_rgba_png(width, height, &corrected)
}

/// Interprets the OCR worker's outcome.  A zero exit status yields the
/// worker's standard output decoded lossily as the recognized text; a
/// non-zero exit status is a hard failure carrying the decoded error
/// stream, and no partial text is returned.
pub fn ocr_outcome(exit_ok: bool, stdout_bytes: &Vec<u8>, stderr_bytes: &Vec<u8>) -> (r: Result<
    String,
    OcrError,
>)
    ensures
        exit_ok ==> (r matches Ok(text) && text@ == lossy_utf8(stdout_bytes@)),
        !exit_ok ==> (r matches Err(e) && e matches OcrError::WorkerFailed(diagnostic)
            && diagnostic@ == lossy_utf8(stderr_bytes@)),
{
    if exit_ok {
        Ok(utf8_lossy(stdout_bytes))
    } else {
        Err(OcrError::WorkerFailed(utf8_lossy(stderr_bytes)))
    }
}

} // verus!
