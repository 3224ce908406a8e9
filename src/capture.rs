//! Turning a captured frame into a transportable base64 PNG payload, and the
//! success/failure record that the capture command answers with.
use vstd::prelude::*;
use crate::base64_text::{b64_decode, b64_encode, encodable_len, encode_base64, lemma_base64_round_trip};
use crate::png_image::{declares_size, encode_png, lemma_declared_size, png_encoding_of, png_size};

verus! {

/// Why a capture or a display query failed.
#[derive(Debug, PartialEq, Eq)]
pub enum CaptureError {
    /// The capture provider listed no display.
    NoDisplayFound,
    /// Listing the displays failed, with the provider's reason.
    EnumerationFailed(String),
    /// Reading the display's pixels failed, with the provider's reason.
    CaptureFailed(String),
    /// The pixel buffer does not hold `width * height * 4` bytes.
    BufferSizeMismatch,
    /// The PNG encoder failed, with its reason.
    EncodingFailed(String),
}

/// The text that describes an error to the caller.
pub open spec fn message_text(e: CaptureError) -> Seq<char> {
    match e {
        CaptureError::NoDisplayFound => "No screen found"@,
        CaptureError::EnumerationFailed(r) => "Failed to get screens: "@ + r@,
        CaptureError::CaptureFailed(r) => "Failed to capture screen: "@ + r@,
        CaptureError::BufferSizeMismatch => "Failed to create image buffer"@,
        CaptureError::EncodingFailed(r) => "Failed to encode PNG: "@ + r@,
    }
}

impl CaptureError {
    /// The text that describes this error.
    pub fn message(&self) -> (r: String)
        ensures
            r@ == message_text(*self),
    {
        match self {
            CaptureError::NoDisplayFound => String::from_str("No screen found"),
            CaptureError::EnumerationFailed(r) => String::from_str("Failed to get screens: ").concat(r.as_str()),
            CaptureError::CaptureFailed(r) => String::from_str("Failed to capture screen: ").concat(r.as_str()),
            CaptureError::BufferSizeMismatch => String::from_str("Failed to create image buffer"),
            CaptureError::EncodingFailed(r) => String::from_str("Failed to encode PNG: ").concat(r.as_str()),
        }
    }
}

/// A display's pixels as the capture provider hands them over: rows of
/// RGBA pixels, four bytes each.
#[derive(Debug, PartialEq, Eq)]
pub struct RawFrame {
    pub width: u32,
    pub height: u32,
    pub pixels: Vec<u8>,
}

/// What the capture command answers: the payload on success, the error's
/// text on failure.
#[derive(Debug, PartialEq, Eq)]
pub struct ScreenshotResult {
    pub success: bool,
    pub screenshot_data: Option<String>,
    pub error: Option<String>,
}

/// Whether `r` is the answer for the capture outcome `outcome`.
pub open spec fn reports(r: ScreenshotResult, outcome: Result<String, CaptureError>) -> bool {
    match outcome {
        Ok(payload) => r.success && r.screenshot_data == Some(payload) && r.error is None,
        Err(e) => {
            &&& !r.success
            &&& r.screenshot_data is None
            &&& r.error is Some
            &&& r.error->Some_0@ == message_text(e)
        },
    }
}

/// Whether `buffer_len` bytes are exactly a `width` x `height` RGBA grid.
pub open spec fn fits_grid(width: u32, height: u32, buffer_len: int) -> bool {
    buffer_len == width * height * 4
}

/// Whether a frame is encoded: its buffer is exactly a grid of positive
/// width and height, and the base64 text of its PNG stream fits in memory.
pub open spec fn succeeds(width: u32, height: u32, pixels: Seq<u8>) -> bool {
    &&& fits_grid(width, height, pixels.len() as int)
    &&& width > 0
    &&& height > 0
    &&& encodable_len(png_encoding_of(width, height, pixels).len() as int)
}

/// The display that a capture or a query is about: the first one listed.
pub fn first_screen<S>(screens: Result<Vec<S>, String>) -> (r: Result<S, CaptureError>)
    ensures
        screens is Err ==> r == Err::<S, CaptureError>(CaptureError::EnumerationFailed(screens->Err_0)),
        screens is Ok && screens->Ok_0@.len() == 0 ==> r == Err::<S, CaptureError>(CaptureError::NoDisplayFound),
        screens is Ok && screens->Ok_0@.len() > 0 ==> r == Ok::<S, CaptureError>(screens->Ok_0@[0]),
{
    match screens {
        Err(e) => Err(CaptureError::EnumerationFailed(e)),
        Ok(mut list) => {
            if list.len() == 0 {
                Err(CaptureError::NoDisplayFound)
            } else {
                Ok(list.remove(0))
            }
        },
    }
}

/// The payload for the outcome of PNG encoding: the base64 text of the PNG
/// stream, or the encoder's failure.
pub fn png_to_payload(png: Result<Vec<u8>, String>) -> (r: Result<String, CaptureError>)
    ensures
        png is Err ==> r == Err::<String, CaptureError>(CaptureError::EncodingFailed(png->Err_0)),
        png is Ok && encodable_len(png->Ok_0@.len() as int) ==> r is Ok && r->Ok_0@ == b64_encode(png->Ok_0@),
        png is Ok && !encodable_len(png->Ok_0@.len() as int) ==> r is Err && r->Err_0 is EncodingFailed,
{
    match png {
        Err(e) => Err(CaptureError::EncodingFailed(e)),
        Ok(bytes) => {
            let n = bytes.len() as u128;
            if (n + 2) / 3 * 4 > usize::MAX as u128 {
                Err(CaptureError::EncodingFailed(String::from_str("base64 text would not fit in memory")))
            } else {
                Ok(encode_base64(&bytes))
            }
        },
    }
}

/// Encodes a captured frame as base64 text of a PNG stream.
pub fn encode_frame(frame: &RawFrame) -> (r: Result<String, CaptureError>)
    ensures
        !fits_grid(frame.width, frame.height, frame.pixels@.len() as int)
            <==> r == Err::<String, CaptureError>(CaptureError::BufferSizeMismatch),
        r is Ok ==> r->Ok_0@ == b64_encode(png_encoding_of(frame.width, frame.height, frame.pixels@)),
        r is Ok ==> declares_size(png_encoding_of(frame.width, frame.height, frame.pixels@), frame.width, frame.height),
        fits_grid(frame.width, frame.height, frame.pixels@.len() as int) && (frame.width == 0 || frame.height == 0)
            ==> r is Err && r->Err_0 is EncodingFailed,
        r is Ok <==> succeeds(frame.width, frame.height, frame.pixels@),
{
    let (w, h) = (frame.width as u128, frame.height as u128);
    assert(w * h <= 0xffff_ffff * 0xffff_ffff) by (nonlinear_arith)
        requires w <= 0xffff_ffff, h <= 0xffff_ffff;
    let expected: u128 = w * h * 4;
    if frame.pixels.len() as u128 != expected {
        return Err(CaptureError::BufferSizeMismatch);
    }
    png_to_payload(encode_png(frame.width, frame.height, &frame.pixels))
}

/// The capture pipeline after the display was read: the reader's failure,
/// or the frame's base64 PNG payload.
pub fn take_screenshot_internal(captured: Result<RawFrame, String>) -> (r: Result<String, CaptureError>)
    ensures
        captured is Err ==> r == Err::<String, CaptureError>(CaptureError::CaptureFailed(captured->Err_0)),
        captured is Ok ==> {
            let f = captured->Ok_0;
            &&& (!fits_grid(f.width, f.height, f.pixels@.len() as int)
                <==> r == Err::<String, CaptureError>(CaptureError::BufferSizeMismatch))
            &&& (r is Ok ==> r->Ok_0@ == b64_encode(png_encoding_of(f.width, f.height, f.pixels@)))
            &&& (r is Ok ==> declares_size(png_encoding_of(f.width, f.height, f.pixels@), f.width, f.height))
            &&& (r is Ok <==> succeeds(f.width, f.height, f.pixels@))
        },
{
    match captured {
        Err(e) => Err(CaptureError::CaptureFailed(e)),
        Ok(frame) => encode_frame(&frame),
    }
}

/// The answer of the capture command for a pipeline outcome; a failure is
/// answered, never raised.
pub fn desktop_env_screenshot(outcome: Result<String, CaptureError>) -> (r: ScreenshotResult)
    ensures
        reports(r, outcome),
{
    match outcome {
        Ok(payload) => ScreenshotResult { success: true, screenshot_data: Some(payload), error: None },
        Err(e) => ScreenshotResult { success: false, screenshot_data: None, error: Some(e.message()) },
    }
}

/// A successful capture's payload decodes to the frame's PNG stream, and that
/// stream declares the frame's width and height.
pub proof fn lemma_payload_is_png_of_frame(width: u32, height: u32, pixels: Seq<u8>, payload: Seq<char>)
    requires
        payload == b64_encode(png_encoding_of(width, height, pixels)),
        declares_size(png_encoding_of(width, height, pixels), width, height),
    ensures
        b64_decode(payload) == png_encoding_of(width, height, pixels),
        png_size(b64_decode(payload)) == Some((width, height)),
{
    lemma_base64_round_trip(png_encoding_of(width, height, pixels));
    lemma_declared_size(png_encoding_of(width, height, pixels), width, height);
}

/// With no display listed, the capture command answers failure, with no
/// payload and the text that no screen was found.
pub proof fn lemma_no_display_answers_failure(r: ScreenshotResult)
    requires
        reports(r, Err(CaptureError::NoDisplayFound)),
    ensures
        !r.success,
        r.screenshot_data is None,
        r.error is Some && r.error->Some_0@ == "No screen found"@,
{
}

} // verus!
