//! The screenshot pipeline: resize policy, format transcoding, and
//! packaging of the final bytes as a base64 data URI.
//!
//! Capturing a window's viewport is platform work that the surrounding
//! application performs; it hands the captured lossless (PNG) bytes in as a
//! [`Screenshot`].  Decoding, resampling, and re-encoding are done by the
//! `image` and `base64` crates behind the trusted wrappers below; every
//! decision of the pipeline — whether to resize, to what dimensions, which
//! format and MIME label to use, which error to report — is verified here.
use vstd::arithmetic::div_mod::{lemma_div_is_ordered, lemma_fundamental_div_mod_converse};
use vstd::prelude::*;
use vstd::string::*;

use crate::text::{parsed_u32, str_eq};
use base64::Engine;

verus! {

/// Screenshot result containing the image data
#[derive(Debug)]
pub struct Screenshot {
    /// The raw PNG bytes
    pub data: Vec<u8>,
}

/// Screenshot error types
#[derive(Debug)]
pub enum ScreenshotError {
    /// No capture provider exists for the current platform.
    PlatformUnsupported,
    /// The platform capture API failed, with its reason.
    CaptureFailed(String),
    /// Decoding or re-encoding for format conversion failed.
    EncodeFailed(String),
    /// Decoding or resampling during the resize stage failed.
    ResizeFailed(String),
    /// Reserved for callers layering their own deadline.
    Timeout,
}

impl ScreenshotError {
    /// A human-readable description of the error.
    pub fn message(&self) -> (r: String)
        ensures
            match self {
                ScreenshotError::PlatformUnsupported => r@ == "Platform not supported"@,
                ScreenshotError::CaptureFailed(m) => r@ == "Webview capture failed: "@ + m@,
                ScreenshotError::EncodeFailed(m) => r@ == "Encoding failed: "@ + m@,
                ScreenshotError::ResizeFailed(m) => r@ == "Resize failed: "@ + m@,
                ScreenshotError::Timeout => r@ == "Timeout exceeded"@,
            },
    {
        match self {
            ScreenshotError::PlatformUnsupported => String::from_str("Platform not supported"),
            ScreenshotError::CaptureFailed(m) => {
                let mut s = String::from_str("Webview capture failed: ");
                s.append(m.as_str());
                s
            },
            ScreenshotError::EncodeFailed(m) => {
                let mut s = String::from_str("Encoding failed: ");
                s.append(m.as_str());
                s
            },
            ScreenshotError::ResizeFailed(m) => {
                let mut s = String::from_str("Resize failed: ");
                s.append(m.as_str());
                s
            },
            ScreenshotError::Timeout => String::from_str("Timeout exceeded"),
        }
    }
}

/// The standard base64 encoding (with padding) of `bytes`; it depends on
/// the bytes alone.
pub uninterp spec fn base64_of(bytes: Seq<u8>) -> Seq<char>;

/// Relies on `image::load_from_memory` to decode the bytes, and on
/// `DynamicImage::width` and `DynamicImage::height` to read the decoded
/// dimensions.  The crate's decoding goes through a process-global,
/// runtime-mutable hook registry (its `hooks` module) before the built-in
/// format detection, so what equal bytes decode to can differ between
/// calls; nothing is therefore assumed of the outcome, and the verified
/// policy takes the returned dimensions as arguments.
#[verifier::external_body]
fn probe_dimensions(data: &Vec<u8>) -> Result<(u32, u32), String> {
    match image::load_from_memory(data.as_slice()) {
        Ok(img) => Ok((img.width(), img.height())),
        Err(e) => Err(e.to_string()),
    }
}

/// Relies on `image::load_from_memory`, `DynamicImage::resize_exact` with a
/// Lanczos filter, and `DynamicImage::write_to` with the PNG format.
/// Decoding goes through the crate's process-global hook registry (see
/// [`probe_dimensions`]), so nothing is assumed of the outcome; the
/// dimensions the result is expected to have are checked by the tests, not
/// stated here.
#[verifier::external_body]
fn resample_png(data: &Vec<u8>, nwidth: u32, nheight: u32) -> Result<Vec<u8>, String>
    requires
        nwidth >= 1,
        nheight >= 1,
{
    let img = match image::load_from_memory(data.as_slice()) {
        Ok(img) => img,
        Err(e) => return Err(e.to_string()),
    };
    let resized = img.resize_exact(nwidth, nheight, image::imageops::FilterType::Lanczos3);
    let mut buffer = std::io::Cursor::new(Vec::new());
    match resized.write_to(&mut buffer, image::ImageFormat::Png) {
        Ok(()) => Ok(buffer.into_inner()),
        Err(e) => Err(e.to_string()),
    }
}

/// Relies on `image::load_from_memory` and on
/// `JpegEncoder::new_with_quality` with `DynamicImage::write_with_encoder`
/// (quality is clamped to 1–100; dimensions outside 1–65535 are an error,
/// not a panic).  Decoding goes through the crate's process-global hook
/// registry (see [`probe_dimensions`]), so nothing is assumed of the
/// outcome.
#[verifier::external_body]
fn encode_jpeg(data: &Vec<u8>, quality: u8) -> Result<Vec<u8>, String> {
    let img = match image::load_from_memory(data.as_slice()) {
        Ok(img) => img,
        Err(e) => return Err(e.to_string()),
    };
    let mut buffer = std::io::Cursor::new(Vec::new());
    let encoder = image::codecs::jpeg::JpegEncoder::new_with_quality(&mut buffer, quality);
    match img.write_with_encoder(encoder) {
        Ok(()) => Ok(buffer.into_inner()),
        Err(e) => Err(e.to_string()),
    }
}

/// Relies on `base64::engine::general_purpose::STANDARD.encode`: standard
/// base64 with padding, a function of the bytes alone.
#[verifier::external_body]
fn base64_encode(data: &Vec<u8>) -> (r: String)
    ensures
        r@ == base64_of(data@),
{
    base64::engine::general_purpose::STANDARD.encode(data.as_slice())
}

/// The effective width ceiling: an explicit request parameter wins over the
/// process-wide default, which counts only when it parses as a `u32`.
pub open spec fn effective_ceiling(param: Option<u32>, default_value: Option<Seq<char>>) -> Option<
    u32,
> {
    match param {
        Some(v) => Some(v),
        None => match default_value {
            Some(s) => parsed_u32(s),
            None => None,
        },
    }
}

/// Get the effective max_width value.
/// Priority: explicit parameter > process-wide default > none.
pub fn get_effective_max_width(param: Option<u32>, default_value: Option<&str>) -> (r: Option<
    u32,
>)
    ensures
        r == effective_ceiling(
            param,
            match default_value {
                Some(s) => Some(s@),
                None => None,
            },
        ),
{
    match param {
        Some(v) => Some(v),
        None => match default_value {
            Some(s) => crate::text::parse_u32(s),
            None => None,
        },
    }
}

/// Rounded division `a / b` (half away from zero, for non-negative
/// operands): the height the resize policy pairs with a scaled width.
pub open spec fn round_div(a: int, b: int) -> int {
    (2 * a + b) / (2 * b)
}

/// The dimensions the resize policy aims at: nothing when the image already
/// fits under the ceiling; otherwise the ceiling (raised to 1 when it is 0)
/// as width, and the height that preserves the aspect ratio up to rounding,
/// raised to 1 when rounding would reach 0.
pub open spec fn spec_resize_target(width: u32, height: u32, ceiling: u32) -> Option<(u32, u32)> {
    if width <= ceiling {
        None
    } else {
        let tw: u32 = if ceiling < 1 {
            1u32
        } else {
            ceiling
        };
        let th = round_div(height as int * tw as int, width as int);
        Some((tw, (if th < 1 { 1int } else { th }) as u32))
    }
}

/// The width of what the resize policy returns for an image of the given
/// dimensions: the ceiling where the image is wider, the image's own width
/// otherwise.
pub open spec fn spec_output_width(width: u32, height: u32, ceiling: u32) -> u32 {
    match spec_resize_target(width, height, ceiling) {
        None => width,
        Some(t) => t.0,
    }
}

/// The scaled height stays within `u32` bounds: it never exceeds the
/// original height (or 1, for degenerate originals).
proof fn lemma_target_height_bound(width: u32, height: u32, ceiling: u32)
    requires
        ceiling < width,
    ensures
        (match spec_resize_target(width, height, ceiling) {
            Some(t) => 1 <= t.1 <= (if height < 1 {
                1u32
            } else {
                height
            }),
            None => false,
        }),
{
    let w = width as int;
    let h = height as int;
    let tw: int = if ceiling < 1 {
        1
    } else {
        ceiling as int
    };
    assert(1 <= tw <= w);
    assert(2 * (h * tw) + w <= 2 * (h * w) + w) by (nonlinear_arith)
        requires
            tw <= w,
            h >= 0,
    ;
    lemma_div_is_ordered(2 * (h * tw) + w, 2 * (h * w) + w, 2 * w);
    assert(2 * (h * w) + w == h * (2 * w) + w) by (nonlinear_arith);
    lemma_fundamental_div_mod_converse(2 * (h * w) + w, 2 * w, h, w);
    assert(round_div(h * tw, w) <= h);
    assert(h * tw >= 0) by (nonlinear_arith)
        requires
            h >= 0,
            tw >= 0,
    ;
    vstd::arithmetic::div_mod::lemma_div_pos_is_pos(2 * (h * tw) + w, 2 * w);
    assert(round_div(h * tw, w) >= 0);
}

/// No upscaling: for any positive ceiling, the resize policy's output width
/// never exceeds the original width, never exceeds the ceiling, and is in
/// fact exactly the smaller of the two.
pub proof fn lemma_no_upscaling(width: u32, height: u32, ceiling: u32)
    requires
        ceiling >= 1,
    ensures
        spec_output_width(width, height, ceiling) <= width,
        spec_output_width(width, height, ceiling) <= ceiling,
        spec_output_width(width, height, ceiling) == (if width <= ceiling {
            width
        } else {
            ceiling
        }),
{
}

/// The dimensions the resize policy aims at for an image of `width` by
/// `height` under `ceiling`: nothing when no resize is needed, else the
/// exact output dimensions.
pub fn resize_target(width: u32, height: u32, ceiling: u32) -> (r: Option<(u32, u32)>)
    ensures
        r == spec_resize_target(width, height, ceiling),
{
    if width <= ceiling {
        return None;
    }
    let tw: u32 = if ceiling < 1 {
        1
    } else {
        ceiling
    };
    let h128: u128 = height as u128;
    let tw128: u128 = tw as u128;
    proof {
        assert(h128 * tw128 <= 0xffff_ffff_ffff_ffff) by (nonlinear_arith)
            requires
                h128 <= 0xffff_ffff,
                tw128 <= 0xffff_ffff,
        ;
    }
    let num: u128 = 2 * (h128 * tw128) + (width as u128);
    let den: u128 = 2 * (width as u128);
    let q: u128 = num / den;
    proof {
        lemma_target_height_bound(width, height, ceiling);
        assert(h128 as int * tw128 as int == height as int * tw as int);
        assert(q == round_div(height as int * tw as int, width as int));
    }
    let th: u32 = if q < 1 {
        1
    } else {
        q as u32
    };
    Some((tw, th))
}

/// Applies the resize policy to image data whose decoded dimensions the
/// caller has already probed: returns the data byte-for-byte when `width`
/// fits under the ceiling, and otherwise resamples to the policy's target
/// dimensions.  Verified for every value of `width` and `height`, however
/// the probe behaved.
pub fn resize_with_dims(data: Vec<u8>, width: u32, height: u32, max_width: u32) -> (r: Result<
    Vec<u8>,
    ScreenshotError,
>)
    ensures
        spec_resize_target(width, height, max_width) is None ==> (r matches Ok(out) && out@
            == data@),
        r matches Err(e) ==> (spec_resize_target(width, height, max_width) is Some && e matches
            ScreenshotError::ResizeFailed(_)),
{
    match resize_target(width, height, max_width) {
        None => Ok(data),
        Some(target) => {
            proof {
                lemma_target_height_bound(width, height, max_width);
            }
            match resample_png(&data, target.0, target.1) {
                Ok(out) => Ok(out),
                Err(m) => {
                    let mut msg = String::from_str("Failed to encode PNG: ");
                    msg.append(m.as_str());
                    Err(ScreenshotError::ResizeFailed(msg))
                },
            }
        },
    }
}

/// Resize image data if it exceeds max_width, preserving aspect ratio.
/// Returns the original data byte-for-byte if no resizing is needed.
/// This function only handles resizing, not format conversion: the result
/// stays in the lossless working format (PNG).
///
/// The decode decides what happens, so only the failure shape is promised
/// here; the policy itself is stated exactly on [`resize_with_dims`] and
/// [`resize_target`], which take the probed dimensions as arguments.
pub fn resize_if_needed(data: Vec<u8>, max_width: u32) -> (r: Result<Vec<u8>, ScreenshotError>)
    ensures
        r matches Err(e) ==> e matches ScreenshotError::ResizeFailed(_),
{
    let dims = match probe_dimensions(&data) {
        Ok(d) => d,
        Err(m) => {
            let mut msg = String::from_str("Failed to decode image: ");
            msg.append(m.as_str());
            return Err(ScreenshotError::ResizeFailed(msg));
        },
    };
    resize_with_dims(data, dims.0, dims.1, max_width)
}

/// Convert PNG data to JPEG format with specified quality.
///
/// The codec decides what comes back, so only the failure shape is
/// promised: every failure of this stage is an `EncodeFailed`.
pub fn convert_to_jpeg(png_data: Vec<u8>, quality: u8) -> (r: Result<Vec<u8>, ScreenshotError>)
    ensures
        r matches Err(e) ==> e matches ScreenshotError::EncodeFailed(_),
{
    match probe_dimensions(&png_data) {
        Err(m) => {
            let mut msg = String::from_str("Failed to decode PNG: ");
            msg.append(m.as_str());
            Err(ScreenshotError::EncodeFailed(msg))
        },
        Ok(_) => match encode_jpeg(&png_data, quality) {
            Ok(out) => Ok(out),
            Err(m) => {
                let mut msg = String::from_str("Failed to encode JPEG: ");
                msg.append(m.as_str());
                Err(ScreenshotError::EncodeFailed(msg))
            },
        },
    }
}

/// Convert image data to the requested format (PNG or JPEG).
/// If PNG is requested the data is already in the lossless working format
/// and is returned unchanged, whatever the quality says.
pub fn convert_format(data: Vec<u8>, format: &str, quality: u8) -> (r: Result<
    Vec<u8>,
    ScreenshotError,
>)
    ensures
        format@ == "png"@ ==> (r matches Ok(out) && out@ == data@),
        r matches Err(e) ==> (format@ != "png"@ && e matches ScreenshotError::EncodeFailed(_)),
{
    if str_eq(format, "png") {
        return Ok(data);
    }
    convert_to_jpeg(data, quality)
}

/// The MIME label of the packaged image: `image/png` for the lossless
/// format, `image/jpeg` for the lossy one.
pub open spec fn mime_label(png: bool) -> Seq<char> {
    if png {
        "image/png"@
    } else {
        "image/jpeg"@
    }
}

/// A data URI embedding a base64 payload under a MIME label.
pub open spec fn spec_data_uri(mime: Seq<char>, payload: Seq<char>) -> Seq<char> {
    "data:"@ + mime + ";base64,"@ + payload
}

/// Packages captured viewport bytes as a base64 data URI, applying the
/// resize policy under the effective width ceiling and transcoding to the
/// requested format.
///
/// The stages run in strict sequence — resize, transcode, base64 — and each
/// stage's failure is surfaced unchanged; nothing is caught or retried.
/// When no ceiling applies and the lossless format is requested, no codec
/// is consulted at all and the exact output string is owed; on every other
/// success the output is a data URI whose MIME label matches the requested
/// format and whose payload is the base64 encoding of the staged bytes.
pub fn package_screenshot(
    screenshot: Screenshot,
    format: &str,
    quality: u8,
    max_width: Option<u32>,
    default_max_width: Option<&str>,
) -> (r: Result<String, ScreenshotError>)
    requires
        format@ == "png"@ || format@ == "jpeg"@,
    ensures
        ({
            let png = format@ == "png"@;
            let ceiling = effective_ceiling(
                max_width,
                match default_max_width {
                    Some(s) => Some(s@),
                    None => None,
                },
            );
            &&& (r matches Ok(s) ==> exists|payload: Seq<u8>|
                s@ == spec_data_uri(mime_label(png), #[trigger] base64_of(payload)))
            &&& (png && ceiling is None ==> (r matches Ok(s) && s@ == spec_data_uri(
                mime_label(true),
                base64_of(screenshot.data@),
            )))
            &&& (r matches Err(e) ==> ((e matches ScreenshotError::ResizeFailed(_) || e matches
            ScreenshotError::EncodeFailed(_)) && (png ==> e matches ScreenshotError::ResizeFailed(
                _,
            ))))
        }),
{
    let ceiling = get_effective_max_width(max_width, default_max_width);
    let data = screenshot.data;
    let resized = match ceiling {
        Some(c) => match resize_if_needed(data, c) {
            Ok(d) => d,
            Err(e) => {
                return Err(e);
            },
        },
        None => data,
    };
    let is_png = str_eq(format, "png");
    let final_data = if is_png {
        resized
    } else {
        match convert_to_jpeg(resized, quality) {
            Ok(d) => d,
            Err(e) => {
                return Err(e);
            },
        }
    };
    let mime = if is_png {
        "image/png"
    } else {
        "image/jpeg"
    };
    let payload = base64_encode(&final_data);
    let mut uri = String::from_str("data:");
    uri.append(mime);
    uri.append(";base64,");
    uri.append(payload.as_str());
    Ok(uri)
}

} // verus!
