//! Decode an in-memory encoded image, resize it to fit within requested
//! bounds while preserving its aspect ratio, and re-encode it as JPEG at a
//! caller-chosen quality.
//!
//! The operation is a pure function of its inputs: format detection, decoding,
//! resampling and encoding are all deterministic, so identical arguments give
//! identical outcomes.

use vstd::prelude::*;

pub mod codec;
pub mod sniff;

use crate::codec::{decode_bytes, decoded_of, encode_jpeg, jpeg_of, resize_to_fit, resized_of};
use crate::sniff::{is_jpeg_signature, sniff_format, spec_sniff, ImageKind};
use vstd::string::StringExecFns;

verus! {

/// Why a call failed: the stage that rejected the input, with the underlying
/// codec's message where one exists. Detection failure carries no message of
/// its own: no known signature matched, so no codec was ever consulted.
#[derive(Debug)]
pub enum ResizeError {
    FormatDetection,
    Decode(String),
    Encode(String),
}

impl ResizeError {
    /// The human-readable message for this error, prefixed with the stage
    /// that failed.
    pub open spec fn spec_message(&self) -> Seq<char> {
        match self {
            ResizeError::FormatDetection => "Failed to detect image format"@,
            ResizeError::Decode(m) => "Failed to decode image: "@ + m@,
            ResizeError::Encode(m) => "Failed to encode image: "@ + m@,
        }
    }

    /// Renders the error as its stage-prefixed message.
    pub fn message(&self) -> (m: String)
        ensures
            m@ == self.spec_message(),
    {
        match self {
            ResizeError::FormatDetection => String::from_str("Failed to detect image format"),
            ResizeError::Decode(inner) => String::from_str("Failed to decode image: ").concat(
                inner.as_str(),
            ),
            ResizeError::Encode(inner) => String::from_str("Failed to encode image: ").concat(
                inner.as_str(),
            ),
        }
    }
}

/// The bytes the whole operation returns on the given arguments, or `None`
/// where one of its three stages rejects the input: the composition of
/// detection, decoding, fit-within-bounds resampling and JPEG encoding.
pub open spec fn resize_outcome(bytes: Seq<u8>, bound_w: u32, bound_h: u32, quality: u8) -> Option<
    Seq<u8>,
> {
    if spec_sniff(bytes) is None {
        None
    } else {
        match decoded_of(bytes) {
            None => None,
            Some(d) => {
                let rz = resized_of(d.0, d.1, d.2, bound_w, bound_h);
                jpeg_of(rz.0, rz.1, rz.2, quality)
            },
        }
    }
}

/// Everything `resize_image` promises of its result `r`:
/// - on success the bytes are exactly `resize_outcome` of the arguments, and
///   success comes precisely when that outcome exists;
/// - each error variant comes precisely from its own stage: detection fails
///   if and only if no known signature matches, decoding fails if and only if
///   the matched codec rejects the bytes, encoding fails if and only if the
///   JPEG encoder rejects the resized raster;
/// - whenever decoding succeeds, the raster handed to the encoder fits within
///   the requested bounds (a zero bound degenerates the whole fit to exactly
///   one pixel per side) and keeps at least one pixel in each dimension; for
///   a decoded raster of
///   at least one pixel per side the fit is maximal and uniform — the binding
///   dimension lands exactly on its (degenerate-adjusted) bound and the two
///   dimensions keep the source's aspect ratio up to integer rounding, stated
///   as a cross-multiplied bound with a slack of one source width plus one
///   source height;
/// - the successful output is a JPEG stream: it carries the JPEG signature,
///   sniffs as JPEG, whatever it decodes to has exactly the fitted
///   dimensions, and it does decode whenever the fitted raster fits under
///   the decoder's compiled-in allocation ceiling.
pub open spec fn resize_post(
    bytes: Seq<u8>,
    bound_w: u32,
    bound_h: u32,
    quality: u8,
    r: Result<Vec<u8>, ResizeError>,
) -> bool {
    &&& (r matches Ok(v) ==> resize_outcome(bytes, bound_w, bound_h, quality) == Some(v@))
    &&& (r is Ok <==> resize_outcome(bytes, bound_w, bound_h, quality) is Some)
    &&& ((r matches Err(e) && e is FormatDetection) <==> spec_sniff(bytes) is None)
    &&& ((r matches Err(e) && e is Decode) <==> (spec_sniff(bytes) is Some && decoded_of(bytes)
        is None))
    &&& ((r matches Err(e) && e is Encode) <==> (spec_sniff(bytes) is Some && (
    match decoded_of(bytes) {
        Some(d) => {
            let rz = resized_of(d.0, d.1, d.2, bound_w, bound_h);
            jpeg_of(rz.0, rz.1, rz.2, quality) is None
        },
        None => false,
    })))
    &&& (match decoded_of(bytes) {
        Some(d) => spec_sniff(bytes) is Some ==> ({
            let rz = resized_of(d.0, d.1, d.2, bound_w, bound_h);
            &&& rz.0 <= (if bound_w >= 1 { bound_w } else { 1u32 })
            &&& rz.1 <= (if bound_h >= 1 { bound_h } else { 1u32 })
            &&& ((d.0 >= 1 && d.1 >= 1) ==> (rz.0 >= 1 && rz.1 >= 1))
            &&& ((d.0 >= 1 && d.1 >= 1) ==> (rz.0 == (if bound_w >= 1 { bound_w } else { 1u32 })
                || rz.1 == (if bound_h >= 1 { bound_h } else { 1u32 })))
            &&& ((d.0 >= 1 && d.1 >= 1) ==> rz.0 * d.1 <= rz.1 * d.0 + d.0 + d.1)
            &&& ((d.0 >= 1 && d.1 >= 1) ==> rz.1 * d.0 <= rz.0 * d.1 + d.0 + d.1)
            &&& ((d.0 >= 1 && d.1 >= 1 && (bound_w == 0 || bound_h == 0)) ==> (rz.0 == 1 && rz.1
                == 1))
        }),
        None => true,
    })
    &&& (match r {
        Ok(v) => is_jpeg_signature(v@) && spec_sniff(v@) == Some(ImageKind::Jpeg),
        Err(_) => true,
    })
    &&& (match (r, decoded_of(bytes)) {
        (Ok(v), Some(d)) => (d.0 >= 1 && d.1 >= 1) ==> ({
            let rz = resized_of(d.0, d.1, d.2, bound_w, bound_h);
            &&& (decoded_of(v@) matches Some(dv) ==> (dv.0 == rz.0 && dv.1 == rz.1))
            &&& (3 * rz.0 * rz.1 <= 0x20000000 ==> decoded_of(v@) is Some)
        }),
        _ => true,
    })
}

/// Decodes an encoded image, scales it to fit within `width` by `height`
/// preserving its aspect ratio (no cropping; a Lanczos-class filter), and
/// re-encodes it as JPEG at the given quality.
///
/// The format is detected from the leading bytes alone. A zero bound is
/// treated as a degenerate fit: the raster shrinks to its one-pixel minimum
/// rather than being rejected. The call never panics; every failure comes
/// back as the error of the stage that refused the input.
pub fn resize_image(file_data: &[u8], width: u32, height: u32, quality: u8) -> (r: Result<
    Vec<u8>,
    ResizeError,
>)
    ensures
        resize_post(file_data@, width, height, quality, r),
{
    match sniff_format(file_data) {
        None => Err(ResizeError::FormatDetection),
        Some(_) => match decode_bytes(file_data) {
            Err(m) => Err(ResizeError::Decode(m)),
            Ok(img) => {
                let scaled = resize_to_fit(&img, width, height);
                match encode_jpeg(&scaled, quality) {
                    Err(m) => Err(ResizeError::Encode(m)),
                    Ok(buf) => Ok(buf),
                }
            },
        },
    }
}

/// Re-invoking the operation with identical arguments gives the same
/// outcome: any two results the contract of `resize_image` admits for the
/// same inputs succeed or fail together, fail at the same stage, and on
/// success hold identical bytes.
pub proof fn lemma_deterministic(
    bytes: Seq<u8>,
    bound_w: u32,
    bound_h: u32,
    quality: u8,
    r1: Result<Vec<u8>, ResizeError>,
    r2: Result<Vec<u8>, ResizeError>,
)
    requires
        resize_post(bytes, bound_w, bound_h, quality, r1),
        resize_post(bytes, bound_w, bound_h, quality, r2),
    ensures
        r1 is Ok <==> r2 is Ok,
        (match (r1, r2) {
            (Ok(v1), Ok(v2)) => v1@ == v2@,
            (Err(e1), Err(e2)) => (e1 is FormatDetection <==> e2 is FormatDetection) && (e1
                is Decode <==> e2 is Decode) && (e1 is Encode <==> e2 is Encode),
            _ => true,
        }),
{
}

/// An input lacking any recognizable format signature — the empty buffer
/// among them — is rejected at the detection stage: no output buffer is ever
/// produced for it.
pub proof fn lemma_unrecognized_input_rejected(
    bytes: Seq<u8>,
    bound_w: u32,
    bound_h: u32,
    quality: u8,
    r: Result<Vec<u8>, ResizeError>,
)
    requires
        resize_post(bytes, bound_w, bound_h, quality, r),
        spec_sniff(bytes) is None,
    ensures
        r matches Err(e) && e is FormatDetection,
{
}

/// The empty buffer carries no signature, so it is always rejected at the
/// detection stage.
pub proof fn lemma_empty_input_rejected(
    bound_w: u32,
    bound_h: u32,
    quality: u8,
    r: Result<Vec<u8>, ResizeError>,
)
    requires
        resize_post(Seq::<u8>::empty(), bound_w, bound_h, quality, r),
    ensures
        r matches Err(e) && e is FormatDetection,
{
}

/// Whenever an input decodes, the raster handed to the encoder fits within
/// the requested bounds — neither dimension exceeds its bound, a zero bound
/// degenerating to a one-pixel minimum — and a raster of at least one pixel
/// per side never shrinks to nothing. For such a raster the fit is maximal
/// and aspect-preserving: one dimension lands exactly on its
/// (degenerate-adjusted) bound, and the fitted dimensions keep the decoded
/// raster's proportions up to integer rounding; a zero bound yields exactly
/// the one-by-one-pixel raster. The raster is scaled, not cropped: its
/// samples are those of `resized_of` the decoded raster, a pure function of
/// it and of the bounds.
pub proof fn lemma_resized_raster_fits(
    bytes: Seq<u8>,
    bound_w: u32,
    bound_h: u32,
    quality: u8,
    r: Result<Vec<u8>, ResizeError>,
    d: (u32, u32, Seq<u32>),
)
    requires
        resize_post(bytes, bound_w, bound_h, quality, r),
        spec_sniff(bytes) is Some,
        decoded_of(bytes) == Some(d),
    ensures
        resized_of(d.0, d.1, d.2, bound_w, bound_h).0 <= (if bound_w >= 1 {
            bound_w
        } else {
            1u32
        }),
        resized_of(d.0, d.1, d.2, bound_w, bound_h).1 <= (if bound_h >= 1 {
            bound_h
        } else {
            1u32
        }),
        (d.0 >= 1 && d.1 >= 1) ==> (resized_of(d.0, d.1, d.2, bound_w, bound_h).0 >= 1
            && resized_of(d.0, d.1, d.2, bound_w, bound_h).1 >= 1),
        (d.0 >= 1 && d.1 >= 1) ==> (resized_of(d.0, d.1, d.2, bound_w, bound_h).0 == (if bound_w
            >= 1 {
            bound_w
        } else {
            1u32
        }) || resized_of(d.0, d.1, d.2, bound_w, bound_h).1 == (if bound_h >= 1 {
            bound_h
        } else {
            1u32
        })),
        (d.0 >= 1 && d.1 >= 1) ==> resized_of(d.0, d.1, d.2, bound_w, bound_h).0 * d.1 <= resized_of(
            d.0,
            d.1,
            d.2,
            bound_w,
            bound_h,
        ).1 * d.0 + d.0 + d.1,
        (d.0 >= 1 && d.1 >= 1) ==> resized_of(d.0, d.1, d.2, bound_w, bound_h).1 * d.0 <= resized_of(
            d.0,
            d.1,
            d.2,
            bound_w,
            bound_h,
        ).0 * d.1 + d.0 + d.1,
        (d.0 >= 1 && d.1 >= 1 && (bound_w == 0 || bound_h == 0)) ==> (resized_of(
            d.0,
            d.1,
            d.2,
            bound_w,
            bound_h,
        ).0 == 1 && resized_of(d.0, d.1, d.2, bound_w, bound_h).1 == 1),
{
}

/// A successful output is itself an image this library accepts, and of the
/// single fixed output format: it opens with the JPEG signature, sniffs as
/// JPEG, and — for a decoded input raster of at least one pixel per side —
/// decodes back to a raster of exactly the fitted dimensions, the decode
/// being owed wherever the fitted raster fits under the decoder's
/// compiled-in allocation ceiling.
pub proof fn lemma_output_round_trip(
    bytes: Seq<u8>,
    bound_w: u32,
    bound_h: u32,
    quality: u8,
    r: Result<Vec<u8>, ResizeError>,
    d: (u32, u32, Seq<u32>),
)
    requires
        resize_post(bytes, bound_w, bound_h, quality, r),
        decoded_of(bytes) == Some(d),
        d.0 >= 1,
        d.1 >= 1,
        r is Ok,
    ensures
        (match r {
            Ok(v) => {
                let rz = resized_of(d.0, d.1, d.2, bound_w, bound_h);
                &&& is_jpeg_signature(v@)
                &&& spec_sniff(v@) == Some(ImageKind::Jpeg)
                &&& (decoded_of(v@) matches Some(dv) ==> (dv.0 == rz.0 && dv.1 == rz.1))
                &&& (3 * rz.0 * rz.1 <= 0x20000000 ==> decoded_of(v@) is Some)
            },
            Err(_) => true,
        }),
{
}

} // verus!



