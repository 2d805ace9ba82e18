//! The delegated codec steps: decoding, resampling and JPEG encoding.
//!
//! Each step is a call into the `image` crate behind a trusted wrapper. The
//! wrappers' contracts speak of an opaque raster through three names for what
//! a raster holds — its width, its height and its pixel samples — and of each
//! call's result through a name that makes the step a function of its
//! arguments alone, which is what lets determinism of the whole operation be
//! proved.

use vstd::prelude::*;

verus! {

#[verifier::external_type_specification]
#[verifier::external_body]
pub struct ExDynamicImage(image::DynamicImage);

/// The width in pixels of a decoded raster.
pub uninterp spec fn raster_width(img: image::DynamicImage) -> u32;

/// The height in pixels of a decoded raster.
pub uninterp spec fn raster_height(img: image::DynamicImage) -> u32;

/// The sample data a decoded raster holds, as an abstract sequence.
pub uninterp spec fn raster_pixels(img: image::DynamicImage) -> Seq<u32>;

/// What decoding a byte sequence yields: the raster's width, height and
/// samples, or nothing where no signature matches or the matched codec
/// rejects the bytes. Decoding is CPU-bound and reads the bytes alone, so its
/// outcome is a function of them.
pub uninterp spec fn decoded_of(bytes: Seq<u8>) -> Option<(u32, u32, Seq<u32>)>;

/// What scaling a raster to fit within the given bounds yields. Resampling
/// is deterministic, so the result is a function of the raster and the
/// bounds.
pub uninterp spec fn resized_of(w: u32, h: u32, pixels: Seq<u32>, bound_w: u32, bound_h: u32) -> (
    u32,
    u32,
    Seq<u32>,
);

/// What JPEG-encoding a raster at a given quality yields, or nothing where
/// the encoder rejects the raster. The encoder is deterministic, so the
/// bytes are a function of the raster and the quality.
pub uninterp spec fn jpeg_of(w: u32, h: u32, pixels: Seq<u32>, quality: u8) -> Option<Seq<u8>>;

/// Relies on image's `io::Reader`: `with_guessed_format` sniffs the leading
/// bytes (an in-memory cursor cannot fail to read) and `decode` runs the
/// matching codec; both read the bytes alone, so the outcome is `decoded_of`
/// the bytes.
#[verifier::external_body]
pub(crate) fn decode_bytes(data: &[u8]) -> (r: Result<image::DynamicImage, String>)
    ensures
        r matches Ok(img) ==> decoded_of(data@) == Some(
            (raster_width(img), raster_height(img), raster_pixels(img)),
        ),
        r is Ok <==> decoded_of(data@) is Some,
{
    let reader = image::io::Reader::new(std::io::Cursor::new(data))
        .with_guessed_format()
        .map_err(|e| e.to_string())?;
    reader.decode().map_err(|e| e.to_string())
}

/// Relies on `DynamicImage::resize`: it scales to fit within the bounds
/// preserving aspect ratio via `resize_dimensions`, whose every branch caps
/// each dimension at the corresponding bound (or at 1 where the bound is 0)
/// and, for a raster of at least one pixel per side, keeps at least one
/// pixel per side. For such a raster the fit is also uniform and maximal:
/// both dimensions are scaled by one ratio, the smaller of the two ratios
/// the bounds allow, so the binding dimension lands exactly on its bound
/// (or on 1 for a zero bound) and the other keeps the source's proportions
/// up to the one-half-pixel rounding and the one-pixel clamp — hence the
/// cross-multiplied ratio bound with a slack of one source width plus one
/// source height. A zero bound makes the ratio zero, so both dimensions
/// clamp to exactly one pixel. Resampling with a fixed Lanczos filter is
/// deterministic.
#[verifier::external_body]
pub(crate) fn resize_to_fit(img: &image::DynamicImage, bound_w: u32, bound_h: u32) -> (r:
    image::DynamicImage)
    ensures
        (raster_width(r), raster_height(r), raster_pixels(r)) == resized_of(
            raster_width(*img),
            raster_height(*img),
            raster_pixels(*img),
            bound_w,
            bound_h,
        ),
        raster_width(r) <= (if bound_w >= 1 { bound_w } else { 1u32 }),
        raster_height(r) <= (if bound_h >= 1 { bound_h } else { 1u32 }),
        (raster_width(*img) >= 1 && raster_height(*img) >= 1) ==> (raster_width(r) >= 1
            && raster_height(r) >= 1),
        (raster_width(*img) >= 1 && raster_height(*img) >= 1) ==> (raster_width(r) == (if bound_w
            >= 1 {
            bound_w
        } else {
            1u32
        }) || raster_height(r) == (if bound_h >= 1 {
            bound_h
        } else {
            1u32
        })),
        (raster_width(*img) >= 1 && raster_height(*img) >= 1) ==> raster_width(r) * raster_height(
            *img,
        ) <= raster_height(r) * raster_width(*img) + raster_width(*img) + raster_height(*img),
        (raster_width(*img) >= 1 && raster_height(*img) >= 1) ==> raster_height(r) * raster_width(
            *img,
        ) <= raster_width(r) * raster_height(*img) + raster_width(*img) + raster_height(*img),
        (raster_width(*img) >= 1 && raster_height(*img) >= 1 && (bound_w == 0 || bound_h == 0))
            ==> (raster_width(r) == 1 && raster_height(r) == 1),
{
    img.resize(bound_w, bound_h, image::imageops::FilterType::Lanczos3)
}

/// Relies on `DynamicImage::write_to` with `ImageOutputFormat::Jpeg`: the
/// encoder clamps the quality into 1..=100, reads only the raster and the
/// quality, and either fills the buffer or reports why it refuses the
/// raster. A filled buffer opens with the start-of-image marker and the
/// first marker of the JFIF header — the JPEG signature. Its frame header
/// carries the raster's exact width and height, so whenever the sniffing
/// decoder `decode_bytes` relies on accepts the buffer it returns those
/// dimensions; and it does accept the buffer for a raster of at least one
/// pixel per side whose decoded form (at most three bytes per pixel) fits
/// under the reader's default allocation ceiling.
#[verifier::external_body]
pub(crate) fn encode_jpeg(img: &image::DynamicImage, quality: u8) -> (r: Result<Vec<u8>, String>)
    ensures
        r matches Ok(v) ==> jpeg_of(
            raster_width(*img),
            raster_height(*img),
            raster_pixels(*img),
            quality,
        ) == Some(v@),
        r is Ok <==> jpeg_of(raster_width(*img), raster_height(*img), raster_pixels(*img), quality)
            is Some,
        r matches Ok(v) ==> crate::sniff::is_jpeg_signature(v@),
        (match r {
            Ok(v) => (decoded_of(v@) matches Some(d) ==> (d.0 == raster_width(*img) && d.1
                == raster_height(*img))),
            Err(_) => true,
        }),
        (match r {
            Ok(v) => (raster_width(*img) >= 1 && raster_height(*img) >= 1 && 3 * raster_width(*img)
                * raster_height(*img) <= 0x20000000) ==> decoded_of(v@) is Some,
            Err(_) => true,
        }),
{
    let mut buf: Vec<u8> = Vec::new();
    img.write_to(&mut std::io::Cursor::new(&mut buf), image::ImageOutputFormat::Jpeg(quality))
        .map_err(|e| e.to_string())?;
    Ok(buf)
}

} // verus!
