//! Format detection by magic-number sniffing.
//!
//! An encoded image names its format in its leading bytes. Detection looks at
//! those bytes alone and never trusts an external hint; an input that starts
//! with none of the known signatures is not an image this library accepts.

use vstd::prelude::*;

verus! {

/// The raster formats whose signatures detection recognizes.
#[derive(Clone, Copy, Debug, PartialEq, Eq, Structural)]
pub enum ImageKind {
    Png,
    Jpeg,
    Gif,
    WebP,
    Tiff,
    Dds,
    Bmp,
    Ico,
    Hdr,
    Pnm,
    Farbfeld,
    Avif,
    OpenExr,
    Qoi,
}

/// The eight-byte PNG signature: 0x89 "PNG" CR LF 0x1a LF.
pub open spec fn is_png_signature(b: Seq<u8>) -> bool {
    b.len() >= 8 && b[0] == 0x89 && b[1] == 0x50 && b[2] == 0x4e && b[3] == 0x47
        && b[4] == 0x0d && b[5] == 0x0a && b[6] == 0x1a && b[7] == 0x0a
}

/// The JPEG start-of-image marker 0xff 0xd8 followed by a marker byte 0xff.
pub open spec fn is_jpeg_signature(b: Seq<u8>) -> bool {
    b.len() >= 3 && b[0] == 0xff && b[1] == 0xd8 && b[2] == 0xff
}

/// "GIF89a" or "GIF87a".
pub open spec fn is_gif_signature(b: Seq<u8>) -> bool {
    b.len() >= 6 && b[0] == 0x47 && b[1] == 0x49 && b[2] == 0x46 && b[3] == 0x38
        && (b[4] == 0x39 || b[4] == 0x37) && b[5] == 0x61
}

/// The RIFF container tag "RIFF", taken as WebP.
pub open spec fn is_webp_signature(b: Seq<u8>) -> bool {
    b.len() >= 4 && b[0] == 0x52 && b[1] == 0x49 && b[2] == 0x46 && b[3] == 0x46
}

/// TIFF in either byte order: "MM\0*" or "II*\0".
pub open spec fn is_tiff_signature(b: Seq<u8>) -> bool {
    b.len() >= 4 && ((b[0] == 0x4d && b[1] == 0x4d && b[2] == 0x00 && b[3] == 0x2a)
        || (b[0] == 0x49 && b[1] == 0x49 && b[2] == 0x2a && b[3] == 0x00))
}

/// "DDS " with a trailing space.
pub open spec fn is_dds_signature(b: Seq<u8>) -> bool {
    b.len() >= 4 && b[0] == 0x44 && b[1] == 0x44 && b[2] == 0x53 && b[3] == 0x20
}

/// The bitmap tag "BM".
pub open spec fn is_bmp_signature(b: Seq<u8>) -> bool {
    b.len() >= 2 && b[0] == 0x42 && b[1] == 0x4d
}

/// The ICO reserved word 0 followed by the type word 1, little-endian.
pub open spec fn is_ico_signature(b: Seq<u8>) -> bool {
    b.len() >= 4 && b[0] == 0x00 && b[1] == 0x00 && b[2] == 0x01 && b[3] == 0x00
}

/// The Radiance HDR header "#?RADIANCE".
pub open spec fn is_hdr_signature(b: Seq<u8>) -> bool {
    b.len() >= 10 && b[0] == 0x23 && b[1] == 0x3f && b[2] == 0x52 && b[3] == 0x41
        && b[4] == 0x44 && b[5] == 0x49 && b[6] == 0x41 && b[7] == 0x4e && b[8] == 0x43
        && b[9] == 0x45
}

/// A netpbm header "P1" through "P7".
pub open spec fn is_pnm_signature(b: Seq<u8>) -> bool {
    b.len() >= 2 && b[0] == 0x50 && 0x31 <= b[1] && b[1] <= 0x37
}

/// The farbfeld header "farbfeld".
pub open spec fn is_farbfeld_signature(b: Seq<u8>) -> bool {
    b.len() >= 8 && b[0] == 0x66 && b[1] == 0x61 && b[2] == 0x72 && b[3] == 0x62
        && b[4] == 0x66 && b[5] == 0x65 && b[6] == 0x6c && b[7] == 0x64
}

/// An ISO-BMFF "ftypavif" box of size 0x20 or 0x1c at the start of the file.
pub open spec fn is_avif_signature(b: Seq<u8>) -> bool {
    b.len() >= 12 && b[0] == 0x00 && b[1] == 0x00 && b[2] == 0x00
        && (b[3] == 0x20 || b[3] == 0x1c) && b[4] == 0x66 && b[5] == 0x74 && b[6] == 0x79
        && b[7] == 0x70 && b[8] == 0x61 && b[9] == 0x76 && b[10] == 0x69 && b[11] == 0x66
}

/// The OpenEXR magic number 0x76 0x2f 0x31 0x01.
pub open spec fn is_openexr_signature(b: Seq<u8>) -> bool {
    b.len() >= 4 && b[0] == 0x76 && b[1] == 0x2f && b[2] == 0x31 && b[3] == 0x01
}

/// The QOI header "qoif".
pub open spec fn is_qoi_signature(b: Seq<u8>) -> bool {
    b.len() >= 4 && b[0] == 0x71 && b[1] == 0x6f && b[2] == 0x69 && b[3] == 0x66
}

/// What magic-number sniffing makes of a byte sequence: the first format
/// whose signature the leading bytes carry, or nothing when no known
/// signature matches. No two signatures overlap, save that every signature
/// is tried in this fixed order.
pub open spec fn spec_sniff(b: Seq<u8>) -> Option<ImageKind> {
    if is_png_signature(b) {
        Some(ImageKind::Png)
    } else if is_jpeg_signature(b) {
        Some(ImageKind::Jpeg)
    } else if is_gif_signature(b) {
        Some(ImageKind::Gif)
    } else if is_webp_signature(b) {
        Some(ImageKind::WebP)
    } else if is_tiff_signature(b) {
        Some(ImageKind::Tiff)
    } else if is_dds_signature(b) {
        Some(ImageKind::Dds)
    } else if is_bmp_signature(b) {
        Some(ImageKind::Bmp)
    } else if is_ico_signature(b) {
        Some(ImageKind::Ico)
    } else if is_hdr_signature(b) {
        Some(ImageKind::Hdr)
    } else if is_pnm_signature(b) {
        Some(ImageKind::Pnm)
    } else if is_farbfeld_signature(b) {
        Some(ImageKind::Farbfeld)
    } else if is_avif_signature(b) {
        Some(ImageKind::Avif)
    } else if is_openexr_signature(b) {
        Some(ImageKind::OpenExr)
    } else if is_qoi_signature(b) {
        Some(ImageKind::Qoi)
    } else {
        None
    }
}

/// Detects the format of an encoded image from its leading bytes.
pub fn sniff_format(data: &[u8]) -> (r: Option<ImageKind>)
    ensures
        r == spec_sniff(data@),
{
    let n: usize = data.len();
    if n >= 8 && data[0] == 0x89 && data[1] == 0x50 && data[2] == 0x4e && data[3] == 0x47
        && data[4] == 0x0d && data[5] == 0x0a && data[6] == 0x1a && data[7] == 0x0a {
        Some(ImageKind::Png)
    } else if n >= 3 && data[0] == 0xff && data[1] == 0xd8 && data[2] == 0xff {
        Some(ImageKind::Jpeg)
    } else if n >= 6 && data[0] == 0x47 && data[1] == 0x49 && data[2] == 0x46 && data[3] == 0x38
        && (data[4] == 0x39 || data[4] == 0x37) && data[5] == 0x61 {
        Some(ImageKind::Gif)
    } else if n >= 4 && data[0] == 0x52 && data[1] == 0x49 && data[2] == 0x46 && data[3] == 0x46 {
        Some(ImageKind::WebP)
    } else if n >= 4 && ((data[0] == 0x4d && data[1] == 0x4d && data[2] == 0x00
        && data[3] == 0x2a) || (data[0] == 0x49 && data[1] == 0x49 && data[2] == 0x2a
        && data[3] == 0x00)) {
        Some(ImageKind::Tiff)
    } else if n >= 4 && data[0] == 0x44 && data[1] == 0x44 && data[2] == 0x53 && data[3] == 0x20 {
        Some(ImageKind::Dds)
    } else if n >= 2 && data[0] == 0x42 && data[1] == 0x4d {
        Some(ImageKind::Bmp)
    } else if n >= 4 && data[0] == 0x00 && data[1] == 0x00 && data[2] == 0x01 && data[3] == 0x00 {
        Some(ImageKind::Ico)
    } else if n >= 10 && data[0] == 0x23 && data[1] == 0x3f && data[2] == 0x52 && data[3] == 0x41
        && data[4] == 0x44 && data[5] == 0x49 && data[6] == 0x41 && data[7] == 0x4e
        && data[8] == 0x43 && data[9] == 0x45 {
        Some(ImageKind::Hdr)
    } else if n >= 2 && data[0] == 0x50 && 0x31 <= data[1] && data[1] <= 0x37 {
        Some(ImageKind::Pnm)
    } else if n >= 8 && data[0] == 0x66 && data[1] == 0x61 && data[2] == 0x72 && data[3] == 0x62
        && data[4] == 0x66 && data[5] == 0x65 && data[6] == 0x6c && data[7] == 0x64 {
        Some(ImageKind::Farbfeld)
    } else if n >= 12 && data[0] == 0x00 && data[1] == 0x00 && data[2] == 0x00
        && (data[3] == 0x20 || data[3] == 0x1c) && data[4] == 0x66 && data[5] == 0x74
        && data[6] == 0x79 && data[7] == 0x70 && data[8] == 0x61 && data[9] == 0x76
        && data[10] == 0x69 && data[11] == 0x66 {
        Some(ImageKind::Avif)
    } else if n >= 4 && data[0] == 0x76 && data[1] == 0x2f && data[2] == 0x31 && data[3] == 0x01 {
        Some(ImageKind::OpenExr)
    } else if n >= 4 && data[0] == 0x71 && data[1] == 0x6f && data[2] == 0x69 && data[3] == 0x66 {
        Some(ImageKind::Qoi)
    } else {
        None
    }
}

} // verus!

