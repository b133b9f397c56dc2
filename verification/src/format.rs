//! Pixel-format classification for DDS texture containers.
//!
//! A texture header names its pixel encoding through three fields: a
//! four-character compression code, a red channel mask and an alpha channel
//! mask. `identify` reads those fields at their fixed offsets and classifies
//! the encoding; any triple outside the known table is `Unknown`.

use vstd::prelude::*;

verus! {

/// The pixel encodings this library recognises. `A16B16G16R16` is recognised
/// as a layout but has no conversion, and the identification table
/// deliberately has no row for it: headers carrying it classify as `Unknown`.
#[derive(Copy, Clone, PartialEq, Eq, Debug, Structural)]
pub enum Format {
    Unknown,
    L8,
    A8,
    A4R4G4B4,
    A1R5G5B5,
    A8R8G8B8,
    X8R8G8B8,
    Dxt1,
    Dxt3,
    Dxt5,
    A16B16G16R16,
}

/// Everything that can go wrong in this library.
#[derive(Copy, Clone, PartialEq, Eq, Debug, Structural)]
pub enum DdsError {
    /// The format is `Unknown`, or recognised but has no conversion.
    UnsupportedFormat,
    /// The header buffer is too short to hold the fields `identify` reads.
    MalformedHeader,
    /// A pixel buffer's length is not a whole number of pixels or blocks.
    InvalidBufferLength,
}

/// A 32-bit little-endian integer assembled from four bytes.
pub open spec fn le32(b0: u8, b1: u8, b2: u8, b3: u8) -> u32 {
    (b0 as u32) | ((b1 as u32) << 8) | ((b2 as u32) << 16) | ((b3 as u32) << 24)
}

/// The identification table: an exact-match lookup on the header triple
/// (compression code, red mask, alpha mask). Any other triple is `Unknown`.
pub open spec fn classify_spec(cc: u32, red_mask: u32, alpha_mask: u32) -> Format {
    if cc == 0 && red_mask == 0xFF && alpha_mask == 0 {
        Format::L8
    } else if cc == 0 && red_mask == 0 && alpha_mask == 0xFF {
        Format::A8
    } else if cc == 0 && red_mask == 0x0F00 && alpha_mask == 0xF000 {
        Format::A4R4G4B4
    } else if cc == 0 && red_mask == 0x7C00 && alpha_mask == 0x8000 {
        Format::A1R5G5B5
    } else if cc == 0 && red_mask == 0x00FF0000 && alpha_mask == 0xFF000000 {
        Format::A8R8G8B8
    } else if cc == 0 && red_mask == 0x00FF0000 && alpha_mask == 0 {
        Format::X8R8G8B8
    } else if cc == 0x31545844 && red_mask == 0 && alpha_mask == 0 {
        Format::Dxt1
    } else if cc == 0x33545844 && red_mask == 0 && alpha_mask == 0 {
        Format::Dxt3
    } else if cc == 0x35545844 && red_mask == 0 && alpha_mask == 0 {
        Format::Dxt5
    } else {
        Format::Unknown
    }
}

/// Whether the header triple has a row in the identification table.
pub open spec fn in_table(cc: u32, red_mask: u32, alpha_mask: u32) -> bool {
    ||| cc == 0 && red_mask == 0xFF && alpha_mask == 0
    ||| cc == 0 && red_mask == 0 && alpha_mask == 0xFF
    ||| cc == 0 && red_mask == 0x0F00 && alpha_mask == 0xF000
    ||| cc == 0 && red_mask == 0x7C00 && alpha_mask == 0x8000
    ||| cc == 0 && red_mask == 0x00FF0000 && alpha_mask == 0xFF000000
    ||| cc == 0 && red_mask == 0x00FF0000 && alpha_mask == 0
    ||| cc == 0x31545844 && red_mask == 0 && alpha_mask == 0
    ||| cc == 0x33545844 && red_mask == 0 && alpha_mask == 0
    ||| cc == 0x35545844 && red_mask == 0 && alpha_mask == 0
}

/// Classifies a header triple by the identification table.
pub fn classify(cc: u32, red_mask: u32, alpha_mask: u32) -> (r: Format)
    ensures
        r == classify_spec(cc, red_mask, alpha_mask),
{
    if cc == 0 && red_mask == 0xFF && alpha_mask == 0 {
        Format::L8
    } else if cc == 0 && red_mask == 0 && alpha_mask == 0xFF {
        Format::A8
    } else if cc == 0 && red_mask == 0x0F00 && alpha_mask == 0xF000 {
        Format::A4R4G4B4
    } else if cc == 0 && red_mask == 0x7C00 && alpha_mask == 0x8000 {
        Format::A1R5G5B5
    } else if cc == 0 && red_mask == 0x00FF0000 && alpha_mask == 0xFF000000 {
        Format::A8R8G8B8
    } else if cc == 0 && red_mask == 0x00FF0000 && alpha_mask == 0 {
        Format::X8R8G8B8
    } else if cc == 0x31545844 && red_mask == 0 && alpha_mask == 0 {
        Format::Dxt1
    } else if cc == 0x33545844 && red_mask == 0 && alpha_mask == 0 {
        Format::Dxt3
    } else if cc == 0x35545844 && red_mask == 0 && alpha_mask == 0 {
        Format::Dxt5
    } else {
        Format::Unknown
    }
}

/// The little-endian 32-bit field of `header` at byte offset `off`.
pub open spec fn header_field(header: Seq<u8>, off: int) -> u32 {
    le32(header[off], header[off + 1], header[off + 2], header[off + 3])
}

/// Identifies the pixel encoding named by a raw header.
///
/// Reads the compression code at byte offset 84, the red mask at 92 and the
/// alpha mask at 104 (all little-endian), and classifies the triple by the
/// identification table. A header too short to hold all three fields is
/// malformed.
pub fn identify(header: &[u8]) -> (r: Result<Format, DdsError>)
    ensures
        header@.len() < 108 ==> r == Err::<Format, DdsError>(DdsError::MalformedHeader),
        header@.len() >= 108 ==> r == Ok::<Format, DdsError>(
            classify_spec(
                header_field(header@, 84),
                header_field(header@, 92),
                header_field(header@, 104),
            ),
        ),
{
    if header.len() < 108 {
        return Err(DdsError::MalformedHeader);
    }
    let cc = read_le32(header, 84);
    let red_mask = read_le32(header, 92);
    let alpha_mask = read_le32(header, 104);
    Ok(classify(cc, red_mask, alpha_mask))
}

/// Reads the little-endian 32-bit field of `header` at byte offset `off`.
pub fn read_le32(header: &[u8], off: usize) -> (r: u32)
    requires
        off + 4 <= header@.len(),
    ensures
        r == header_field(header@, off as int),
{
    (header[off] as u32) | ((header[off + 1] as u32) << 8u32) | ((header[off + 2] as u32)
        << 16u32) | ((header[off + 3] as u32) << 24u32)
}

} // verus!
