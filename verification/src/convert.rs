//! The two conversion entry points: native bytes to the canonical buffer and
//! back, dispatched on `Format`.

use vstd::prelude::*;
use crate::blocks::bc_code;
use crate::blocks::bc_compressed;
use crate::blocks::bc_decompressed;
use crate::blocks::block_bytes;
use crate::blocks::convert_from_compressed;
use crate::blocks::convert_to_compressed;
use crate::blocks::is_block_compressed;
use crate::format::DdsError;
use crate::format::Format;
use crate::pixels::a1_decoded;
use crate::pixels::a1_encoded;
use crate::pixels::a4_decoded;
use crate::pixels::a4_encoded;
use crate::pixels::a8_decoded;
use crate::pixels::channel0;
use crate::pixels::convert_from_a1r5g5b5;
use crate::pixels::convert_from_a4r4g4b4;
use crate::pixels::convert_from_a8;
use crate::pixels::convert_from_l8;
use crate::pixels::convert_from_x8r8g8b8;
use crate::pixels::convert_to_a1r5g5b5;
use crate::pixels::convert_to_a4r4g4b4;
use crate::pixels::convert_to_a8;
use crate::pixels::convert_to_l8;
use crate::pixels::convert_to_x8r8g8b8;
use crate::pixels::l8_decoded;
use crate::pixels::x8_decoded;
use crate::pixels::x8_encoded;
use vstd::slice::slice_to_vec;

verus! {

/// Whether `f` has a conversion in either direction. `Unknown` has none, and
/// `A16B16G16R16` is recognised as a layout but deliberately left without one.
pub open spec fn conversion_supported(f: Format) -> bool {
    !(f == Format::Unknown || f == Format::A16B16G16R16)
}

/// The native buffer unit of `f` in bytes: the per-pixel stride of the
/// uncompressed layouts, the coded block size of the compressed ones. A
/// native buffer must be a whole number of these.
pub open spec fn native_unit(f: Format) -> int {
    match f {
        Format::L8 => 1,
        Format::A8 => 1,
        Format::A4R4G4B4 => 2,
        Format::A1R5G5B5 => 2,
        Format::A8R8G8B8 => 4,
        Format::X8R8G8B8 => 4,
        Format::Dxt1 => 8,
        Format::Dxt3 => 16,
        Format::Dxt5 => 16,
        _ => 1,
    }
}

/// The canonical buffer unit of `f` in bytes: one 4-byte pixel, or one whole
/// 4x4 tile of them for the compressed formats. A canonical buffer handed to
/// the encoder must be a whole number of these.
pub open spec fn canonical_unit(f: Format) -> int {
    if is_block_compressed(f) {
        64
    } else {
        4
    }
}

/// The canonical buffer that decoding a native buffer `data` of format `f`
/// yields, assuming `f` is supported and the length is a whole number of
/// native units.
pub open spec fn decoded(f: Format, data: Seq<u8>) -> Seq<u8> {
    match f {
        Format::L8 => l8_decoded(data),
        Format::A8 => a8_decoded(data),
        Format::A4R4G4B4 => a4_decoded(data),
        Format::A1R5G5B5 => a1_decoded(data),
        Format::A8R8G8B8 => data,
        Format::X8R8G8B8 => x8_decoded(data),
        Format::Dxt1 | Format::Dxt3 | Format::Dxt5 => bc_decompressed(
            bc_code(f),
            data,
            4,
            4 * (data.len() as int / block_bytes(f)),
        ),
        _ => Seq::empty(),
    }
}

/// The native buffer that encoding a canonical buffer `data` into format `f`
/// yields, assuming `f` is supported and the length is a whole number of
/// canonical units.
pub open spec fn encoded(f: Format, data: Seq<u8>) -> Seq<u8> {
    match f {
        Format::L8 => channel0(data),
        Format::A8 => channel0(data),
        Format::A4R4G4B4 => a4_encoded(data),
        Format::A1R5G5B5 => a1_encoded(data),
        Format::A8R8G8B8 => data,
        Format::X8R8G8B8 => x8_encoded(data),
        Format::Dxt1 | Format::Dxt3 | Format::Dxt5 => bc_compressed(
            bc_code(f),
            data,
            4,
            data.len() as int / 16,
        ),
        _ => Seq::empty(),
    }
}

impl Format {
    /// Decodes a native buffer of this format to the canonical buffer.
    ///
    /// Succeeds exactly on the supported formats and on buffer lengths that
    /// are a whole number of native units; an unsupported format or a ragged
    /// length is an explicit error, never a truncated result.
    pub fn convert_from(&self, data: &[u8]) -> (r: Result<Vec<u8>, DdsError>)
        requires
            is_block_compressed(*self) ==> data@.len() <= usize::MAX / 8,
        ensures
            !conversion_supported(*self) ==> r == Err::<Vec<u8>, DdsError>(
                DdsError::UnsupportedFormat,
            ),
            conversion_supported(*self) && data@.len() as int % native_unit(*self) != 0 ==> r
                == Err::<Vec<u8>, DdsError>(DdsError::InvalidBufferLength),
            conversion_supported(*self) && data@.len() as int % native_unit(*self) == 0 ==> r is Ok
                && r->Ok_0@ == decoded(*self, data@),
    {
        match self {
            Format::L8 => Ok(convert_from_l8(data)),
            Format::A8 => Ok(convert_from_a8(data)),
            Format::A4R4G4B4 => {
                if data.len() % 2 != 0 {
                    Err(DdsError::InvalidBufferLength)
                } else {
                    Ok(convert_from_a4r4g4b4(data))
                }
            },
            Format::A1R5G5B5 => {
                if data.len() % 2 != 0 {
                    Err(DdsError::InvalidBufferLength)
                } else {
                    Ok(convert_from_a1r5g5b5(data))
                }
            },
            Format::A8R8G8B8 => {
                if data.len() % 4 != 0 {
                    Err(DdsError::InvalidBufferLength)
                } else {
                    Ok(slice_to_vec(data))
                }
            },
            Format::X8R8G8B8 => {
                if data.len() % 4 != 0 {
                    Err(DdsError::InvalidBufferLength)
                } else {
                    Ok(convert_from_x8r8g8b8(data))
                }
            },
            Format::Dxt1 | Format::Dxt3 | Format::Dxt5 => convert_from_compressed(self, data),
            Format::Unknown | Format::A16B16G16R16 => Err(DdsError::UnsupportedFormat),
        }
    }

    /// Encodes a canonical buffer to a native buffer of this format.
    ///
    /// Succeeds exactly on the supported formats and on buffer lengths that
    /// are a whole number of canonical units; an unsupported format or a
    /// ragged length is an explicit error, never a truncated result.
    pub fn convert_to(&self, data: &[u8]) -> (r: Result<Vec<u8>, DdsError>)
        ensures
            !conversion_supported(*self) ==> r == Err::<Vec<u8>, DdsError>(
                DdsError::UnsupportedFormat,
            ),
            conversion_supported(*self) && data@.len() as int % canonical_unit(*self) != 0 ==> r
                == Err::<Vec<u8>, DdsError>(DdsError::InvalidBufferLength),
            conversion_supported(*self) && data@.len() as int % canonical_unit(*self) == 0 ==> r
                is Ok && r->Ok_0@ == encoded(*self, data@),
    {
        match self {
            Format::L8 => {
                if data.len() % 4 != 0 {
                    Err(DdsError::InvalidBufferLength)
                } else {
                    Ok(convert_to_l8(data))
                }
            },
            Format::A8 => {
                if data.len() % 4 != 0 {
                    Err(DdsError::InvalidBufferLength)
                } else {
                    Ok(convert_to_a8(data))
                }
            },
            Format::A4R4G4B4 => {
                if data.len() % 4 != 0 {
                    Err(DdsError::InvalidBufferLength)
                } else {
                    Ok(convert_to_a4r4g4b4(data))
                }
            },
            Format::A1R5G5B5 => {
                if data.len() % 4 != 0 {
                    Err(DdsError::InvalidBufferLength)
                } else {
                    Ok(convert_to_a1r5g5b5(data))
                }
            },
            Format::A8R8G8B8 => {
                if data.len() % 4 != 0 {
                    Err(DdsError::InvalidBufferLength)
                } else {
                    Ok(slice_to_vec(data))
                }
            },
            Format::X8R8G8B8 => {
                if data.len() % 4 != 0 {
                    Err(DdsError::InvalidBufferLength)
                } else {
                    Ok(convert_to_x8r8g8b8(data))
                }
            },
            Format::Dxt1 | Format::Dxt3 | Format::Dxt5 => convert_to_compressed(self, data),
            Format::Unknown | Format::A16B16G16R16 => Err(DdsError::UnsupportedFormat),
        }
    }
}

} // verus!
