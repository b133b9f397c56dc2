//! The block-compressed formats: Dxt1, Dxt3 and Dxt5.
//!
//! These formats store 4x4 pixel tiles as fixed-size coded blocks. The block
//! coding itself is delegated to the `squish` codec: BC1 blocks for Dxt1,
//! BC2 for Dxt3 and BC3 for Dxt5. The true image width is not known here, so
//! both directions run the codec under a fixed tiling width of 4 pixels,
//! stacking the blocks vertically; the result matches a conversion at the
//! true width only when that width is 4, or when the caller cuts the image
//! into 4-wide strips itself.

use vstd::prelude::*;
use crate::format::DdsError;
use crate::format::Format;

verus! {

/// Whether `f` is one of the block-compressed formats.
pub open spec fn is_block_compressed(f: Format) -> bool {
    f == Format::Dxt1 || f == Format::Dxt3 || f == Format::Dxt5
}

/// Bytes in one compressed 4x4 block: 8 for Dxt1, 16 for Dxt3 and Dxt5.
pub open spec fn block_bytes(f: Format) -> int {
    match f {
        Format::Dxt1 => 8,
        Format::Dxt3 => 16,
        Format::Dxt5 => 16,
        _ => 0,
    }
}

/// The block coding each format delegates to: BC1 for Dxt1, BC2 for Dxt3,
/// BC3 for Dxt5.
pub open spec fn bc_code(f: Format) -> int {
    match f {
        Format::Dxt1 => 1,
        Format::Dxt3 => 2,
        Format::Dxt5 => 3,
        _ => 0,
    }
}

/// How many 4-pixel tiles cover `s` pixels, the last tile padded.
pub open spec fn blocks_in(s: int) -> int {
    (s + 3) / 4
}

/// Bytes in one compressed 4x4 block of `f`, as `block_bytes` gives it.
pub fn block_size(f: &Format) -> (r: usize)
    ensures
        r as int == block_bytes(*f),
{
    match f {
        Format::Dxt1 => 8,
        Format::Dxt3 => 16,
        Format::Dxt5 => 16,
        _ => 0,
    }
}

/// The canonical bytes that the BC codec `code` yields for the compressed
/// blocks `data` at the given tiling; the codec's output is a function of
/// these arguments alone.
pub uninterp spec fn bc_decompressed(code: int, data: Seq<u8>, width: int, height: int) -> Seq<u8>;

/// The compressed blocks that the BC codec `code` yields for the canonical
/// bytes `data` at the given tiling; the codec's output is a function of
/// these arguments alone.
pub uninterp spec fn bc_compressed(code: int, data: Seq<u8>, width: int, height: int) -> Seq<u8>;

/// Relies on `squish::Format::decompress`: given one coded block for every
/// 4x4 tile of a `width` by `height` image it fills a buffer of
/// `4 * width * height` bytes, 4 per pixel, and its output depends only on
/// the block data and the dimensions.
#[verifier::external_body]
fn squish_decompress(fmt: &Format, data: &[u8], width: usize, height: usize, out_len: usize) -> (r:
    Vec<u8>)
    requires
        is_block_compressed(*fmt),
        width + 3 <= usize::MAX,
        height + 3 <= usize::MAX,
        data@.len() >= blocks_in(width as int) * blocks_in(height as int) * block_bytes(*fmt),
        out_len as int == 4 * width * height,
    ensures
        r@.len() == out_len,
        r@ == bc_decompressed(bc_code(*fmt), data@, width as int, height as int),
{
    let sf = match fmt {
        Format::Dxt3 => squish::Format::Bc2,
        Format::Dxt5 => squish::Format::Bc3,
        _ => squish::Format::Bc1,
    };
    let mut out = vec![0u8; out_len];
    sf.decompress(data, width, height, &mut out);
    out
}

/// Relies on `squish::Format::compress`, run with the iterative cluster-fit
/// algorithm, uniform color weights and alpha-weighted clustering: it reads
/// `width * height` canonical pixels, writes one coded block for every 4x4
/// tile, and its output depends only on the pixel data and the dimensions.
#[verifier::external_body]
fn squish_compress(fmt: &Format, data: &[u8], width: usize, height: usize, out_len: usize) -> (r:
    Vec<u8>)
    requires
        is_block_compressed(*fmt),
        width + 3 <= usize::MAX,
        height + 3 <= usize::MAX,
        data@.len() >= 4 * width * height,
        out_len as int == blocks_in(width as int) * blocks_in(height as int) * block_bytes(*fmt),
    ensures
        r@.len() == out_len,
        r@ == bc_compressed(bc_code(*fmt), data@, width as int, height as int),
{
    let sf = match fmt {
        Format::Dxt3 => squish::Format::Bc2,
        Format::Dxt5 => squish::Format::Bc3,
        _ => squish::Format::Bc1,
    };
    let params = squish::Params {
        algorithm: squish::Algorithm::IterativeClusterFit,
        weights: squish::COLOUR_WEIGHTS_UNIFORM,
        weigh_colour_by_alpha: true,
    };
    let mut out = vec![0u8; out_len];
    sf.compress(data, width, height, params, &mut out);
    out
}

/// Decompresses a block-compressed native buffer to the canonical buffer,
/// under the fixed 4-wide tiling described at the top of this module. A
/// buffer that is not a whole number of coded blocks is rejected.
pub fn convert_from_compressed(format: &Format, data: &[u8]) -> (r: Result<Vec<u8>, DdsError>)
    requires
        is_block_compressed(*format),
        data@.len() <= usize::MAX / 8,
    ensures
        data@.len() as int % block_bytes(*format) != 0 ==> r == Err::<Vec<u8>, DdsError>(
            DdsError::InvalidBufferLength,
        ),
        data@.len() as int % block_bytes(*format) == 0 ==> r is Ok && r->Ok_0@ == bc_decompressed(
            bc_code(*format),
            data@,
            4,
            4 * (data@.len() as int / block_bytes(*format)),
        ) && r->Ok_0@.len() == 64 * (data@.len() as int / block_bytes(*format)),
{
    let bb = block_size(format);
    let n = data.len();
    if n % bb != 0 {
        return Err(DdsError::InvalidBufferLength);
    }
    let blocks = n / bb;
    proof {
        assert(bb == 8 || bb == 16);
        assert(8 * (n as int / 8) <= n as int);
        assert(16 * (n as int / 16) <= n as int);
        assert(64 * blocks as int <= 8 * n as int);
    }
    let height = 4 * blocks;
    let out_len = 16 * height;
    proof {
        assert(blocks_in(4) == 1);
        assert(blocks_in(height as int) == blocks as int);
        assert(blocks as int * bb as int == n as int);
    }
    Ok(squish_decompress(format, data, 4, height, out_len))
}

/// Compresses a canonical buffer to a block-compressed native buffer, under
/// the fixed 4-wide tiling described at the top of this module. A buffer
/// that is not a whole number of 4x4 canonical tiles is rejected.
pub fn convert_to_compressed(format: &Format, data: &[u8]) -> (r: Result<Vec<u8>, DdsError>)
    requires
        is_block_compressed(*format),
    ensures
        data@.len() as int % 64 != 0 ==> r == Err::<Vec<u8>, DdsError>(
            DdsError::InvalidBufferLength,
        ),
        data@.len() as int % 64 == 0 ==> r is Ok && r->Ok_0@ == bc_compressed(
            bc_code(*format),
            data@,
            4,
            data@.len() as int / 16,
        ) && r->Ok_0@.len() == (data@.len() as int / 64) * block_bytes(*format),
{
    let n = data.len();
    if n % 64 != 0 {
        return Err(DdsError::InvalidBufferLength);
    }
    let tiles = n / 64;
    proof {
        assert(n as int == 64 * tiles as int);
    }
    let height = n / 16;
    let bb = block_size(format);
    proof {
        assert(bb == 8 || bb == 16);
        assert(height as int == 4 * tiles as int);
        assert(16 * (n as int / 64) <= n as int);
    }
    let out_len = tiles * bb;
    proof {
        assert(blocks_in(4) == 1);
        assert(blocks_in(height as int) == tiles as int);
        assert(16 * height as int == 64 * tiles as int);
        assert(4 * (4 * height as int) == n as int);
    }
    Ok(squish_compress(format, data, 4, height, out_len))
}

} // verus!
