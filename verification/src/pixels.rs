//! Bit-exact conversions between the uncompressed native pixel layouts and
//! the canonical buffer.
//!
//! The canonical buffer holds 4 bytes per pixel in blue-green-red-alpha
//! order. Each native layout below packs those channels into 1, 2 or 4 bytes
//! per pixel; multi-byte native pixels are little-endian words. Each
//! conversion walks the buffer pixel by pixel; a trailing fragment shorter
//! than one native pixel (or one canonical pixel) contributes nothing, and
//! the public entry points reject such lengths before calling in here.

use vstd::prelude::*;

verus! {

/// Byte `j` of the canonical buffer decoded from an L8 buffer: the luminance
/// byte replicated into blue, green and red, with alpha fully opaque.
pub open spec fn l8_decode_byte(data: Seq<u8>, j: int) -> u8 {
    if j % 4 == 3 {
        255u8
    } else {
        data[j / 4]
    }
}

/// The canonical buffer decoded from an L8 native buffer.
pub open spec fn l8_decoded(data: Seq<u8>) -> Seq<u8> {
    Seq::new((data.len() * 4) as nat, |j: int| l8_decode_byte(data, j))
}

/// Byte `j` of the canonical buffer decoded from an A8 buffer: blue, green
/// and red are zero and the native byte becomes alpha.
pub open spec fn a8_decode_byte(data: Seq<u8>, j: int) -> u8 {
    if j % 4 == 3 {
        data[j / 4]
    } else {
        0u8
    }
}

/// The canonical buffer decoded from an A8 native buffer.
pub open spec fn a8_decoded(data: Seq<u8>) -> Seq<u8> {
    Seq::new((data.len() * 4) as nat, |j: int| a8_decode_byte(data, j))
}

/// The first byte of each canonical pixel. Both single-byte encoders reduce
/// a canonical pixel to this byte: L8 keeps it as luminance, and A8 keeps the
/// same position even though its decoder fills the alpha byte instead — a
/// deliberate asymmetry kept from the layout this library reproduces.
pub open spec fn channel0(data: Seq<u8>) -> Seq<u8> {
    Seq::new((data.len() / 4) as nat, |i: int| data[4 * i])
}

/// Channel `c` (0 blue, 1 green, 2 red, 3 alpha) of an A4R4G4B4 pixel whose
/// little-endian bytes are `lo` and `hi`. Each 4-bit field is widened by a
/// left shift into the high nibble; the low nibble stays zero.
pub open spec fn a4_decode_channel(lo: u8, hi: u8, c: int) -> u8 {
    if c == 0 {
        (lo & 0x0F) << 4
    } else if c == 1 {
        lo & 0xF0
    } else if c == 2 {
        (hi & 0x0F) << 4
    } else {
        hi & 0xF0
    }
}

/// The canonical buffer decoded from an A4R4G4B4 native buffer.
pub open spec fn a4_decoded(data: Seq<u8>) -> Seq<u8> {
    Seq::new(
        ((data.len() / 2) * 4) as nat,
        |j: int| a4_decode_channel(data[2 * (j / 4)], data[2 * (j / 4) + 1], j % 4),
    )
}

/// Byte `k` of an A4R4G4B4 native buffer encoded from a canonical buffer:
/// the high nibbles of blue and green pack the low byte, those of red and
/// alpha the high byte, and both pairs sit at canonical offsets `2k`, `2k+1`.
pub open spec fn a4_encode_byte(data: Seq<u8>, k: int) -> u8 {
    (data[2 * k] >> 4) | (data[2 * k + 1] & 0xF0)
}

/// The A4R4G4B4 native buffer encoded from a canonical buffer.
pub open spec fn a4_encoded(data: Seq<u8>) -> Seq<u8> {
    Seq::new(((data.len() / 4) * 2) as nat, |k: int| a4_encode_byte(data, k))
}

/// Channel `c` of an A1R5G5B5 pixel whose little-endian bytes are `lo` and
/// `hi`: 5-bit blue, green and red and 1-bit alpha, each widened by a left
/// shift into the top of its output byte, never replicated.
pub open spec fn a1_decode_channel(lo: u8, hi: u8, c: int) -> u8 {
    if c == 0 {
        (lo & 0x1F) << 3
    } else if c == 1 {
        ((lo & 0xE0) >> 2) | ((hi & 0x03) << 6)
    } else if c == 2 {
        (hi & 0x7C) << 1
    } else {
        hi & 0x80
    }
}

/// The canonical buffer decoded from an A1R5G5B5 native buffer.
pub open spec fn a1_decoded(data: Seq<u8>) -> Seq<u8> {
    Seq::new(
        ((data.len() / 2) * 4) as nat,
        |j: int| a1_decode_channel(data[2 * (j / 4)], data[2 * (j / 4) + 1], j % 4),
    )
}

/// Byte `k` of an A1R5G5B5 native buffer encoded from a canonical buffer:
/// the low byte takes all of blue's top 5 bits and the low 3 of green's top
/// 5, the high byte green's remaining 2, red's top 5 and alpha's top bit.
pub open spec fn a1_encode_byte(data: Seq<u8>, k: int) -> u8 {
    if k % 2 == 0 {
        (data[2 * k] >> 3) | ((data[2 * k + 1] << 2) & 0xE0)
    } else {
        (data[2 * k - 1] >> 6) | ((data[2 * k] >> 1) & 0x7C) | (data[2 * k + 1] & 0x80)
    }
}

/// The A1R5G5B5 native buffer encoded from a canonical buffer.
pub open spec fn a1_encoded(data: Seq<u8>) -> Seq<u8> {
    Seq::new(((data.len() / 4) * 2) as nat, |k: int| a1_encode_byte(data, k))
}

/// Byte `j` of the canonical buffer decoded from an X8R8G8B8 buffer: the
/// color bytes pass through and the unused fourth byte becomes opaque alpha.
pub open spec fn x8_decode_byte(data: Seq<u8>, j: int) -> u8 {
    if j % 4 == 3 {
        255u8
    } else {
        data[j]
    }
}

/// The canonical buffer decoded from an X8R8G8B8 native buffer.
pub open spec fn x8_decoded(data: Seq<u8>) -> Seq<u8> {
    Seq::new(((data.len() / 4) * 4) as nat, |j: int| x8_decode_byte(data, j))
}

/// Byte `j` of an X8R8G8B8 native buffer encoded from a canonical buffer:
/// the color bytes pass through and the unused fourth byte is forced to
/// zero, discarding whatever alpha the canonical pixel held.
pub open spec fn x8_encode_byte(data: Seq<u8>, j: int) -> u8 {
    if j % 4 == 3 {
        0u8
    } else {
        data[j]
    }
}

/// The X8R8G8B8 native buffer encoded from a canonical buffer.
pub open spec fn x8_encoded(data: Seq<u8>) -> Seq<u8> {
    Seq::new(((data.len() / 4) * 4) as nat, |j: int| x8_encode_byte(data, j))
}

/// Decodes an L8 native buffer to the canonical buffer.
pub fn convert_from_l8(data: &[u8]) -> (r: Vec<u8>)
    ensures
        r@ == l8_decoded(data@),
{
    let n = data.len();
    let mut out: Vec<u8> = Vec::new();
    let mut i: usize = 0;
    while i < n
        invariant
            i <= n,
            n == data@.len(),
            out@.len() == 4 * i,
            forall|j: int| 0 <= j < 4 * i ==> out@[j] == l8_decode_byte(data@, j),
        decreases n - i,
    {
        let v = data[i];
        out.push(v);
        out.push(v);
        out.push(v);
        out.push(255);
        i = i + 1;
    }
    proof {
        assert(out@ =~= l8_decoded(data@));
    }
    out
}

/// Encodes a canonical buffer as L8, keeping only each pixel's first byte.
pub fn convert_to_l8(data: &[u8]) -> (r: Vec<u8>)
    ensures
        r@ == channel0(data@),
{
    let n = data.len();
    let pixels = n / 4;
    let mut out: Vec<u8> = Vec::new();
    let mut i: usize = 0;
    while i < pixels
        invariant
            i <= pixels,
            pixels == data@.len() / 4,
            n == data@.len(),
            out@.len() == i,
            forall|k: int| 0 <= k < i ==> out@[k] == data@[4 * k],
        decreases pixels - i,
    {
        out.push(data[4 * i]);
        i = i + 1;
    }
    proof {
        assert(out@ =~= channel0(data@));
    }
    out
}

/// Decodes an A8 native buffer to the canonical buffer.
pub fn convert_from_a8(data: &[u8]) -> (r: Vec<u8>)
    ensures
        r@ == a8_decoded(data@),
{
    let n = data.len();
    let mut out: Vec<u8> = Vec::new();
    let mut i: usize = 0;
    while i < n
        invariant
            i <= n,
            n == data@.len(),
            out@.len() == 4 * i,
            forall|j: int| 0 <= j < 4 * i ==> out@[j] == a8_decode_byte(data@, j),
        decreases n - i,
    {
        let v = data[i];
        out.push(0);
        out.push(0);
        out.push(0);
        out.push(v);
        i = i + 1;
    }
    proof {
        assert(out@ =~= a8_decoded(data@));
    }
    out
}

/// Encodes a canonical buffer as A8, keeping only each pixel's first byte.
pub fn convert_to_a8(data: &[u8]) -> (r: Vec<u8>)
    ensures
        r@ == channel0(data@),
{
    let n = data.len();
    let pixels = n / 4;
    let mut out: Vec<u8> = Vec::new();
    let mut i: usize = 0;
    while i < pixels
        invariant
            i <= pixels,
            pixels == data@.len() / 4,
            n == data@.len(),
            out@.len() == i,
            forall|k: int| 0 <= k < i ==> out@[k] == data@[4 * k],
        decreases pixels - i,
    {
        out.push(data[4 * i]);
        i = i + 1;
    }
    proof {
        assert(out@ =~= channel0(data@));
    }
    out
}

/// Decodes an A4R4G4B4 native buffer to the canonical buffer.
pub fn convert_from_a4r4g4b4(data: &[u8]) -> (r: Vec<u8>)
    ensures
        r@ == a4_decoded(data@),
{
    let n = data.len();
    let pixels = n / 2;
    let mut out: Vec<u8> = Vec::new();
    let mut i: usize = 0;
    while i < pixels
        invariant
            i <= pixels,
            pixels == data@.len() / 2,
            n == data@.len(),
            out@.len() == 4 * i,
            forall|j: int|
                0 <= j < 4 * i ==> out@[j] == a4_decode_channel(
                    data@[2 * (j / 4)],
                    data@[2 * (j / 4) + 1],
                    j % 4,
                ),
        decreases pixels - i,
    {
        let lo = data[2 * i];
        let hi = data[2 * i + 1];
        out.push((lo & 0x0F) << 4);
        out.push(lo & 0xF0);
        out.push((hi & 0x0F) << 4);
        out.push(hi & 0xF0);
        i = i + 1;
    }
    proof {
        assert(out@ =~= a4_decoded(data@));
    }
    out
}

/// Encodes a canonical buffer as A4R4G4B4, packing each channel's high
/// nibble into its native 4-bit field.
pub fn convert_to_a4r4g4b4(data: &[u8]) -> (r: Vec<u8>)
    ensures
        r@ == a4_encoded(data@),
{
    let n = data.len();
    let pixels = n / 4;
    let mut out: Vec<u8> = Vec::new();
    let mut i: usize = 0;
    while i < pixels
        invariant
            i <= pixels,
            pixels == data@.len() / 4,
            n == data@.len(),
            out@.len() == 2 * i,
            forall|k: int| 0 <= k < 2 * i ==> out@[k] == a4_encode_byte(data@, k),
        decreases pixels - i,
    {
        out.push((data[4 * i] >> 4) | (data[4 * i + 1] & 0xF0));
        out.push((data[4 * i + 2] >> 4) | (data[4 * i + 3] & 0xF0));
        i = i + 1;
    }
    proof {
        assert(out@ =~= a4_encoded(data@));
    }
    out
}

/// Decodes an A1R5G5B5 native buffer to the canonical buffer.
pub fn convert_from_a1r5g5b5(data: &[u8]) -> (r: Vec<u8>)
    ensures
        r@ == a1_decoded(data@),
{
    let n = data.len();
    let pixels = n / 2;
    let mut out: Vec<u8> = Vec::new();
    let mut i: usize = 0;
    while i < pixels
        invariant
            i <= pixels,
            pixels == data@.len() / 2,
            n == data@.len(),
            out@.len() == 4 * i,
            forall|j: int|
                0 <= j < 4 * i ==> out@[j] == a1_decode_channel(
                    data@[2 * (j / 4)],
                    data@[2 * (j / 4) + 1],
                    j % 4,
                ),
        decreases pixels - i,
    {
        let lo = data[2 * i];
        let hi = data[2 * i + 1];
        out.push((lo & 0x1F) << 3);
        out.push(((lo & 0xE0) >> 2) | ((hi & 0x03) << 6));
        out.push((hi & 0x7C) << 1);
        out.push(hi & 0x80);
        i = i + 1;
    }
    proof {
        assert(out@ =~= a1_decoded(data@));
    }
    out
}

/// Encodes a canonical buffer as A1R5G5B5, packing the top 5 bits of each
/// color channel and the top bit of alpha into the native word.
pub fn convert_to_a1r5g5b5(data: &[u8]) -> (r: Vec<u8>)
    ensures
        r@ == a1_encoded(data@),
{
    let n = data.len();
    let pixels = n / 4;
    let mut out: Vec<u8> = Vec::new();
    let mut i: usize = 0;
    while i < pixels
        invariant
            i <= pixels,
            pixels == data@.len() / 4,
            n == data@.len(),
            out@.len() == 2 * i,
            forall|k: int| 0 <= k < 2 * i ==> out@[k] == a1_encode_byte(data@, k),
        decreases pixels - i,
    {
        let b = data[4 * i];
        let g = data[4 * i + 1];
        let r = data[4 * i + 2];
        let a = data[4 * i + 3];
        out.push((b >> 3) | ((g << 2) & 0xE0));
        out.push((g >> 6) | ((r >> 1) & 0x7C) | (a & 0x80));
        i = i + 1;
    }
    proof {
        assert(out@ =~= a1_encoded(data@));
    }
    out
}

/// Decodes an X8R8G8B8 native buffer to the canonical buffer, forcing alpha
/// to fully opaque.
pub fn convert_from_x8r8g8b8(data: &[u8]) -> (r: Vec<u8>)
    ensures
        r@ == x8_decoded(data@),
{
    let n = data.len();
    let pixels = n / 4;
    let mut out: Vec<u8> = Vec::new();
    let mut i: usize = 0;
    while i < pixels
        invariant
            i <= pixels,
            pixels == data@.len() / 4,
            n == data@.len(),
            out@.len() == 4 * i,
            forall|j: int| 0 <= j < 4 * i ==> out@[j] == x8_decode_byte(data@, j),
        decreases pixels - i,
    {
        out.push(data[4 * i]);
        out.push(data[4 * i + 1]);
        out.push(data[4 * i + 2]);
        out.push(255);
        i = i + 1;
    }
    proof {
        assert(out@ =~= x8_decoded(data@));
    }
    out
}

/// Encodes a canonical buffer as X8R8G8B8, forcing the unused byte to zero.
pub fn convert_to_x8r8g8b8(data: &[u8]) -> (r: Vec<u8>)
    ensures
        r@ == x8_encoded(data@),
{
    let n = data.len();
    let pixels = n / 4;
    let mut out: Vec<u8> = Vec::new();
    let mut i: usize = 0;
    while i < pixels
        invariant
            i <= pixels,
            pixels == data@.len() / 4,
            n == data@.len(),
            out@.len() == 4 * i,
            forall|j: int| 0 <= j < 4 * i ==> out@[j] == x8_encode_byte(data@, j),
        decreases pixels - i,
    {
        out.push(data[4 * i]);
        out.push(data[4 * i + 1]);
        out.push(data[4 * i + 2]);
        out.push(0);
        i = i + 1;
    }
    proof {
        assert(out@ =~= x8_encoded(data@));
    }
    out
}

} // verus!
