//! Laws that hold across the conversion and identification contracts.

use vstd::prelude::*;
use crate::convert::decoded;
use crate::convert::encoded;
use crate::format::Format;
use crate::format::classify_spec;
use crate::format::in_table;

verus! {

/// Law: A8R8G8B8 is lossless. For any byte buffer whose length is a whole
/// number of pixels, encoding the decoded canonical buffer returns the
/// original buffer.
pub proof fn lemma_a8r8g8b8_round_trip(x: Seq<u8>)
    requires
        x.len() % 4 == 0,
    ensures
        encoded(Format::A8R8G8B8, decoded(Format::A8R8G8B8, x)) == x,
{
}

/// Law: X8R8G8B8 is lossy on alpha, by design. Decoding forces every alpha
/// byte to 255 whatever the native buffer held there, and re-encoding the
/// decoded buffer forces that same position back to 0; the color bytes pass
/// through both directions unchanged.
pub proof fn lemma_x8r8g8b8_alpha_lossy(x: Seq<u8>)
    requires
        x.len() % 4 == 0,
    ensures
        decoded(Format::X8R8G8B8, x).len() == x.len(),
        encoded(Format::X8R8G8B8, decoded(Format::X8R8G8B8, x)).len() == x.len(),
        forall|j: int|
            0 <= j < x.len() && j % 4 == 3 ==> decoded(Format::X8R8G8B8, x)[j] == 255,
        forall|j: int|
            0 <= j < x.len() && j % 4 == 3 ==> encoded(
                Format::X8R8G8B8,
                decoded(Format::X8R8G8B8, x),
            )[j] == 0,
        forall|j: int|
            0 <= j < x.len() && j % 4 != 3 ==> decoded(Format::X8R8G8B8, x)[j] == x[j],
        forall|j: int|
            0 <= j < x.len() && j % 4 != 3 ==> encoded(
                Format::X8R8G8B8,
                decoded(Format::X8R8G8B8, x),
            )[j] == x[j],
{
    assert((x.len() as int / 4) * 4 == x.len() as int);
    let d = decoded(Format::X8R8G8B8, x);
    assert(d.len() == x.len());
    assert((d.len() as int / 4) * 4 == d.len() as int);
}

/// Law: a header whose compression code is the DXT1 four-character code and
/// whose mask fields are both zero identifies as Dxt1. (A nonzero mask
/// beside a compression code has no row in the table and identifies as
/// `Unknown`.)
pub proof fn lemma_identify_dxt1(red_mask: u32, alpha_mask: u32)
    requires
        red_mask == 0,
        alpha_mask == 0,
    ensures
        classify_spec(0x31545844, red_mask, alpha_mask) == Format::Dxt1,
{
}

/// Law: identification is exactly the table. A header triple classifies as
/// `Unknown` precisely when no row of the identification table matches it,
/// and no triple ever classifies as `A16B16G16R16`: that layout is
/// deliberately not wired into the table.
pub proof fn lemma_identify_unknown(cc: u32, red_mask: u32, alpha_mask: u32)
    ensures
        classify_spec(cc, red_mask, alpha_mask) == Format::Unknown <==> !in_table(
            cc,
            red_mask,
            alpha_mask,
        ),
        classify_spec(cc, red_mask, alpha_mask) != Format::A16B16G16R16,
{
}

} // verus!
