use dds_codec::format::{identify, DdsError, Format};

/// A header buffer with the three identification fields at their offsets:
/// compression code at 84, red mask at 92, alpha mask at 104.
fn header(cc: u32, red_mask: u32, alpha_mask: u32) -> Vec<u8> {
    let mut h = vec![0u8; 128];
    h[84..88].copy_from_slice(&cc.to_le_bytes());
    h[92..96].copy_from_slice(&red_mask.to_le_bytes());
    h[104..108].copy_from_slice(&alpha_mask.to_le_bytes());
    h
}

#[test]
fn identifies_every_table_row() {
    assert_eq!(identify(&header(0, 0xFF, 0)), Ok(Format::L8));
    assert_eq!(identify(&header(0, 0, 0xFF)), Ok(Format::A8));
    assert_eq!(identify(&header(0, 0x0F00, 0xF000)), Ok(Format::A4R4G4B4));
    assert_eq!(identify(&header(0, 0x7C00, 0x8000)), Ok(Format::A1R5G5B5));
    assert_eq!(
        identify(&header(0, 0x00FF0000, 0xFF000000)),
        Ok(Format::A8R8G8B8)
    );
    assert_eq!(identify(&header(0, 0x00FF0000, 0)), Ok(Format::X8R8G8B8));
    assert_eq!(identify(&header(0x31545844, 0, 0)), Ok(Format::Dxt1));
    assert_eq!(identify(&header(0x33545844, 0, 0)), Ok(Format::Dxt3));
    assert_eq!(identify(&header(0x35545844, 0, 0)), Ok(Format::Dxt5));
}

#[test]
fn dxt1_fourcc_with_zero_masks_is_dxt1() {
    // 0x31545844 is "DXT1" as little-endian bytes.
    let h = header(0x31545844, 0, 0);
    assert_eq!(&h[84..88], b"DXT1");
    assert_eq!(identify(&h), Ok(Format::Dxt1));
}

#[test]
fn unknown_triples_identify_as_unknown() {
    // A zeroed header matches no table row.
    assert_eq!(identify(&vec![0u8; 128]), Ok(Format::Unknown));
    // The A16B16G16R16 code (113) is deliberately not wired into the table.
    assert_eq!(identify(&header(113, 0, 0)), Ok(Format::Unknown));
    // A known four-character code beside a nonzero mask has no row either.
    assert_eq!(identify(&header(0x31545844, 0xFF, 0)), Ok(Format::Unknown));
    // Swapped masks of a known row.
    assert_eq!(identify(&header(0, 0xF000, 0x0F00)), Ok(Format::Unknown));
}

#[test]
fn short_headers_are_malformed() {
    assert_eq!(identify(&[]), Err(DdsError::MalformedHeader));
    assert_eq!(identify(&vec![0u8; 107]), Err(DdsError::MalformedHeader));
    // 108 bytes is exactly enough to hold the alpha mask field.
    assert_eq!(identify(&vec![0u8; 108]), Ok(Format::Unknown));
}
