use dds_codec::format::Format;

/// A 4x4 tile of one canonical pixel, 64 bytes.
fn uniform_tile(pixel: [u8; 4]) -> Vec<u8> {
    let mut v = Vec::new();
    for _ in 0..16 {
        v.extend_from_slice(&pixel);
    }
    v
}

#[test]
fn dxt1_decodes_a_handwritten_block() {
    // A BC1 block: both 565 endpoints 0xFFFF (white), all indices 0. Every
    // pixel decodes to fully opaque white.
    let block = [0xFF, 0xFF, 0xFF, 0xFF, 0x00, 0x00, 0x00, 0x00];
    let decoded = Format::Dxt1.convert_from(&block).unwrap();
    assert_eq!(decoded, vec![0xFF; 64]);
}

#[test]
fn dxt1_round_trips_a_uniform_tile_within_tolerance() {
    let tile = uniform_tile([32, 64, 128, 255]);
    let compressed = Format::Dxt1.convert_to(&tile).unwrap();
    assert_eq!(compressed.len(), 8);
    // The coded block is genuinely compressed, not the input handed back.
    assert_ne!(compressed, tile[0..8].to_vec());
    let decoded = Format::Dxt1.convert_from(&compressed).unwrap();
    assert_eq!(decoded.len(), 64);
    // Block compression is lossy: each channel comes back within the
    // quantisation error of its 5- or 6-bit endpoint field.
    for p in 0..16 {
        for c in 0..3 {
            let got = i32::from(decoded[4 * p + c]);
            let want = i32::from(tile[4 * p + c]);
            assert!((got - want).abs() <= 8, "channel {c} off: {got} vs {want}");
        }
        // BC1 of a fully opaque tile keeps alpha opaque exactly.
        assert_eq!(decoded[4 * p + 3], 255);
    }
}

#[test]
fn dxt3_round_trips_a_uniform_tile_within_tolerance() {
    let tile = uniform_tile([200, 100, 50, 255]);
    let compressed = Format::Dxt3.convert_to(&tile).unwrap();
    assert_eq!(compressed.len(), 16);
    let decoded = Format::Dxt3.convert_from(&compressed).unwrap();
    assert_eq!(decoded.len(), 64);
    for p in 0..16 {
        for c in 0..3 {
            let got = i32::from(decoded[4 * p + c]);
            let want = i32::from(tile[4 * p + c]);
            assert!((got - want).abs() <= 8, "channel {c} off: {got} vs {want}");
        }
        // BC2 alpha is a 4-bit field per pixel. The codec unpacks pairs of
        // pixels asymmetrically: the even pixel's nibble is replicated into
        // both halves (255), the odd pixel keeps only the high nibble (240).
        let want_alpha = if p % 2 == 0 { 255 } else { 240 };
        assert_eq!(decoded[4 * p + 3], want_alpha);
    }
}

#[test]
fn dxt5_round_trips_a_uniform_tile_within_tolerance() {
    let tile = uniform_tile([16, 32, 48, 255]);
    let compressed = Format::Dxt5.convert_to(&tile).unwrap();
    assert_eq!(compressed.len(), 16);
    let decoded = Format::Dxt5.convert_from(&compressed).unwrap();
    assert_eq!(decoded.len(), 64);
    for p in 0..16 {
        for c in 0..3 {
            let got = i32::from(decoded[4 * p + c]);
            let want = i32::from(tile[4 * p + c]);
            assert!((got - want).abs() <= 8, "channel {c} off: {got} vs {want}");
        }
        assert_eq!(decoded[4 * p + 3], 255);
    }
}

#[test]
fn compressed_sizes_follow_the_block_count() {
    // Two tiles of canonical pixels: 128 bytes in, two coded blocks out.
    let mut two_tiles = uniform_tile([1, 2, 3, 255]);
    two_tiles.extend_from_slice(&uniform_tile([9, 8, 7, 255]));
    assert_eq!(Format::Dxt1.convert_to(&two_tiles).unwrap().len(), 16);
    assert_eq!(Format::Dxt3.convert_to(&two_tiles).unwrap().len(), 32);
    assert_eq!(Format::Dxt5.convert_to(&two_tiles).unwrap().len(), 32);
    // And back: two Dxt1 blocks decode to two tiles of canonical bytes.
    let blocks = Format::Dxt1.convert_to(&two_tiles).unwrap();
    assert_eq!(Format::Dxt1.convert_from(&blocks).unwrap().len(), 128);
}
