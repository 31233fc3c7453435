use proteome_kmers::index::{decode_index, encode_index, IndexError, INDEX_SCALE};

#[test]
fn encodes_protein_and_offset() {
    assert_eq!(encode_index(1, 0), Ok(1_000_000));
    assert_eq!(encode_index(1, 1), Ok(1_000_001));
    assert_eq!(encode_index(42, 999_999), Ok(42_999_999));
    assert_eq!(INDEX_SCALE, 1_000_000);
}

#[test]
fn offset_at_scale_is_rejected() {
    assert_eq!(encode_index(1, 1_000_000), Err(IndexError::OffsetTooLarge));
    assert_eq!(encode_index(0, u64::MAX), Err(IndexError::OffsetTooLarge));
}

#[test]
fn key_beyond_64_bits_is_rejected() {
    assert_eq!(encode_index(u64::MAX / 1_000_000 + 1, 0), Err(IndexError::Overflow));
    let p = u64::MAX / 1_000_000;
    let last = u64::MAX % 1_000_000;
    assert_eq!(encode_index(p, last), Ok(u64::MAX));
    assert_eq!(encode_index(p, last + 1), Err(IndexError::Overflow));
}

#[test]
fn decode_inverts_encode() {
    for &(p, o) in &[(1u64, 0u64), (1, 1), (7, 999_999), (123_456, 42), (0, 5)] {
        let g = encode_index(p, o).unwrap();
        assert_eq!(decode_index(g), (p, o));
    }
    assert_eq!(decode_index(3_000_017), (3, 17));
}
