use blueshift_escrow::bytes::{u64_from_le, u64_to_le};

#[test]
fn encoding_is_little_endian() {
    let encoded = u64_to_le(0x0102_0304_0506_0708);
    assert_eq!(encoded, vec![8u8, 7, 6, 5, 4, 3, 2, 1]);
    assert_eq!(encoded, 0x0102_0304_0506_0708u64.to_le_bytes().to_vec());
}

#[test]
fn decoding_reads_exactly_eight_bytes() {
    assert_eq!(u64_from_le(&vec![0xe8, 0x03, 0, 0, 0, 0, 0, 0]), 1_000);
    assert_eq!(u64_from_le(&vec![0xff; 8]), u64::MAX);
    assert_eq!(u64_from_le(&vec![0; 8]), 0);
}

#[test]
fn encode_then_decode_is_the_identity() {
    for x in [0u64, 1, 255, 256, 65_535, u64::MAX, 0xdead_beef_0bad_f00d] {
        assert_eq!(u64_from_le(&u64_to_le(x)), x);
    }
}
