use dump_core::codec::{decode_artifact, encode_artifact, encode_decode_round_trip};

const ZSTD_MAGIC: [u8; 4] = [0x28, 0xB5, 0x2F, 0xFD];

#[test]
fn round_trip_hello_at_level_three() {
    let payload = b"hello".to_vec();
    let frame = encode_artifact(&payload, 3);
    assert_ne!(frame, payload);
    assert_eq!(&frame[..4], &ZSTD_MAGIC);
    let decoded = decode_artifact(&frame).expect("decoding failed");
    assert_eq!(decoded, payload);
}

#[test]
fn round_trip_empty_payload() {
    let payload = Vec::new();
    let frame = encode_artifact(&payload, 3);
    assert!(!frame.is_empty());
    let decoded = decode_artifact(&frame).expect("decoding failed");
    assert_eq!(decoded, payload);
}

#[test]
fn round_trip_larger_payload() {
    let mut payload = Vec::new();
    for i in 0..50_000u32 {
        payload.push((i % 251) as u8);
    }
    let frame = encode_artifact(&payload, 3);
    assert!(frame.len() < payload.len());
    let decoded = decode_artifact(&frame).expect("decoding failed");
    assert_eq!(decoded, payload);
}

#[test]
fn round_trip_at_extreme_levels() {
    let payload = b"the quick brown fox jumps over the lazy dog".to_vec();
    for level in [-7, 0, 22] {
        let frame = encode_artifact(&payload, level);
        let decoded = decode_artifact(&frame).expect("decoding failed");
        assert_eq!(decoded, payload);
    }
}

#[test]
fn decoding_junk_fails() {
    let junk = b"this is not a compressed frame".to_vec();
    assert_eq!(decode_artifact(&junk), None);
}

#[test]
fn round_trip_helper_returns_the_payload() {
    let payload = b"hello".to_vec();
    assert_eq!(encode_decode_round_trip(&payload, 3), payload);
}
