use vertex_utils::codec::{
    expiration, is_trigger_order, order_type_tag, pack_expiration, pack_nonce, recv_time,
    reduce_only, reserved_bits,
};
use vertex_utils::error::CodecError;

const MAX_TIMESTAMP: u64 = (1u64 << 58) - 1;

#[test]
fn packed_expiration_reads_back_every_part() {
    for tag in 0u64..4 {
        for ro in [false, true] {
            for e in [0u64, 1, 1_700_000_000, MAX_TIMESTAMP] {
                let p = pack_expiration(tag, ro, 0, e).unwrap();
                assert_eq!(expiration(p), e);
                assert_eq!(order_type_tag(p), tag);
                assert_eq!(reduce_only(p), ro);
                assert_eq!(reserved_bits(p), 0);
            }
        }
    }
}

#[test]
fn packed_expiration_keeps_reserved_bits() {
    let p = pack_expiration(2, true, 5, 42).unwrap();
    assert_eq!(p, (2u64 << 62) | (1u64 << 61) | (5u64 << 58) | 42);
    assert_eq!(reserved_bits(p), 5);
    assert_eq!(expiration(p), 42);
}

#[test]
fn largest_timestamp_is_accepted() {
    let p = pack_expiration(0, false, 0, MAX_TIMESTAMP).unwrap();
    assert_eq!(p, MAX_TIMESTAMP);
    assert_eq!(expiration(p), MAX_TIMESTAMP);
}

#[test]
fn timestamp_past_58_bits_is_refused() {
    assert_eq!(pack_expiration(0, false, 0, 1u64 << 58), Err(CodecError::FieldOutOfRange));
    assert_eq!(pack_expiration(3, true, 0, u64::MAX), Err(CodecError::FieldOutOfRange));
}

#[test]
fn wide_tag_or_reserved_bits_are_refused() {
    assert_eq!(pack_expiration(4, false, 0, 1), Err(CodecError::FieldOutOfRange));
    assert_eq!(pack_expiration(0, false, 8, 1), Err(CodecError::FieldOutOfRange));
}

#[test]
fn nonce_fields_ignore_low_bits() {
    let n: u64 = (1u64 << 63) | (1_700_000_123u64 << 20);
    for low in [0u64, 1, 0x7_1234, 0xf_ffff] {
        let m = n | low;
        assert_eq!(recv_time(m), m >> 20);
        assert_eq!(recv_time(m), recv_time(n));
        assert!(is_trigger_order(m));
    }
    assert!(!is_trigger_order(1_700_000_123u64 << 20));
    assert_eq!(recv_time(0xf_ffff), 0);
}

#[test]
fn packed_nonce_reads_back() {
    let n = pack_nonce(1_700_000_123, false, 7).unwrap();
    assert_eq!(n, (1_700_000_123u64 << 20) | 7);
    assert_eq!(recv_time(n), 1_700_000_123);
    assert!(!is_trigger_order(n));
    let t = pack_nonce(5, true, 0).unwrap();
    assert!(is_trigger_order(t));
    assert_eq!(recv_time(t), 5 + (1u64 << 43));
}

#[test]
fn wide_nonce_parts_are_refused() {
    assert_eq!(pack_nonce(1u64 << 43, false, 0), Err(CodecError::FieldOutOfRange));
    assert_eq!(pack_nonce(0, false, 1u64 << 20), Err(CodecError::FieldOutOfRange));
}
