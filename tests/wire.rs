use vertex_utils::error::CodecError;
use vertex_utils::wire::{
    deserialize_bytes32, deserialize_i128, deserialize_u128, deserialize_u64,
    deserialize_vec_bytes32, serialize_bytes32, serialize_i128, serialize_u128, serialize_u64,
    serialize_vec_bytes32,
};

#[test]
fn integers_render_as_decimal() {
    assert_eq!(serialize_u64(0), "0");
    assert_eq!(serialize_u64(1_700_000_123), "1700000123");
    assert_eq!(serialize_u64(u64::MAX), "18446744073709551615");
    assert_eq!(serialize_u128(u128::MAX), "340282366920938463463374607431768211455");
    assert_eq!(serialize_i128(-2_000_000_000_000_000_000), "-2000000000000000000");
    assert_eq!(serialize_i128(i128::MIN), i128::MIN.to_string());
    assert_eq!(serialize_i128(i128::MAX), i128::MAX.to_string());
}

#[test]
fn integers_read_back() {
    for v in [0u64, 9, 10, 12345, u64::MAX] {
        assert_eq!(deserialize_u64(&serialize_u64(v)), Ok(v));
    }
    for v in [0u128, 1, u128::MAX] {
        assert_eq!(deserialize_u128(&serialize_u128(v)), Ok(v));
    }
    for v in [0i128, -1, 1_500_000_000_000_000_000, i128::MIN, i128::MAX] {
        assert_eq!(deserialize_i128(&serialize_i128(v)), Ok(v));
    }
    assert_eq!(deserialize_u64("007"), Ok(7));
}

#[test]
fn malformed_decimals_are_refused() {
    assert_eq!(deserialize_u64(""), Err(CodecError::DecodeError));
    assert_eq!(deserialize_u64("12a"), Err(CodecError::DecodeError));
    assert_eq!(deserialize_u64("-1"), Err(CodecError::DecodeError));
    assert_eq!(deserialize_u64("18446744073709551616"), Err(CodecError::DecodeError));
    assert_eq!(
        deserialize_u128("340282366920938463463374607431768211456"),
        Err(CodecError::DecodeError)
    );
    assert_eq!(deserialize_i128("-"), Err(CodecError::DecodeError));
    assert_eq!(
        deserialize_i128("170141183460469231731687303715884105728"),
        Err(CodecError::DecodeError)
    );
    assert_eq!(
        deserialize_i128("-170141183460469231731687303715884105729"),
        Err(CodecError::DecodeError)
    );
}

#[test]
fn bytes32_renders_as_lowercase_hex() {
    let mut b = [0u8; 32];
    b[0] = 0xAB;
    b[31] = 0x01;
    let s = serialize_bytes32(b);
    assert_eq!(s.len(), 66);
    assert!(s.starts_with("0xab00"));
    assert!(s.ends_with("0001"));
    assert_eq!(deserialize_bytes32(&s), Ok(b));
    assert_eq!(deserialize_bytes32(&s.to_uppercase().replacen("0X", "", 1)), Ok(b));
}

#[test]
fn malformed_hex_is_refused() {
    let good = "11".repeat(32);
    assert_eq!(deserialize_bytes32(&good), Ok([0x11u8; 32]));
    assert_eq!(deserialize_bytes32(&good[1..]), Err(CodecError::DecodeError));
    assert_eq!(deserialize_bytes32(&format!("{}g", &good[1..])), Err(CodecError::DecodeError));
    assert_eq!(deserialize_bytes32(&format!("{}00", good)), Err(CodecError::DecodeError));
    assert_eq!(deserialize_bytes32(""), Err(CodecError::DecodeError));
}

#[test]
fn bytes32_lists_round_trip() {
    let v = vec![[1u8; 32], [0xfeu8; 32]];
    let s = serialize_vec_bytes32(&v);
    assert_eq!(s.len(), 2);
    assert_eq!(deserialize_vec_bytes32(&s), Ok(v));
    let bad = vec![s[0].clone(), "0x12".to_string()];
    assert_eq!(deserialize_vec_bytes32(&bad), Err(CodecError::DecodeError));
}
