use vertex_utils::error::CodecError;
use vertex_utils::identity::{
    concat_to_bytes32, from_bytes12, from_bytes32, to_bytes12, to_bytes32,
};

#[test]
fn identity_round_trips() {
    let addr = [0xAAu8; 20];
    for name in ["", "a", "acct1", "default", "exactly12chr"] {
        let id = to_bytes32(addr, name).unwrap();
        let (a, n) = from_bytes32(id).unwrap();
        assert_eq!(a, addr);
        assert_eq!(n, name);
    }
}

#[test]
fn twelve_byte_name_round_trips_and_thirteen_is_refused() {
    let addr = [7u8; 20];
    let id = to_bytes32(addr, "exactly12chr").unwrap();
    assert_eq!(&id[20..], b"exactly12chr");
    assert_eq!(from_bytes32(id).unwrap(), (addr, "exactly12chr".to_string()));
    assert_eq!(to_bytes32(addr, "toolong-name!"), Err(CodecError::InvalidNameEncoding));
    assert_eq!(to_bytes12("toolong-name!"), Err(CodecError::InvalidNameEncoding));
}

#[test]
fn name_field_is_zero_padded() {
    let f = to_bytes12("ab").unwrap();
    assert_eq!(f, [b'a', b'b', 0, 0, 0, 0, 0, 0, 0, 0, 0, 0]);
}

#[test]
fn identity_is_address_then_name() {
    let mut addr = [0u8; 20];
    for i in 0..20 {
        addr[i] = i as u8 + 1;
    }
    let id = concat_to_bytes32(addr, to_bytes12("xyz").unwrap());
    assert_eq!(&id[..20], &addr[..]);
    assert_eq!(&id[20..23], b"xyz");
    assert!(id[23..].iter().all(|b| *b == 0));
}

#[test]
fn name_field_decodes_without_padding() {
    let mut f = [0u8; 12];
    f[0] = b'h';
    f[1] = b'i';
    assert_eq!(from_bytes12(f).unwrap(), "hi");
    assert_eq!(from_bytes12([0u8; 12]).unwrap(), "");
}

#[test]
fn invalid_utf8_name_is_refused() {
    let mut f = [0u8; 12];
    f[0] = 0xff;
    assert_eq!(from_bytes12(f), Err(CodecError::InvalidNameEncoding));
    let mut id = [0u8; 32];
    id[20] = 0xc3;
    assert_eq!(from_bytes32(id), Err(CodecError::InvalidNameEncoding));
}

#[test]
fn multibyte_name_round_trips() {
    let id = to_bytes32([1u8; 20], "zürich").unwrap();
    assert_eq!(from_bytes32(id).unwrap().1, "zürich");
}
