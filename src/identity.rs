//! The 32-byte account identity: a 20-byte address followed by a 12-byte
//! name field that holds the name's UTF-8 bytes padded with zero bytes.
use vstd::prelude::*;
use vstd::utf8::{
    decode_utf8, encode_utf8, encode_utf8_decode_utf8, encode_utf8_valid_utf8, valid_utf8,
};
use vstd::string::StringSliceAdditionalSpecFns;

use crate::error::CodecError;
use crate::wire::string_from_utf8;

verus! {

/// Length in bytes of an account address.
pub const ADDRESS_LEN: usize = 20;

/// Length in bytes of the name field.
pub const NAME_LEN: usize = 12;

/// The name field that holds `name`: its bytes, then zero bytes up to 12.
pub open spec fn name_field(name: Seq<u8>) -> Seq<u8> {
    name + Seq::new((12 - name.len()) as nat, |i: int| 0u8)
}

/// The identity made of an address and the bytes of a name.
pub open spec fn identity_bytes(address: Seq<u8>, name: Seq<u8>) -> Seq<u8> {
    address + name_field(name)
}

/// `b` without its trailing zero bytes.
pub open spec fn trim_zeros(b: Seq<u8>) -> Seq<u8>
    decreases b.len(),
{
    if b.len() > 0 && b.last() == 0 {
        trim_zeros(b.drop_last())
    } else {
        b
    }
}

/// The name that a name field holds, if its bytes without the zero padding
/// are valid UTF-8.
pub open spec fn decoded_name(field: Seq<u8>) -> Option<Seq<char>> {
    if valid_utf8(trim_zeros(field)) {
        Some(decode_utf8(trim_zeros(field)))
    } else {
        None
    }
}

/// The name field for `s`: its UTF-8 bytes, padded with zero bytes.
/// A name of more than 12 bytes is refused.
pub fn to_bytes12(s: &str) -> (r: Result<[u8; 12], CodecError>)
    ensures
        s.spec_bytes().len() <= 12 ==> r is Ok && r->Ok_0@ == name_field(s.spec_bytes()),
        s.spec_bytes().len() > 12 ==> r == Err::<[u8; 12], CodecError>(CodecError::InvalidNameEncoding),
{
    let b = s.as_bytes();
    if b.len() > NAME_LEN {
        return Err(CodecError::InvalidNameEncoding);
    }
    let mut out = [0u8; 12];
    let mut i: usize = 0;
    while i < b.len()
        invariant
            b@ == s.spec_bytes(),
            b@.len() <= 12,
            i <= b@.len(),
            forall|j: int| 0 <= j < i ==> out@[j] == b@[j],
            forall|j: int| i <= j < 12 ==> out@[j] == 0u8,
        decreases b@.len() - i,
    {
        out[i] = b[i];
        i = i + 1;
    }
    assert(out@ =~= name_field(b@));
    Ok(out)
}

/// The identity made of `address` and the name field `name`.
pub fn concat_to_bytes32(address: [u8; 20], name: [u8; 12]) -> (r: [u8; 32])
    ensures
        r@ == address@ + name@,
{
    let mut ret = [0u8; 32];
    let mut i: usize = 0;
    while i < 32
        invariant
            i <= 32,
            forall|j: int| 0 <= j < i && j < 20 ==> ret@[j] == address@[j],
            forall|j: int| 20 <= j < i ==> ret@[j] == name@[j - 20],
        decreases 32 - i,
    {
        if i < ADDRESS_LEN {
            ret[i] = address[i];
        } else {
            ret[i] = name[i - ADDRESS_LEN];
        }
        i = i + 1;
    }
    assert(ret@ =~= address@ + name@);
    ret
}

/// The identity of the account `address` under the name `name`.
/// A name of more than 12 bytes is refused.
pub fn to_bytes32(address: [u8; 20], name: &str) -> (r: Result<[u8; 32], CodecError>)
    ensures
        name.spec_bytes().len() <= 12 ==> r is Ok && r->Ok_0@ == identity_bytes(address@, name.spec_bytes()),
        name.spec_bytes().len() > 12 ==> r == Err::<[u8; 32], CodecError>(CodecError::InvalidNameEncoding),
{
    let field = to_bytes12(name)?;
    Ok(concat_to_bytes32(address, field))
}

/// The name held in a name field: its bytes up to the zero padding, read
/// as UTF-8. Bytes that are not valid UTF-8 are refused.
pub fn from_bytes12(b: [u8; 12]) -> (r: Result<String, CodecError>)
    ensures
        decoded_name(b@) is Some ==> r is Ok && r->Ok_0@ == decoded_name(b@)->0,
        decoded_name(b@) is None ==> r == Err::<String, CodecError>(CodecError::InvalidNameEncoding),
{
    let mut n: usize = NAME_LEN;
    assert(b@.subrange(0, 12) =~= b@);
    while n > 0 && b[n - 1] == 0
        invariant
            n <= 12,
            trim_zeros(b@) == trim_zeros(b@.subrange(0, n as int)),
        decreases n,
    {
        assert(b@.subrange(0, n as int).drop_last() =~= b@.subrange(0, n - 1));
        n = n - 1;
    }
    let mut bytes: Vec<u8> = Vec::new();
    let mut i: usize = 0;
    while i < n
        invariant
            n <= 12,
            i <= n,
            bytes@ == b@.subrange(0, i as int),
        decreases n - i,
    {
        bytes.push(b[i]);
        assert(bytes@ =~= b@.subrange(0, i + 1));
        i = i + 1;
    }
    assert(trim_zeros(b@.subrange(0, n as int)) == b@.subrange(0, n as int));
    match string_from_utf8(bytes) {
        Some(s) => Ok(s),
        None => Err(CodecError::InvalidNameEncoding),
    }
}

/// The address and the name of an identity. A name that is not valid
/// UTF-8 is refused.
pub fn from_bytes32(b: [u8; 32]) -> (r: Result<([u8; 20], String), CodecError>)
    ensures
        decoded_name(b@.subrange(20, 32)) is Some ==> r is Ok && r->Ok_0.0@ == b@.subrange(0, 20)
            && r->Ok_0.1@ == decoded_name(b@.subrange(20, 32))->0,
        decoded_name(b@.subrange(20, 32)) is None ==> r == Err::<([u8; 20], String), CodecError>(
            CodecError::InvalidNameEncoding,
        ),
{
    let mut address = [0u8; 20];
    let mut name = [0u8; 12];
    let mut i: usize = 0;
    while i < 32
        invariant
            i <= 32,
            forall|j: int| 0 <= j < i && j < 20 ==> address@[j] == b@[j],
            forall|j: int| 20 <= j < i ==> name@[j - 20] == b@[j],
        decreases 32 - i,
    {
        if i < ADDRESS_LEN {
            address[i] = b[i];
        } else {
            name[i - ADDRESS_LEN] = b[i];
        }
        i = i + 1;
    }
    assert(address@ =~= b@.subrange(0, 20));
    assert(name@ =~= b@.subrange(20, 32));
    let s = from_bytes12(name)?;
    Ok((address, s))
}

/// Zero padding after bytes that do not end in a zero byte is removed
/// exactly by trimming.
proof fn lemma_trim_padding(e: Seq<u8>, k: nat)
    requires
        e.len() == 0 || e.last() != 0,
    ensures
        trim_zeros(e + Seq::new(k, |i: int| 0u8)) == e,
    decreases k,
{
    let s = e + Seq::new(k, |i: int| 0u8);
    if k == 0 {
        assert(s =~= e);
    } else {
        assert(s.last() == 0);
        assert(s.drop_last() =~= e + Seq::new((k - 1) as nat, |i: int| 0u8));
        lemma_trim_padding(e, (k - 1) as nat);
    }
}

/// An identity reads back as the address and the name it was made from,
/// for every name of at most 12 bytes whose last byte is not zero (a name
/// that ends in a NUL character loses it to the padding).
pub proof fn lemma_identity_round_trip(address: Seq<u8>, name: Seq<char>)
    requires
        address.len() == 20,
        encode_utf8(name).len() <= 12,
        encode_utf8(name).len() == 0 || encode_utf8(name).last() != 0,
    ensures
        identity_bytes(address, encode_utf8(name)).subrange(0, 20) == address,
        decoded_name(identity_bytes(address, encode_utf8(name)).subrange(20, 32)) == Some(name),
{
    let e = encode_utf8(name);
    let id = identity_bytes(address, e);
    assert(id.subrange(0, 20) =~= address);
    assert(id.subrange(20, 32) =~= name_field(e));
    lemma_trim_padding(e, (12 - e.len()) as nat);
    encode_utf8_valid_utf8(name);
    encode_utf8_decode_utf8(name);
}

} // verus!
