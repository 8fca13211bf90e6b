//! Bit layouts of the two packed 64-bit fields.
//!
//! Packed expiration: bits 0..58 hold the timestamp, bits 58..61 are reserved,
//! bit 61 is the reduce-only flag and bits 62..64 the order-type tag.
//!
//! Packed nonce: bits 0..20 hold a caller-assigned counter, bits 20..63 the
//! receive time and bit 63 the trigger-order flag.
use vstd::prelude::*;

use crate::error::CodecError;

verus! {

/// Mask of the expiration timestamp, `2^58 - 1`.
pub const EXPIRATION_MASK: u64 = 0x03ff_ffff_ffff_ffff;

/// Bit position of the reserved bits.
pub const RESERVED_SHIFT: u64 = 58;

/// Bit position of the reduce-only flag.
pub const REDUCE_ONLY_SHIFT: u64 = 61;

/// Bit position of the order-type tag.
pub const ORDER_TYPE_SHIFT: u64 = 62;

/// Bit position of the receive time in a nonce.
pub const RECV_TIME_SHIFT: u64 = 20;

/// Bit position of the trigger-order flag in a nonce.
pub const TRIGGER_SHIFT: u64 = 63;

/// The timestamp held in a packed expiration.
pub open spec fn exp_timestamp(p: u64) -> u64 {
    p & 0x03ff_ffff_ffff_ffff
}

/// The reserved bits of a packed expiration.
pub open spec fn exp_reserved(p: u64) -> u64 {
    (p >> 58) & 7
}

/// The reduce-only flag of a packed expiration.
pub open spec fn exp_reduce_only(p: u64) -> bool {
    p & 0x2000_0000_0000_0000 != 0
}

/// The order-type tag of a packed expiration.
pub open spec fn exp_tag(p: u64) -> u64 {
    p >> 62
}

/// A packed expiration built from its four parts.
pub open spec fn packed_expiration(tag: u64, reduce_only: bool, reserved: u64, timestamp: u64) -> u64 {
    (tag << 62) | ((if reduce_only { 1u64 } else { 0u64 }) << 61) | (reserved << 58) | timestamp
}

/// The receive time held in a packed nonce.
pub open spec fn nonce_recv_time(n: u64) -> u64 {
    n >> 20
}

/// The trigger-order flag of a packed nonce.
pub open spec fn nonce_is_trigger(n: u64) -> bool {
    n >> 63 == 1
}

/// The counter held in the low bits of a packed nonce.
pub open spec fn nonce_counter(n: u64) -> u64 {
    n & 0xf_ffff
}

/// A packed nonce built from its three parts.
pub open spec fn packed_nonce(recv_time: u64, trigger: bool, counter: u64) -> u64 {
    ((if trigger { 1u64 } else { 0u64 }) << 63) | (recv_time << 20) | counter
}

/// The timestamp of a packed expiration: its low 58 bits.
pub fn expiration(packed: u64) -> (r: u64)
    ensures
        r == exp_timestamp(packed),
        r < 0x0400_0000_0000_0000,
{
    assert(packed & 0x03ff_ffff_ffff_ffff < 0x0400_0000_0000_0000) by (bit_vector);
    packed & EXPIRATION_MASK
}

/// Whether bit 61 of a packed expiration is set.
pub fn reduce_only(packed: u64) -> (r: bool)
    ensures
        r == exp_reduce_only(packed),
{
    assert(1u64 << 61 == 0x2000_0000_0000_0000) by (bit_vector);
    packed & (1u64 << REDUCE_ONLY_SHIFT) != 0
}

/// Bits 58 to 60 of a packed expiration.
pub fn reserved_bits(packed: u64) -> (r: u64)
    ensures
        r == exp_reserved(packed),
        r < 8,
{
    assert((packed >> 58) & 7 < 8) by (bit_vector);
    (packed >> RESERVED_SHIFT) & 7
}

/// The order-type tag of a packed expiration: its top two bits.
pub fn order_type_tag(packed: u64) -> (r: u64)
    ensures
        r == exp_tag(packed),
        r < 4,
{
    assert(packed >> 62 < 4) by (bit_vector);
    packed >> ORDER_TYPE_SHIFT
}

/// The receive time of a packed nonce: the nonce without its low 20 bits.
pub fn recv_time(nonce: u64) -> (r: u64)
    ensures
        r == nonce_recv_time(nonce),
{
    nonce >> RECV_TIME_SHIFT
}

/// Whether the top bit of a packed nonce is set.
pub fn is_trigger_order(nonce: u64) -> (r: bool)
    ensures
        r == nonce_is_trigger(nonce),
{
    (nonce >> TRIGGER_SHIFT) == 1
}

/// Packs an expiration from an order-type tag, the reduce-only flag, the
/// reserved bits and a timestamp. A part wider than its bits is refused.
pub fn pack_expiration(tag: u64, reduce_only: bool, reserved_bits: u64, raw_expiration: u64) -> (r: Result<u64, CodecError>)
    ensures
        (tag < 4 && reserved_bits < 8 && raw_expiration < 0x0400_0000_0000_0000) ==>
            r == Ok::<u64, CodecError>(packed_expiration(tag, reduce_only, reserved_bits, raw_expiration)),
        !(tag < 4 && reserved_bits < 8 && raw_expiration < 0x0400_0000_0000_0000) ==>
            r == Err::<u64, CodecError>(CodecError::FieldOutOfRange),
{
    if tag >= 4 || reserved_bits >= 8 || raw_expiration > EXPIRATION_MASK {
        return Err(CodecError::FieldOutOfRange);
    }
    let ro: u64 = if reduce_only { 1 } else { 0 };
    Ok((tag << ORDER_TYPE_SHIFT) | (ro << REDUCE_ONLY_SHIFT) | (reserved_bits << RESERVED_SHIFT) | raw_expiration)
}

/// Packs a nonce from a receive time, the trigger-order flag and a counter.
/// A part wider than its bits is refused.
pub fn pack_nonce(recv_time: u64, trigger: bool, counter: u64) -> (r: Result<u64, CodecError>)
    ensures
        (recv_time < 0x800_0000_0000 && counter < 0x10_0000) ==>
            r == Ok::<u64, CodecError>(packed_nonce(recv_time, trigger, counter)),
        !(recv_time < 0x800_0000_0000 && counter < 0x10_0000) ==>
            r == Err::<u64, CodecError>(CodecError::FieldOutOfRange),
{
    if recv_time >= 0x800_0000_0000 || counter >= 0x10_0000 {
        return Err(CodecError::FieldOutOfRange);
    }
    let t: u64 = if trigger { 1 } else { 0 };
    Ok((t << TRIGGER_SHIFT) | (recv_time << RECV_TIME_SHIFT) | counter)
}

/// Each part of a packed expiration reads back as it was packed, when
/// every part fits its bits.
pub proof fn lemma_expiration_round_trip(tag: u64, reduce_only: bool, reserved: u64, timestamp: u64)
    requires
        tag < 4,
        reserved < 8,
        timestamp < 0x0400_0000_0000_0000,
    ensures
        exp_timestamp(packed_expiration(tag, reduce_only, reserved, timestamp)) == timestamp,
        exp_tag(packed_expiration(tag, reduce_only, reserved, timestamp)) == tag,
        exp_reduce_only(packed_expiration(tag, reduce_only, reserved, timestamp)) == reduce_only,
        exp_reserved(packed_expiration(tag, reduce_only, reserved, timestamp)) == reserved,
{
    let ro: u64 = if reduce_only { 1u64 } else { 0u64 };
    assert(((tag << 62) | (ro << 61) | (reserved << 58) | timestamp) & 0x03ff_ffff_ffff_ffff == timestamp
        && ((tag << 62) | (ro << 61) | (reserved << 58) | timestamp) >> 62 == tag
        && ((((tag << 62) | (ro << 61) | (reserved << 58) | timestamp) & 0x2000_0000_0000_0000 != 0) == (ro == 1))
        && (((tag << 62) | (ro << 61) | (reserved << 58) | timestamp) >> 58) & 7 == reserved) by (bit_vector)
        requires
            tag < 4,
            ro < 2,
            reserved < 8,
            timestamp < 0x0400_0000_0000_0000,
    ;
}

/// The receive time and the trigger flag of a nonce do not depend on its
/// low 20 bits: replacing them by any counter leaves both unchanged.
pub proof fn lemma_nonce_fields_ignore_counter(nonce: u64, counter: u64)
    requires
        counter < 0x10_0000,
    ensures
        nonce_recv_time((nonce & 0xffff_ffff_fff0_0000) | counter) == nonce_recv_time(nonce),
        nonce_is_trigger((nonce & 0xffff_ffff_fff0_0000) | counter) == nonce_is_trigger(nonce),
{
    assert(((nonce & 0xffff_ffff_fff0_0000) | counter) >> 20 == nonce >> 20
        && ((nonce & 0xffff_ffff_fff0_0000) | counter) >> 63 == nonce >> 63) by (bit_vector)
        requires
            counter < 0x10_0000,
    ;
}

/// Each part of a packed nonce reads back as it was packed, when every part
/// fits its bits.
pub proof fn lemma_nonce_round_trip(recv_time: u64, trigger: bool, counter: u64)
    requires
        recv_time < 0x800_0000_0000,
        counter < 0x10_0000,
    ensures
        nonce_recv_time(packed_nonce(recv_time, trigger, counter)) == recv_time
            + if trigger { 0x800_0000_0000u64 } else { 0u64 },
        nonce_is_trigger(packed_nonce(recv_time, trigger, counter)) == trigger,
        nonce_counter(packed_nonce(recv_time, trigger, counter)) == counter,
{
    let t: u64 = if trigger { 1u64 } else { 0u64 };
    assert(((t << 63) | (recv_time << 20) | counter) >> 20 == recv_time + t * 0x800_0000_0000
        && (((t << 63) | (recv_time << 20) | counter) >> 63 == 1) == (t == 1)
        && ((t << 63) | (recv_time << 20) | counter) & 0xf_ffff == counter) by (bit_vector)
        requires
            t < 2,
            recv_time < 0x800_0000_0000,
            counter < 0x10_0000,
    ;
}

} // verus!
