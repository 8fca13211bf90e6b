use vertex_utils::codec::pack_nonce;
use vertex_utils::error::CodecError;
use vertex_utils::identity::to_bytes32;
use vertex_utils::messages::{
    BurnLp, Cancellation, CancellationProducts, LinkSigner, LiquidateSubaccount, MintLp, Order,
    OrderType, WithdrawCollateral,
};

fn sample_order() -> Order {
    let sender = to_bytes32([0xAAu8; 20], "acct1").unwrap();
    let expiration = OrderType::PostOnly.apply_to_expiration(1_700_000_000).unwrap();
    let nonce = pack_nonce(1_700_000_123, false, 0).unwrap();
    Order::new(sender, 1_500_000_000_000_000_000, -2_000_000_000_000_000_000, expiration, nonce)
}

#[test]
fn post_only_ask_reads_back() {
    let o = sample_order();
    assert_eq!(o.order_type(), OrderType::PostOnly);
    assert_eq!(o.raw_expiration() >> 62, 3);
    assert!(!o.reduce_only());
    assert_eq!(o.reserved_bits(), 0);
    assert_eq!(o.expiration(), 1_700_000_000);
    assert_eq!(o.recv_time(), 1_700_000_123);
    assert!(!o.is_trigger_order());
    let back = Order::from_binding(&o.to_binding());
    assert_eq!(back, o);
}

#[test]
fn order_binding_copies_fields() {
    let o = sample_order();
    let b = o.to_binding();
    assert_eq!(b.sender, o.sender);
    assert_eq!(o.sender(), o.sender);
    assert_eq!(o.price_x18(), 1_500_000_000_000_000_000);
    assert_eq!(o.amount(), -2_000_000_000_000_000_000);
    assert_eq!(b.price_x18, 1_500_000_000_000_000_000);
    assert_eq!(b.amount, -2_000_000_000_000_000_000);
    assert_eq!(b.expiration, o.raw_expiration());
    assert_eq!(b.nonce, o.raw_nonce());
    let book = o.to_offchain_book_binding();
    assert_eq!(book.expiration, b.expiration);
    assert_eq!(book.nonce, b.nonce);
}

#[test]
fn signed_bindings_keep_signature() {
    let o = sample_order();
    let sig = vec![1u8, 2, 3, 0xff];
    let s = o.to_signed_binding(&sig);
    assert_eq!(s.order, o.to_binding());
    assert_eq!(s.signature, sig);
    let t = o.to_offchain_book_signed_binding(&sig);
    assert_eq!(t.order, o.to_offchain_book_binding());
    assert_eq!(t.signature, sig);
}

#[test]
fn order_types() {
    assert!(OrderType::ImmediateOrCancel.taker_only());
    assert!(OrderType::FillOrKill.taker_only());
    assert!(!OrderType::Default.taker_only());
    assert!(!OrderType::PostOnly.taker_only());
    assert_eq!(OrderType::FillOrKill.apply_to_expiration(10), Ok((2u64 << 62) | 10));
    assert_eq!(OrderType::Default.apply_to_expiration(10), Ok(10));
    assert_eq!(OrderType::Default.to_string(), "default");
    assert_eq!(OrderType::ImmediateOrCancel.to_string(), "ioc");
    assert_eq!(OrderType::FillOrKill.to_string(), "fok");
    assert_eq!(OrderType::PostOnly.to_string(), "post_only");
    assert_eq!(OrderType::from_tag(1), Some(OrderType::ImmediateOrCancel));
    assert_eq!(OrderType::from_tag(4), None);
    assert_eq!(OrderType::default(), OrderType::Default);
}

#[test]
fn reduce_only_and_trigger_flags() {
    let exp = (1u64 << 61) | OrderType::ImmediateOrCancel.apply_to_expiration(99).unwrap();
    let nonce = pack_nonce(12, true, 3).unwrap();
    let o = Order::new([0u8; 32], 1, 1, exp, nonce);
    assert!(o.reduce_only());
    assert_eq!(o.order_type(), OrderType::ImmediateOrCancel);
    assert_eq!(o.expiration(), 99);
    assert!(o.is_trigger_order());
}

#[test]
fn cancellation_bindings() {
    let c = Cancellation::new([3u8; 32], vec![1, 2, 5], vec![[9u8; 32], [8u8; 32]], 5u64 << 20);
    let b = c.to_binding();
    assert_eq!(b.product_ids, vec![1, 2, 5]);
    assert_eq!(b.digests, vec![[9u8; 32], [8u8; 32]]);
    assert_eq!(b.nonce, c.raw_nonce());
    assert_eq!(c.raw_nonce(), 5u64 << 20);
    assert_eq!(c.recv_time(), 5);
    let s = c.to_signed_binding(&[7u8]);
    assert_eq!(s.cancellation, b);
    assert_eq!(s.signature, vec![7u8]);

    let p = CancellationProducts::new([3u8; 32], vec![4], 9u64 << 20);
    assert_eq!(p.raw_nonce(), 9u64 << 20);
    let pb = p.to_binding();
    assert_eq!(pb.product_ids, vec![4]);
    assert_eq!(p.recv_time(), 9);
    assert_eq!(p.to_signed_binding(&[]).cancellation_products, pb);
}

#[test]
fn other_message_bindings() {
    let l = LinkSigner::new([1u8; 32], [2u8; 32], 3u64 << 20);
    assert_eq!(l.raw_nonce(), 3u64 << 20);
    assert_eq!(l.to_binding().signer, [2u8; 32]);
    assert_eq!(l.recv_time(), 3);
    assert_eq!(l.to_signed_binding(&[5u8]).tx, l.to_binding());

    let q = LiquidateSubaccount::new([1u8; 32], [2u8; 32], 1, 7, -5, 11);
    assert_eq!(q.raw_nonce(), 11);
    let qb = q.to_binding();
    assert_eq!((qb.mode, qb.health_group, qb.amount, qb.nonce), (1, 7, -5, 11));

    let w = WithdrawCollateral::new([1u8; 32], 2, u128::MAX, 4);
    assert_eq!(w.raw_nonce(), 4);
    let wb = w.to_binding();
    assert_eq!((wb.product_id, wb.amount, wb.nonce), (2, u128::MAX, 4));

    let m = MintLp::new([1u8; 32], 3, 10, 20, 30, 6);
    assert_eq!(m.raw_nonce(), 6);
    let mb = m.to_binding();
    assert_eq!((mb.amount_base, mb.quote_amount_low, mb.quote_amount_high), (10, 20, 30));

    let b = BurnLp::new([1u8; 32], 3, 77, 8);
    assert_eq!(b.raw_nonce(), 8);
    let bb = b.to_binding();
    assert_eq!((bb.product_id, bb.amount, bb.nonce), (3, 77, 8));
}

#[test]
fn over_wide_timestamp_is_refused_by_order_type() {
    let max = (1u64 << 58) - 1;
    assert_eq!(OrderType::PostOnly.apply_to_expiration(max), Ok((3u64 << 62) | max));
    for t in [
        OrderType::Default,
        OrderType::ImmediateOrCancel,
        OrderType::FillOrKill,
        OrderType::PostOnly,
    ] {
        assert_eq!(t.apply_to_expiration(1u64 << 58), Err(CodecError::FieldOutOfRange));
        assert_eq!(t.apply_to_expiration(u64::MAX), Err(CodecError::FieldOutOfRange));
    }
}
