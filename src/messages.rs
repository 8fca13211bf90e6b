//! The message records, their packed-field accessors and their conversions
//! to the binding shapes.
#![allow(non_snake_case)]
use vstd::prelude::*;
use vstd::slice::slice_to_vec;

use crate::codec::{
    exp_reduce_only, exp_reserved, exp_tag, exp_timestamp, lemma_expiration_round_trip,
    nonce_is_trigger, nonce_recv_time, packed_expiration,
};
use crate::codec;
use crate::error::CodecError;
use crate::endpoint;
use crate::offchain_book;

verus! {

/// How an order may rest on the book.
#[derive(Debug, Clone, Copy, PartialEq, Eq, Structural, Default)]
pub enum OrderType {
    #[default]
    Default,
    ImmediateOrCancel,
    FillOrKill,
    PostOnly,
}

/// The tag that stands for an order type in a packed expiration.
pub open spec fn order_type_tag(t: OrderType) -> u64 {
    match t {
        OrderType::Default => 0,
        OrderType::ImmediateOrCancel => 1,
        OrderType::FillOrKill => 2,
        OrderType::PostOnly => 3,
    }
}

/// The order type that a tag below 4 stands for.
pub open spec fn order_type_of_tag(tag: u64) -> OrderType {
    if tag == 0 {
        OrderType::Default
    } else if tag == 1 {
        OrderType::ImmediateOrCancel
    } else if tag == 2 {
        OrderType::FillOrKill
    } else {
        OrderType::PostOnly
    }
}

/// The short name of an order type.
pub open spec fn order_type_name(t: OrderType) -> Seq<char> {
    match t {
        OrderType::Default => seq!['d', 'e', 'f', 'a', 'u', 'l', 't'],
        OrderType::ImmediateOrCancel => seq!['i', 'o', 'c'],
        OrderType::FillOrKill => seq!['f', 'o', 'k'],
        OrderType::PostOnly => seq!['p', 'o', 's', 't', '_', 'o', 'n', 'l', 'y'],
    }
}

/// A copy of a vector of plain values.
fn copy_vec<T: Copy>(v: &Vec<T>) -> (r: Vec<T>)
    ensures
        r@ == v@,
{
    let mut r: Vec<T> = Vec::new();
    let mut i: usize = 0;
    while i < v.len()
        invariant
            i <= v@.len(),
            r@ == v@.subrange(0, i as int),
        decreases v@.len() - i,
    {
        r.push(v[i]);
        assert(r@ =~= v@.subrange(0, i + 1));
        i = i + 1;
    }
    assert(r@ =~= v@);
    r
}

impl OrderType {
    /// Whether orders of this type must never rest on the book.
    pub fn taker_only(&self) -> (r: bool)
        ensures
            r == (*self == OrderType::ImmediateOrCancel || *self == OrderType::FillOrKill),
    {
        match self {
            OrderType::ImmediateOrCancel => true,
            OrderType::FillOrKill => true,
            _ => false,
        }
    }

    fn expiration_bit(&self) -> (r: u64)
        ensures
            r == order_type_tag(*self),
    {
        match self {
            OrderType::Default => 0,
            OrderType::ImmediateOrCancel => 1,
            OrderType::FillOrKill => 2,
            OrderType::PostOnly => 3,
        }
    }

    /// The order type that the top two bits of a packed expiration stand for.
    pub fn from_tag(tag: u64) -> (r: Option<OrderType>)
        ensures
            tag < 4 ==> r == Some(order_type_of_tag(tag)),
            tag >= 4 ==> r is None,
    {
        if tag == 0 {
            Some(OrderType::Default)
        } else if tag == 1 {
            Some(OrderType::ImmediateOrCancel)
        } else if tag == 2 {
            Some(OrderType::FillOrKill)
        } else if tag == 3 {
            Some(OrderType::PostOnly)
        } else {
            None
        }
    }

    /// Packs this type's tag with a timestamp, the reduce-only flag and the
    /// reserved bits clear. A timestamp wider than 58 bits is refused.
    pub fn apply_to_expiration(&self, expiration: u64) -> (r: Result<u64, CodecError>)
        ensures
            expiration < 0x0400_0000_0000_0000 ==> r == Ok::<u64, CodecError>(
                packed_expiration(order_type_tag(*self), false, 0, expiration),
            ),
            expiration >= 0x0400_0000_0000_0000 ==> r == Err::<u64, CodecError>(
                CodecError::FieldOutOfRange,
            ),
    {
        codec::pack_expiration(self.expiration_bit(), false, 0, expiration)
    }

    /// The short name of this type: "default", "ioc", "fok" or "post_only".
    pub fn to_string(&self) -> (r: String)
        ensures
            r@ == order_type_name(*self),
    {
        let s: &str = match self {
            OrderType::Default => "default",
            OrderType::ImmediateOrCancel => "ioc",
            OrderType::FillOrKill => "fok",
            OrderType::PostOnly => "post_only",
        };
        proof {
            reveal_strlit("default");
            reveal_strlit("ioc");
            reveal_strlit("fok");
            reveal_strlit("post_only");
        }
        let r = s.to_owned();
        assert(r@ =~= order_type_name(*self));
        r
    }
}

/// An order: a price and an amount (positive to buy, negative to sell),
/// with a packed expiration and a packed nonce that are reached through
/// accessors.
#[derive(Debug, Clone, Copy, PartialEq, Eq, Default)]
pub struct Order {
    pub sender: [u8; 32],
    pub priceX18: i128,
    pub amount: i128,
    expiration: u64,
    nonce: u64,
}

impl View for Order {
    type V = endpoint::Order;

    /// An order is described by the fields of its endpoint binding.
    closed spec fn view(&self) -> endpoint::Order {
        endpoint::Order {
            sender: self.sender,
            price_x18: self.priceX18,
            amount: self.amount,
            expiration: self.expiration,
            nonce: self.nonce,
        }
    }
}

impl Order {
    /// An order from its fields, with an expiration and a nonce packed already.
    pub fn new(sender: [u8; 32], priceX18: i128, amount: i128, expiration: u64, nonce: u64) -> (r: Order)
        ensures
            r@ == (endpoint::Order { sender, price_x18: priceX18, amount, expiration, nonce }),
    {
        Order { sender, priceX18, amount, expiration, nonce }
    }

    /// The order book binding of this order.
    pub fn to_offchain_book_binding(&self) -> (r: offchain_book::Order)
        ensures
            r == (offchain_book::Order {
                sender: self@.sender,
                price_x18: self@.price_x18,
                amount: self@.amount,
                expiration: self@.expiration,
                nonce: self@.nonce,
            }),
    {
        offchain_book::Order {
            sender: self.sender,
            price_x18: self.priceX18,
            amount: self.amount,
            expiration: self.expiration,
            nonce: self.nonce,
        }
    }

    /// The endpoint binding of this order.
    pub fn to_binding(&self) -> (r: endpoint::Order)
        ensures
            r == self@,
    {
        endpoint::Order {
            sender: self.sender,
            price_x18: self.priceX18,
            amount: self.amount,
            expiration: self.expiration,
            nonce: self.nonce,
        }
    }

    /// The endpoint binding of this order with `signature`, taken as it is.
    pub fn to_signed_binding(&self, signature: &[u8]) -> (r: endpoint::SignedOrder)
        ensures
            r.order == self@,
            r.signature@ == signature@,
    {
        endpoint::SignedOrder { order: self.to_binding(), signature: slice_to_vec(signature) }
    }

    /// The order book binding of this order with `signature`, taken as it is.
    pub fn to_offchain_book_signed_binding(&self, signature: &[u8]) -> (r: offchain_book::SignedOrder)
        ensures
            r.order == (offchain_book::Order {
                sender: self@.sender,
                price_x18: self@.price_x18,
                amount: self@.amount,
                expiration: self@.expiration,
                nonce: self@.nonce,
            }),
            r.signature@ == signature@,
    {
        offchain_book::SignedOrder {
            order: self.to_offchain_book_binding(),
            signature: slice_to_vec(signature),
        }
    }

    /// The order that an endpoint binding describes.
    pub fn from_binding(order: &endpoint::Order) -> (r: Order)
        ensures
            r@ == *order,
    {
        Order {
            sender: order.sender,
            priceX18: order.price_x18,
            amount: order.amount,
            expiration: order.expiration,
            nonce: order.nonce,
        }
    }

    /// The identity of the account that sends the order.
    pub fn sender(&self) -> (r: [u8; 32])
        ensures
            r == self@.sender,
    {
        self.sender
    }

    /// The price, as a fixed-point number scaled by 10^18.
    pub fn price_x18(&self) -> (r: i128)
        ensures
            r == self@.price_x18,
    {
        self.priceX18
    }

    /// The amount: positive to buy, negative to sell.
    pub fn amount(&self) -> (r: i128)
        ensures
            r == self@.amount,
    {
        self.amount
    }

    /// The packed nonce, for transport.
    pub fn raw_nonce(&self) -> (r: u64)
        ensures
            r == self@.nonce,
    {
        self.nonce
    }

    /// The packed expiration, for transport.
    pub fn raw_expiration(&self) -> (r: u64)
        ensures
            r == self@.expiration,
    {
        self.expiration
    }

    /// The expiration timestamp, without the flags packed beside it.
    pub fn expiration(&self) -> (r: u64)
        ensures
            r == exp_timestamp(self@.expiration),
    {
        codec::expiration(self.expiration)
    }

    /// Whether the order may only reduce a position.
    pub fn reduce_only(&self) -> (r: bool)
        ensures
            r == exp_reduce_only(self@.expiration),
    {
        codec::reduce_only(self.expiration)
    }

    /// The reserved bits of the packed expiration.
    pub fn reserved_bits(&self) -> (r: u64)
        ensures
            r == exp_reserved(self@.expiration),
    {
        codec::reserved_bits(self.expiration)
    }

    /// The type of the order, from the top two bits of its expiration.
    pub fn order_type(&self) -> (r: OrderType)
        ensures
            r == order_type_of_tag(exp_tag(self@.expiration)),
    {
        let tag = codec::order_type_tag(self.expiration);
        match OrderType::from_tag(tag) {
            Some(t) => t,
            None => OrderType::Default,
        }
    }

    /// The time at which the order was received.
    pub fn recv_time(&self) -> (r: u64)
        ensures
            r == nonce_recv_time(self@.nonce),
    {
        codec::recv_time(self.nonce)
    }

    /// Whether the order is a trigger order.
    pub fn is_trigger_order(&self) -> (r: bool)
        ensures
            r == nonce_is_trigger(self@.nonce),
    {
        codec::is_trigger_order(self.nonce)
    }
}

/// An order is determined by its endpoint binding, so reading an order back
/// from the binding of `o` gives `o` itself.
pub proof fn lemma_order_binding_round_trip(o: Order, back: Order)
    requires
        back@ == o@,
    ensures
        back == o,
{
}

/// Each order type reads back from the tag that stands for it.
pub proof fn lemma_order_type_tag_round_trip(t: OrderType)
    ensures
        order_type_tag(t) < 4,
        order_type_of_tag(order_type_tag(t)) == t,
{
}

/// Packing an order type, a reduce-only flag and a timestamp that fits its
/// 58 bits, with the reserved bits clear, reads back as the same three.
pub proof fn lemma_pack_expiration_order_type(t: OrderType, reduce_only: bool, timestamp: u64)
    requires
        timestamp < 0x0400_0000_0000_0000,
    ensures
        exp_timestamp(packed_expiration(order_type_tag(t), reduce_only, 0, timestamp)) == timestamp,
        order_type_of_tag(exp_tag(packed_expiration(order_type_tag(t), reduce_only, 0, timestamp))) == t,
        exp_reduce_only(packed_expiration(order_type_tag(t), reduce_only, 0, timestamp)) == reduce_only,
        exp_reserved(packed_expiration(order_type_tag(t), reduce_only, 0, timestamp)) == 0,
{
    lemma_expiration_round_trip(order_type_tag(t), reduce_only, 0, timestamp);
}

/// A cancellation of orders by their digests. The packed nonce is reached
/// through accessors.
#[derive(Debug, Clone, PartialEq, Eq)]
pub struct Cancellation {
    pub sender: [u8; 32],
    pub productIds: Vec<u32>,
    pub digests: Vec<[u8; 32]>,
    nonce: u64,
}

impl View for Cancellation {
    /// The sender, the product ids, the digests and the packed nonce.
    type V = ([u8; 32], Seq<u32>, Seq<[u8; 32]>, u64);

    closed spec fn view(&self) -> ([u8; 32], Seq<u32>, Seq<[u8; 32]>, u64) {
        (self.sender, self.productIds@, self.digests@, self.nonce)
    }
}

impl Cancellation {
    /// A cancellation from its fields, with a nonce packed already.
    pub fn new(sender: [u8; 32], productIds: Vec<u32>, digests: Vec<[u8; 32]>, nonce: u64) -> (r: Cancellation)
        ensures
            r@ == (sender, productIds@, digests@, nonce),
    {
        Cancellation { sender, productIds, digests, nonce }
    }

    /// The packed nonce, for transport.
    pub fn raw_nonce(&self) -> (r: u64)
        ensures
            r == self@.3,
    {
        self.nonce
    }

    /// The endpoint binding of this cancellation.
    pub fn to_binding(&self) -> (r: endpoint::Cancellation)
        ensures
            r.sender == self@.0,
            r.product_ids@ == self@.1,
            r.digests@ == self@.2,
            r.nonce == self@.3,
    {
        endpoint::Cancellation {
            sender: self.sender,
            product_ids: copy_vec(&self.productIds),
            digests: copy_vec(&self.digests),
            nonce: self.nonce,
        }
    }

    /// The endpoint binding of this cancellation with `signature`, taken as it is.
    pub fn to_signed_binding(&self, signature: &[u8]) -> (r: endpoint::SignedCancellation)
        ensures
            r.cancellation.sender == self@.0,
            r.cancellation.product_ids@ == self@.1,
            r.cancellation.digests@ == self@.2,
            r.cancellation.nonce == self@.3,
            r.signature@ == signature@,
    {
        endpoint::SignedCancellation {
            cancellation: self.to_binding(),
            signature: slice_to_vec(signature),
        }
    }

    /// The time at which the cancellation was received.
    pub fn recv_time(&self) -> (r: u64)
        ensures
            r == nonce_recv_time(self@.3),
    {
        codec::recv_time(self.nonce)
    }
}

/// A cancellation of every open order on some products. The packed nonce is
/// reached through accessors.
#[derive(Debug, Clone, PartialEq, Eq)]
pub struct CancellationProducts {
    pub sender: [u8; 32],
    pub productIds: Vec<u32>,
    nonce: u64,
}

impl View for CancellationProducts {
    /// The sender, the product ids and the packed nonce.
    type V = ([u8; 32], Seq<u32>, u64);

    closed spec fn view(&self) -> ([u8; 32], Seq<u32>, u64) {
        (self.sender, self.productIds@, self.nonce)
    }
}

impl CancellationProducts {
    /// A product cancellation from its fields, with a nonce packed already.
    pub fn new(sender: [u8; 32], productIds: Vec<u32>, nonce: u64) -> (r: CancellationProducts)
        ensures
            r@ == (sender, productIds@, nonce),
    {
        CancellationProducts { sender, productIds, nonce }
    }

    /// The packed nonce, for transport.
    pub fn raw_nonce(&self) -> (r: u64)
        ensures
            r == self@.2,
    {
        self.nonce
    }

    /// The endpoint binding of this cancellation.
    pub fn to_binding(&self) -> (r: endpoint::CancellationProducts)
        ensures
            r.sender == self@.0,
            r.product_ids@ == self@.1,
            r.nonce == self@.2,
    {
        endpoint::CancellationProducts {
            sender: self.sender,
            product_ids: copy_vec(&self.productIds),
            nonce: self.nonce,
        }
    }

    /// The endpoint binding of this cancellation with `signature`, taken as it is.
    pub fn to_signed_binding(&self, signature: &[u8]) -> (r: endpoint::SignedCancellationProducts)
        ensures
            r.cancellation_products.sender == self@.0,
            r.cancellation_products.product_ids@ == self@.1,
            r.cancellation_products.nonce == self@.2,
            r.signature@ == signature@,
    {
        endpoint::SignedCancellationProducts {
            cancellation_products: self.to_binding(),
            signature: slice_to_vec(signature),
        }
    }

    /// The time at which the cancellation was received.
    pub fn recv_time(&self) -> (r: u64)
        ensures
            r == nonce_recv_time(self@.2),
    {
        codec::recv_time(self.nonce)
    }
}

/// A link from an account to a delegated signer. The packed nonce is
/// reached through accessors.
#[derive(Debug, Clone, Copy, PartialEq, Eq)]
pub struct LinkSigner {
    pub sender: [u8; 32],
    pub signer: [u8; 32],
    nonce: u64,
}

impl View for LinkSigner {
    type V = endpoint::LinkSigner;

    /// A link is described by the fields of its endpoint binding.
    closed spec fn view(&self) -> endpoint::LinkSigner {
        endpoint::LinkSigner { sender: self.sender, signer: self.signer, nonce: self.nonce }
    }
}

impl LinkSigner {
    /// A link from its fields, with a nonce packed already.
    pub fn new(sender: [u8; 32], signer: [u8; 32], nonce: u64) -> (r: LinkSigner)
        ensures
            r@ == (endpoint::LinkSigner { sender, signer, nonce }),
    {
        LinkSigner { sender, signer, nonce }
    }

    /// The packed nonce, for transport.
    pub fn raw_nonce(&self) -> (r: u64)
        ensures
            r == self@.nonce,
    {
        self.nonce
    }

    /// The endpoint binding of this link.
    pub fn to_binding(&self) -> (r: endpoint::LinkSigner)
        ensures
            r == self@,
    {
        endpoint::LinkSigner { sender: self.sender, signer: self.signer, nonce: self.nonce }
    }

    /// The endpoint binding of this link with `signature`, taken as it is.
    pub fn to_signed_binding(&self, signature: &[u8]) -> (r: endpoint::SignedLinkSigner)
        ensures
            r.tx == self@,
            r.signature@ == signature@,
    {
        endpoint::SignedLinkSigner { tx: self.to_binding(), signature: slice_to_vec(signature) }
    }

    /// The time at which the link was received.
    pub fn recv_time(&self) -> (r: u64)
        ensures
            r == nonce_recv_time(self@.nonce),
    {
        codec::recv_time(self.nonce)
    }
}

/// A liquidation of another subaccount. The packed nonce is reached through
/// accessors.
#[derive(Debug, Clone, Copy, PartialEq, Eq)]
pub struct LiquidateSubaccount {
    pub sender: [u8; 32],
    pub liquidatee: [u8; 32],
    pub mode: u8,
    pub healthGroup: u32,
    pub amount: i128,
    nonce: u64,
}

impl View for LiquidateSubaccount {
    type V = endpoint::LiquidateSubaccount;

    /// A liquidation is described by the fields of its endpoint binding.
    closed spec fn view(&self) -> endpoint::LiquidateSubaccount {
        endpoint::LiquidateSubaccount {
            sender: self.sender,
            liquidatee: self.liquidatee,
            mode: self.mode,
            health_group: self.healthGroup,
            amount: self.amount,
            nonce: self.nonce,
        }
    }
}

impl LiquidateSubaccount {
    /// A liquidation from its fields, with a nonce packed already.
    pub fn new(
        sender: [u8; 32],
        liquidatee: [u8; 32],
        mode: u8,
        healthGroup: u32,
        amount: i128,
        nonce: u64,
    ) -> (r: LiquidateSubaccount)
        ensures
            r@ == (endpoint::LiquidateSubaccount {
                sender,
                liquidatee,
                mode,
                health_group: healthGroup,
                amount,
                nonce,
            }),
    {
        LiquidateSubaccount { sender, liquidatee, mode, healthGroup, amount, nonce }
    }

    /// The packed nonce, for transport.
    pub fn raw_nonce(&self) -> (r: u64)
        ensures
            r == self@.nonce,
    {
        self.nonce
    }

    /// The endpoint binding of this liquidation.
    pub fn to_binding(&self) -> (r: endpoint::LiquidateSubaccount)
        ensures
            r == self@,
    {
        endpoint::LiquidateSubaccount {
            sender: self.sender,
            liquidatee: self.liquidatee,
            mode: self.mode,
            health_group: self.healthGroup,
            amount: self.amount,
            nonce: self.nonce,
        }
    }
}

/// A withdrawal of collateral. The packed nonce is reached through
/// accessors.
#[derive(Debug, Clone, Copy, PartialEq, Eq)]
pub struct WithdrawCollateral {
    pub sender: [u8; 32],
    pub productId: u32,
    pub amount: u128,
    nonce: u64,
}

impl View for WithdrawCollateral {
    type V = endpoint::WithdrawCollateral;

    /// A withdrawal is described by the fields of its endpoint binding.
    closed spec fn view(&self) -> endpoint::WithdrawCollateral {
        endpoint::WithdrawCollateral {
            sender: self.sender,
            product_id: self.productId,
            amount: self.amount,
            nonce: self.nonce,
        }
    }
}

impl WithdrawCollateral {
    /// A withdrawal from its fields, with a nonce packed already.
    pub fn new(sender: [u8; 32], productId: u32, amount: u128, nonce: u64) -> (r: WithdrawCollateral)
        ensures
            r@ == (endpoint::WithdrawCollateral { sender, product_id: productId, amount, nonce }),
    {
        WithdrawCollateral { sender, productId, amount, nonce }
    }

    /// The packed nonce, for transport.
    pub fn raw_nonce(&self) -> (r: u64)
        ensures
            r == self@.nonce,
    {
        self.nonce
    }

    /// The endpoint binding of this withdrawal.
    pub fn to_binding(&self) -> (r: endpoint::WithdrawCollateral)
        ensures
            r == self@,
    {
        endpoint::WithdrawCollateral {
            sender: self.sender,
            product_id: self.productId,
            amount: self.amount,
            nonce: self.nonce,
        }
    }
}

/// A mint of liquidity-provider tokens, with bounds on the quote amount.
/// The packed nonce is reached through accessors.
#[derive(Debug, Clone, Copy, PartialEq, Eq)]
pub struct MintLp {
    pub sender: [u8; 32],
    pub productId: u32,
    pub amountBase: u128,
    pub quoteAmountLow: u128,
    pub quoteAmountHigh: u128,
    nonce: u64,
}

impl View for MintLp {
    type V = endpoint::MintLp;

    /// A mint is described by the fields of its endpoint binding.
    closed spec fn view(&self) -> endpoint::MintLp {
        endpoint::MintLp {
            sender: self.sender,
            product_id: self.productId,
            amount_base: self.amountBase,
            quote_amount_low: self.quoteAmountLow,
            quote_amount_high: self.quoteAmountHigh,
            nonce: self.nonce,
        }
    }
}

impl MintLp {
    /// A mint from its fields, with a nonce packed already.
    pub fn new(
        sender: [u8; 32],
        productId: u32,
        amountBase: u128,
        quoteAmountLow: u128,
        quoteAmountHigh: u128,
        nonce: u64,
    ) -> (r: MintLp)
        ensures
            r@ == (endpoint::MintLp {
                sender,
                product_id: productId,
                amount_base: amountBase,
                quote_amount_low: quoteAmountLow,
                quote_amount_high: quoteAmountHigh,
                nonce,
            }),
    {
        MintLp { sender, productId, amountBase, quoteAmountLow, quoteAmountHigh, nonce }
    }

    /// The packed nonce, for transport.
    pub fn raw_nonce(&self) -> (r: u64)
        ensures
            r == self@.nonce,
    {
        self.nonce
    }

    /// The endpoint binding of this mint.
    pub fn to_binding(&self) -> (r: endpoint::MintLp)
        ensures
            r == self@,
    {
        endpoint::MintLp {
            sender: self.sender,
            product_id: self.productId,
            amount_base: self.amountBase,
            quote_amount_low: self.quoteAmountLow,
            quote_amount_high: self.quoteAmountHigh,
            nonce: self.nonce,
        }
    }
}

/// A burn of liquidity-provider tokens. The packed nonce is reached through
/// accessors.
#[derive(Debug, Clone, Copy, PartialEq, Eq)]
pub struct BurnLp {
    pub sender: [u8; 32],
    pub productId: u32,
    pub amount: u128,
    nonce: u64,
}

impl View for BurnLp {
    type V = endpoint::BurnLp;

    /// A burn is described by the fields of its endpoint binding.
    closed spec fn view(&self) -> endpoint::BurnLp {
        endpoint::BurnLp {
            sender: self.sender,
            product_id: self.productId,
            amount: self.amount,
            nonce: self.nonce,
        }
    }
}

impl BurnLp {
    /// A burn from its fields, with a nonce packed already.
    pub fn new(sender: [u8; 32], productId: u32, amount: u128, nonce: u64) -> (r: BurnLp)
        ensures
            r@ == (endpoint::BurnLp { sender, product_id: productId, amount, nonce }),
    {
        BurnLp { sender, productId, amount, nonce }
    }

    /// The packed nonce, for transport.
    pub fn raw_nonce(&self) -> (r: u64)
        ensures
            r == self@.nonce,
    {
        self.nonce
    }

    /// The endpoint binding of this burn.
    pub fn to_binding(&self) -> (r: endpoint::BurnLp)
        ensures
            r == self@,
    {
        endpoint::BurnLp {
            sender: self.sender,
            product_id: self.productId,
            amount: self.amount,
            nonce: self.nonce,
        }
    }
}

/// A request to list an account's trigger orders.
#[derive(Debug, Clone, Copy, PartialEq, Eq, Default)]
pub struct ListTriggerOrders {
    pub sender: [u8; 32],
    pub recvTime: u64,
}

/// A trigger-order listing request with its signature.
#[derive(Debug, Clone, PartialEq, Eq, Default)]
pub struct SignedListTriggerOrders {
    pub tx: ListTriggerOrders,
    pub signature: Vec<u8>,
}

/// A request to authenticate a stream.
#[derive(Debug, Clone, Copy, PartialEq, Eq, Default)]
pub struct StreamAuthentication {
    pub sender: [u8; 32],
    pub expiration: u64,
}

} // verus!
