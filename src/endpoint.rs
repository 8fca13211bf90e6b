//! Shapes that the endpoint contract takes: each message as plain
//! fixed-width fields, and each signed message with its signature bytes.
use vstd::prelude::*;

verus! {

/// An order as the endpoint contract takes it.
#[derive(Debug, Clone, Copy, PartialEq, Eq)]
pub struct Order {
    pub sender: [u8; 32],
    pub price_x18: i128,
    pub amount: i128,
    pub expiration: u64,
    pub nonce: u64,
}

/// An order with its signature.
#[derive(Debug, Clone, PartialEq, Eq)]
pub struct SignedOrder {
    pub order: Order,
    pub signature: Vec<u8>,
}

/// A cancellation of orders by digest.
#[derive(Debug, Clone, PartialEq, Eq)]
pub struct Cancellation {
    pub sender: [u8; 32],
    pub product_ids: Vec<u32>,
    pub digests: Vec<[u8; 32]>,
    pub nonce: u64,
}

/// A cancellation with its signature.
#[derive(Debug, Clone, PartialEq, Eq)]
pub struct SignedCancellation {
    pub cancellation: Cancellation,
    pub signature: Vec<u8>,
}

/// A cancellation of every open order on some products.
#[derive(Debug, Clone, PartialEq, Eq)]
pub struct CancellationProducts {
    pub sender: [u8; 32],
    pub product_ids: Vec<u32>,
    pub nonce: u64,
}

/// A product cancellation with its signature.
#[derive(Debug, Clone, PartialEq, Eq)]
pub struct SignedCancellationProducts {
    pub cancellation_products: CancellationProducts,
    pub signature: Vec<u8>,
}

/// A link from an account to a delegated signer.
#[derive(Debug, Clone, Copy, PartialEq, Eq)]
pub struct LinkSigner {
    pub sender: [u8; 32],
    pub signer: [u8; 32],
    pub nonce: u64,
}

/// A signer link with its signature.
#[derive(Debug, Clone, PartialEq, Eq)]
pub struct SignedLinkSigner {
    pub tx: LinkSigner,
    pub signature: Vec<u8>,
}

/// A liquidation of another subaccount.
#[derive(Debug, Clone, Copy, PartialEq, Eq)]
pub struct LiquidateSubaccount {
    pub sender: [u8; 32],
    pub liquidatee: [u8; 32],
    pub mode: u8,
    pub health_group: u32,
    pub amount: i128,
    pub nonce: u64,
}

/// A withdrawal of collateral.
#[derive(Debug, Clone, Copy, PartialEq, Eq)]
pub struct WithdrawCollateral {
    pub sender: [u8; 32],
    pub product_id: u32,
    pub amount: u128,
    pub nonce: u64,
}

/// A mint of liquidity-provider tokens.
#[derive(Debug, Clone, Copy, PartialEq, Eq)]
pub struct MintLp {
    pub sender: [u8; 32],
    pub product_id: u32,
    pub amount_base: u128,
    pub quote_amount_low: u128,
    pub quote_amount_high: u128,
    pub nonce: u64,
}

/// A burn of liquidity-provider tokens.
#[derive(Debug, Clone, Copy, PartialEq, Eq)]
pub struct BurnLp {
    pub sender: [u8; 32],
    pub product_id: u32,
    pub amount: u128,
    pub nonce: u64,
}

} // verus!
