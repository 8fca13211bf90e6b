//! Shapes that the off-chain order book contract takes.
use vstd::prelude::*;

verus! {

/// An order as the order book contract takes it.
#[derive(Debug, Clone, Copy, PartialEq, Eq)]
pub struct Order {
    pub sender: [u8; 32],
    pub price_x18: i128,
    pub amount: i128,
    pub expiration: u64,
    pub nonce: u64,
}

/// An order with its signature.
#[derive(Debug, Clone, PartialEq, Eq)]
pub struct SignedOrder {
    pub order: Order,
    pub signature: Vec<u8>,
}

} // verus!
