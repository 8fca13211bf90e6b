//! Message formats of an exchange's off-chain order and account-action
//! protocol: packed bit fields, 32-byte account identities, message records
//! and their conversions to the binding shapes of the contracts.
pub mod codec;
pub mod endpoint;
pub mod error;
pub mod identity;
pub mod messages;
pub mod offchain_book;
pub mod wire;
