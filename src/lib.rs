//! Wire-format codecs and trust checks for an Ethereum beacon-chain light client.
pub mod bits;
pub mod error;
pub mod primitives;
pub mod wire;
pub mod header;
pub mod sync;
pub mod execution;
pub mod consensus;
pub mod trusted;
pub mod account;
