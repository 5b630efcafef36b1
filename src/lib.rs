//! An over-the-counter market that brokers token swaps between chains.
//!
//! A seller locks an amount of a source token in escrow; a buyer on the
//! offer's destination chain pays in the destination token at a fixed rate
//! and receives the locked tokens. When the two chains differ, the market
//! instances on each exchange four messages through a transport.
//!
//! - `otc`: configuration and the shared-decimals amount arithmetic
//! - `offer`: offer records and their Keccak-256 identity
//! - `msg_codec`: the wire format of the four messages
//! - `store`, `escrow`: offer records by id, and custody per token
//! - `market`: one chain's market state and its administration
//! - `engine`: create, accept and cancel, and their quotes
//! - `router`: reactions to inbound messages
use vstd::prelude::*;

pub mod bytes;
pub mod engine;
pub mod errors;
pub mod escrow;
pub mod events;
pub mod market;
pub mod msg_codec;
pub mod offer;
pub mod otc;
pub mod router;
pub mod store;
pub mod types;

verus! {

} // verus!
