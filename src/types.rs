//! Plain values exchanged with the caller: instruction parameters, receipts
//! and the transport actions a market operation asks for.
use vstd::prelude::*;

verus! {

/// The fee the transport charges for one outbound message.
#[derive(Clone, Copy, Debug, Default, PartialEq, Eq, Structural)]
pub struct MessagingFee {
    pub native_fee: u64,
    pub lz_token_fee: u64,
}

/// A fungible token's mint: its address and its local decimals. An absent
/// mint denotes the chain's native token.
#[derive(Clone, Copy, Debug)]
pub struct TokenMint {
    pub address: [u8; 32],
    pub decimals: u8,
}

#[derive(Clone, Copy, Debug)]
pub struct CreateOfferParams {
    pub dst_seller_address: [u8; 32],
    pub dst_eid: u32,
    pub dst_token_address: [u8; 32],
    pub src_amount_ld: u64,
    pub exchange_rate_sd: u64,
}

#[derive(Clone, Copy, Debug)]
pub struct CreateOfferReceipt {
    pub offer_id: [u8; 32],
    pub src_amount_ld: u64,
}

#[derive(Clone, Copy, Debug)]
pub struct AcceptOfferParams {
    pub offer_id: [u8; 32],
    pub src_amount_sd: u64,
    pub src_buyer_address: [u8; 32],
}

#[derive(Clone, Copy, Debug)]
pub struct InitializeParams {
    pub endpoint_program: [u8; 32],
    pub treasury: [u8; 32],
    pub eid: u32,
}

#[derive(Clone, Copy, Debug)]
pub struct SetPeerParams {
    pub dst_eid: u32,
    pub peer: [u8; 32],
}

#[derive(Clone, Debug)]
pub struct SetEnforcedOptionsParams {
    pub dst_eid: u32,
    pub send: Vec<u8>,
    pub send_and_call: Vec<u8>,
}

/// Transport options that every outbound send to one remote endpoint carries.
#[derive(Clone, Debug)]
pub struct EnforcedOptions {
    pub send: Vec<u8>,
    pub send_and_call: Vec<u8>,
}

/// An inbound message as the transport delivers it.
#[derive(Clone, Debug)]
pub struct LzReceiveParams {
    pub src_eid: u32,
    pub sender: [u8; 32],
    pub nonce: u64,
    pub guid: [u8; 32],
    pub message: Vec<u8>,
}

/// A message for the transport to send.
#[derive(Clone, Debug)]
pub struct Outbound {
    pub dst_eid: u32,
    pub receiver: [u8; 32],
    pub message: Vec<u8>,
    /// The enforced options for the destination, to be prepended.
    pub options: Vec<u8>,
    /// Options the caller asked to add after the enforced ones.
    pub extra_options: Vec<u8>,
}

/// A release of custodied tokens from the escrow.
#[derive(Clone, Copy, Debug)]
pub struct Release {
    pub to: [u8; 32],
    pub token: [u8; 32],
    pub amount_ld: u64,
}

/// The transport's acknowledgement that an inbound message was consumed.
#[derive(Clone, Debug)]
pub struct Clear {
    pub src_eid: u32,
    pub sender: [u8; 32],
    pub nonce: u64,
    pub guid: [u8; 32],
    pub message: Vec<u8>,
}

} // verus!
