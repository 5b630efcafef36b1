//! Error codes surfaced to callers of the market.
use vstd::prelude::*;

verus! {

#[derive(Clone, Copy, Debug, PartialEq, Eq, Structural)]
pub enum OtcError {
    Unauthorized,
    InvalidLocalDecimals,
    InvalidPricing,
    ExcessiveAmount,
    InvalidEid,
    InvalidSrcTokenMint,
    InvalidDstTokenMint,
    InvalidDstSeller,
    InvalidTreasury,
    OnlySeller,
    InvalidSender,
    InvalidMessageType,
    InvalidSrcBuyer,
    NotCrosschainOffer,
    /// An inbound payload is shorter than its message type requires.
    InvalidMessageLength,
    /// A duplicate insert into the offer store.
    OfferAlreadyExists,
    /// No offer is stored under the given id.
    OfferNotFound,
    /// No peer is registered for the remote endpoint.
    PeerNotFound,
    /// A cancel of an offer that has already been partly filled.
    OfferPartiallyFilled,
    /// An OfferCreated message whose offer id is not the hash of its fields.
    InvalidOfferId,
}

} // verus!
