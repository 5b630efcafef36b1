//! Offer records and their content-addressed identity.
use vstd::prelude::*;
use crate::bytes::{be32, be64, push_be32, push_be64, push_bytes32};
use crate::errors::OtcError;

verus! {

/// The Keccak-256 digest of a byte string.
pub uninterp spec fn keccak256(data: Seq<u8>) -> Seq<u8>;

/// Relies on `solana_keccak_hasher::hash`: the Keccak-256 digest of `data`.
#[verifier::external_body]
fn keccak(data: &Vec<u8>) -> (r: [u8; 32])
    ensures
        r@ == keccak256(data@),
{
    solana_keccak_hasher::hash(data.as_slice()).to_bytes()
}

/// An offer: immutable identity fields plus the remaining shared amount.
#[derive(Clone, Copy, Debug)]
pub struct Offer {
    pub src_seller_address: [u8; 32],
    pub dst_seller_address: [u8; 32],
    pub src_eid: u32,
    pub dst_eid: u32,
    pub src_token_address: [u8; 32],
    pub dst_token_address: [u8; 32],
    pub src_amount_sd: u64,
    pub exchange_rate_sd: u64,
}

/// The bytes hashed into an offer id: the seller, both endpoint ids, both
/// tokens and the exchange rate, integers big-endian, no length prefixes.
pub open spec fn identity_bytes(
    src_seller_address: Seq<u8>,
    src_eid: u32,
    dst_eid: u32,
    src_token_address: Seq<u8>,
    dst_token_address: Seq<u8>,
    exchange_rate_sd: u64,
) -> Seq<u8> {
    src_seller_address + be32(src_eid) + be32(dst_eid) + src_token_address + dst_token_address
        + be64(exchange_rate_sd)
}

pub open spec fn offer_id_of(offer: Offer) -> Seq<u8> {
    keccak256(
        identity_bytes(
            offer.src_seller_address@,
            offer.src_eid,
            offer.dst_eid,
            offer.src_token_address@,
            offer.dst_token_address@,
            offer.exchange_rate_sd,
        ),
    )
}

/// Two offers with the same identity fields.
pub open spec fn same_identity(a: Offer, b: Offer) -> bool {
    &&& a.src_seller_address@ == b.src_seller_address@
    &&& a.src_eid == b.src_eid
    &&& a.dst_eid == b.dst_eid
    &&& a.src_token_address@ == b.src_token_address@
    &&& a.dst_token_address@ == b.dst_token_address@
    &&& a.exchange_rate_sd == b.exchange_rate_sd
}

/// All fields of two offers agree.
pub open spec fn same_offer(a: Offer, b: Offer) -> bool {
    &&& same_identity(a, b)
    &&& a.dst_seller_address@ == b.dst_seller_address@
    &&& a.src_amount_sd == b.src_amount_sd
}

impl Offer {
    pub fn hash_offer(
        src_seller_address: &[u8; 32],
        src_eid: u32,
        dst_eid: u32,
        src_token_address: &[u8; 32],
        dst_token_address: &[u8; 32],
        exchange_rate_sd: u64,
    ) -> (r: [u8; 32])
        ensures
            r@ == keccak256(
                identity_bytes(
                    src_seller_address@,
                    src_eid,
                    dst_eid,
                    src_token_address@,
                    dst_token_address@,
                    exchange_rate_sd,
                ),
            ),
    {
        let mut data: Vec<u8> = Vec::new();
        push_bytes32(&mut data, src_seller_address);
        push_be32(&mut data, src_eid);
        push_be32(&mut data, dst_eid);
        push_bytes32(&mut data, src_token_address);
        push_bytes32(&mut data, dst_token_address);
        push_be64(&mut data, exchange_rate_sd);
        assert(data@ =~= identity_bytes(
            src_seller_address@,
            src_eid,
            dst_eid,
            src_token_address@,
            dst_token_address@,
            exchange_rate_sd,
        ));
        keccak(&data)
    }

    /// The id of this offer.
    pub fn id(&self) -> (r: [u8; 32])
        ensures
            r@ == offer_id_of(*self),
    {
        Self::hash_offer(
            &self.src_seller_address,
            self.src_eid,
            self.dst_eid,
            &self.src_token_address,
            &self.dst_token_address,
            self.exchange_rate_sd,
        )
    }

    /// Overwrites this record with `offer` and returns the offer's id.
    pub fn init(&mut self, offer: &Offer) -> (r: [u8; 32])
        ensures
            *final(self) == *offer,
            r@ == offer_id_of(*offer),
    {
        *self = *offer;
        offer.id()
    }
}

/// Computes an offer id from its identity fields.
pub struct HashOffer {}

impl HashOffer {
    pub fn apply(
        src_seller_address: &[u8; 32],
        src_eid: u32,
        dst_eid: u32,
        src_token_address: &[u8; 32],
        dst_token_address: &[u8; 32],
        exchange_rate_sd: u64,
    ) -> (r: Result<[u8; 32], OtcError>)
        ensures
            r matches Ok(id) && id@ == keccak256(
                identity_bytes(
                    src_seller_address@,
                    src_eid,
                    dst_eid,
                    src_token_address@,
                    dst_token_address@,
                    exchange_rate_sd,
                ),
            ),
    {
        Ok(
            Offer::hash_offer(
                src_seller_address,
                src_eid,
                dst_eid,
                src_token_address,
                dst_token_address,
                exchange_rate_sd,
            ),
        )
    }
}

/// The id depends on the identity fields alone: two offers that agree on them
/// have the same id, whatever their destination seller or remaining amount.
pub proof fn lemma_offer_id_identity(a: Offer, b: Offer)
    requires
        same_identity(a, b),
    ensures
        offer_id_of(a) == offer_id_of(b),
{
}

} // verus!
