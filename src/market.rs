//! The market's state on one chain and its administrative operations.
use vstd::prelude::*;
use std::collections::HashMap;
use crate::errors::OtcError;
use crate::escrow::{balance_in, Escrow};
use crate::otc::{conversion_rate_result, token_address, OtcConfig};
use crate::store::OfferStore;
use crate::types::{
    EnforcedOptions, InitializeParams, SetEnforcedOptionsParams, SetPeerParams, TokenMint,
};

verus! {

broadcast use vstd::std_specs::hash::group_hash_axioms;

/// The market on one chain: configuration, offers, custody, and the
/// registered counterparts on remote endpoints.
#[derive(Clone)]
pub struct Market {
    pub config: OtcConfig,
    pub offers: OfferStore,
    pub escrow: Escrow,
    /// Address of the counterpart market, by remote endpoint id.
    pub peers: HashMap<u32, [u8; 32]>,
    pub enforced_options: HashMap<u32, EnforcedOptions>,
}

impl Market {
    pub open spec fn wf(&self) -> bool {
        &&& self.offers.wf()
        &&& self.escrow.wf()
        &&& self.custody_balanced()
    }

    /// For every token, the escrow holds exactly the local amount still owed
    /// on the offers created on this chain in that token.
    pub open spec fn custody_balanced(&self) -> bool {
        forall|token: Seq<u8>|
            #[trigger] self.offers.escrowed(self.config.eid, token) == balance_in(
                self.escrow@,
                token,
            )
    }

    /// Address of the peer registered for `eid`.
    pub fn peer_address(&self, eid: u32) -> (r: Option<[u8; 32]>)
        ensures
            r matches Some(a) ==> self.peers@.contains_key(eid) && a == self.peers@[eid],
            r is None ==> !self.peers@.contains_key(eid),
    {
        match self.peers.get(&eid) {
            Some(a) => Some(*a),
            None => None,
        }
    }

    /// The enforced send options for `eid`; empty where none are set.
    pub fn send_options(&self, eid: u32) -> (r: Vec<u8>)
        ensures
            r@ == enforced_send(self.enforced_options@, eid),
    {
        match self.enforced_options.get(&eid) {
            Some(o) => copy_bytes(&o.send),
            None => Vec::new(),
        }
    }
}

/// The enforced send options registered for `eid`, or none.
pub open spec fn enforced_send(m: Map<u32, EnforcedOptions>, eid: u32) -> Seq<u8> {
    if m.contains_key(eid) {
        m[eid].send@
    } else {
        Seq::empty()
    }
}

pub fn copy_bytes(v: &Vec<u8>) -> (r: Vec<u8>)
    ensures
        r@ == v@,
{
    let mut r: Vec<u8> = Vec::new();
    let mut i: usize = 0;
    while i < v.len()
        invariant
            i <= v@.len(),
            r@ == v@.subrange(0, i as int),
        decreases v@.len() - i,
    {
        r.push(v[i]);
        i = i + 1;
        assert(r@ =~= v@.subrange(0, i as int));
    }
    assert(v@.subrange(0, v@.len() as int) =~= v@);
    r
}

pub open spec fn mint_decimals(mint: Option<TokenMint>) -> Option<u8> {
    match mint {
        Some(m) => Some(m.decimals),
        None => None,
    }
}

/// The token a mint stands for: its address, or all zeros for the native token.
pub open spec fn mint_token(mint: Option<TokenMint>) -> Seq<u8> {
    match mint {
        Some(m) => token_address(Some(m.address)),
        None => token_address(None),
    }
}

pub fn mint_token_address(mint: Option<TokenMint>) -> (r: [u8; 32])
    ensures
        r@ == mint_token(mint),
{
    match mint {
        Some(m) => OtcConfig::get_token_address(Some(m.address)),
        None => OtcConfig::get_token_address(None),
    }
}

pub fn mint_conversion_rate(mint: Option<TokenMint>) -> (r: Result<u64, OtcError>)
    ensures
        r == conversion_rate_result(mint_decimals(mint)),
        r matches Ok(rate) ==> rate >= 1,
{
    match mint {
        Some(m) => OtcConfig::get_decimal_conversion_rate(Some(m.decimals)),
        None => OtcConfig::get_decimal_conversion_rate(None),
    }
}

/// Sets up a market with no offers, no custody and no peers.
pub struct Initialize {}

impl Initialize {
    pub fn apply(payer: &[u8; 32], params: &InitializeParams) -> (r: Market)
        ensures
            r.wf(),
            r.config.admin == *payer,
            r.config.treasury == params.treasury,
            r.config.eid == params.eid,
            r.config.endpoint_program == params.endpoint_program,
            r.offers@ == Map::<Seq<u8>, crate::store::StoredOffer>::empty(),
            r.escrow@ == Map::<Seq<u8>, u64>::empty(),
            r.peers@ == Map::<u32, [u8; 32]>::empty(),
            r.enforced_options@ == Map::<u32, EnforcedOptions>::empty(),
    {
        Market {
            config: OtcConfig {
                endpoint_program: params.endpoint_program,
                eid: params.eid,
                admin: *payer,
                treasury: params.treasury,
            },
            offers: OfferStore::new(),
            escrow: Escrow::new(),
            peers: HashMap::new(),
            enforced_options: HashMap::new(),
        }
    }
}

/// Registers the counterpart market on a remote endpoint.
pub struct SetPeer {}

impl SetPeer {
    pub fn apply(market: &mut Market, admin: &[u8; 32], params: &SetPeerParams) -> (r: Result<
        (),
        OtcError,
    >)
        requires
            old(market).wf(),
        ensures
            final(market).wf(),
            old(market).config.admin@ != admin@ ==> r == Err::<(), OtcError>(
                OtcError::Unauthorized,
            ) && *final(market) == *old(market),
            old(market).config.admin@ == admin@ ==> r is Ok && final(market).peers@ == old(
                market,
            ).peers@.insert(params.dst_eid, params.peer) && final(market).config == old(
                market,
            ).config && final(market).offers == old(market).offers && final(market).escrow
                == old(market).escrow && final(market).enforced_options == old(
                market,
            ).enforced_options,
    {
        if !crate::bytes::bytes32_eq(&market.config.admin, admin) {
            return Err(OtcError::Unauthorized);
        }
        market.peers.insert(params.dst_eid, params.peer);
        Ok(())
    }
}

/// Sets the transport options enforced on sends to a remote endpoint.
pub struct SetEnforcedOptions {}

impl SetEnforcedOptions {
    pub fn apply(
        market: &mut Market,
        admin: &[u8; 32],
        params: &SetEnforcedOptionsParams,
    ) -> (r: Result<(), OtcError>)
        requires
            old(market).wf(),
        ensures
            final(market).wf(),
            old(market).config.admin@ != admin@ ==> r == Err::<(), OtcError>(
                OtcError::Unauthorized,
            ) && *final(market) == *old(market),
            old(market).config.admin@ == admin@ ==> {
                &&& r is Ok
                &&& final(market).enforced_options@.contains_key(params.dst_eid)
                &&& final(market).enforced_options@[params.dst_eid].send@ == params.send@
                &&& final(market).enforced_options@[params.dst_eid].send_and_call@
                    == params.send_and_call@
                &&& forall|e: u32|
                    e != params.dst_eid ==> enforced_send(final(market).enforced_options@, e)
                        == enforced_send(old(market).enforced_options@, e)
                &&& final(market).config == old(market).config
                &&& final(market).offers == old(market).offers
                &&& final(market).escrow == old(market).escrow
                &&& final(market).peers == old(market).peers
            },
    {
        if !crate::bytes::bytes32_eq(&market.config.admin, admin) {
            return Err(OtcError::Unauthorized);
        }
        let options = EnforcedOptions {
            send: copy_bytes(&params.send),
            send_and_call: copy_bytes(&params.send_and_call),
        };
        market.enforced_options.insert(params.dst_eid, options);
        Ok(())
    }
}

/// The escrow's balance of each token equals the sum, over the offers created
/// on this chain with that source token, of their remaining shared amount in
/// the token's local units. Every operation keeps this, so it holds in every
/// reachable state.
pub proof fn lemma_escrow_matches_offers(market: &Market, token: Seq<u8>)
    requires
        market.wf(),
    ensures
        balance_in(market.escrow@, token) == market.offers.escrowed(market.config.eid, token),
{
}

/// The escrow always holds at least what an offer created on this chain
/// still owes in its source token, so releasing it cannot run short.
pub proof fn lemma_offer_covered_by_escrow(market: &Market, offer_id: Seq<u8>)
    requires
        market.wf(),
        market.offers@.contains_key(offer_id),
        market.offers@[offer_id].offer.src_eid == market.config.eid,
    ensures
        market.offers@[offer_id].offer.src_amount_sd * market.offers@[offer_id].src_conversion_rate
            <= balance_in(market.escrow@, market.offers@[offer_id].offer.src_token_address@),
{
    let token = market.offers@[offer_id].offer.src_token_address@;
    market.offers.lemma_record_escrowed(offer_id, market.config.eid, token);
}

} // verus!
