//! Reactions to authenticated inbound messages from peer markets.
use vstd::prelude::*;
use crate::bytes::{from_be32, from_be64};
use crate::engine::{
    created_event, created_event_of, is_monochain, outbound_is, plan_release_remaining,
    release_ld, release_remaining_error, remaining_ld, same_setup,
};
use crate::errors::OtcError;
use crate::escrow::{balance_in, credited};
use crate::events::{OfferAccepted, OfferCanceled, OfferCreated};
use crate::market::{copy_bytes, mint_token, mint_token_address, Market};
use crate::msg_codec::{
    build_cancel_offer_payload, canceled_bytes, decodes_to, parse_error, parse_message, Payload,
};
use crate::offer::{identity_bytes, keccak256, offer_id_of, Offer};
use crate::otc::OtcConfig;
use crate::store::{escrowed_by, lemma_escrowed_by_decrement, with_amount};
use crate::types::{Clear, LzReceiveParams, Outbound, Release, TokenMint};

verus! {

// ---------------------------------------------------------------- handlers

/// Why storing the mirror of an announced offer fails, if it does.
pub open spec fn inbound_created_error(market: Market, offer_id: Seq<u8>, offer: Offer) -> Option<
    OtcError,
> {
    if offer_id != offer_id_of(offer) {
        Some(OtcError::InvalidOfferId)
    } else if market.offers@.contains_key(offer_id) {
        Some(OtcError::OfferAlreadyExists)
    } else {
        None
    }
}

/// Stores the mirror of an offer created on its source chain, under the id
/// the message carries, which must be the hash of the offer's fields.
pub fn receive_offer_created(market: &mut Market, offer_id: &[u8; 32], offer: &Offer) -> (r: Result<
    OfferCreated,
    OtcError,
>)
    requires
        old(market).wf(),
    ensures
        final(market).wf(),
        inbound_created_error(*old(market), offer_id@, *offer) matches Some(e) ==> r == Err::<
            OfferCreated,
            OtcError,
        >(e) && *final(market) == *old(market),
        inbound_created_error(*old(market), offer_id@, *offer) is None ==> (r matches Ok(ev) && {
            &&& ev == created_event(*offer_id, *offer)
            &&& final(market).offers@ == old(market).offers@.insert(
                offer_id@,
                final(market).offers@[offer_id@],
            )
            &&& final(market).offers@[offer_id@].offer == *offer
            &&& final(market).offers@[offer_id@].initial_src_amount_sd == offer.src_amount_sd
            &&& final(market).offers@[offer_id@].src_conversion_rate == 0
            &&& final(market).escrow == old(market).escrow
            &&& same_setup(*final(market), *old(market))
        }),
{
    let id = offer.id();
    if !crate::bytes::bytes32_eq(&id, offer_id) {
        return Err(OtcError::InvalidOfferId);
    }
    if market.offers.contains(&id) {
        return Err(OtcError::OfferAlreadyExists);
    }
    match market.offers.insert(*offer, 0) {
        Ok(stored_id) => {
            proof {
                assert forall|t: Seq<u8>|
                    #[trigger] market.offers.escrowed(market.config.eid, t) == balance_in(
                        market.escrow@,
                        t,
                    ) by {
                    let r = market.offers@[stored_id@];
                    assert(r.src_conversion_rate == 0);
                    assert(r.offer.src_amount_sd * r.src_conversion_rate == 0) by (nonlinear_arith)
                        requires
                            r.src_conversion_rate == 0,
                    ;
                    assert(escrowed_by(r, market.config.eid, t) == 0);
                }
            }
        },
        Err(e) => return Err(e),
    }
    Ok(created_event_of(offer_id, offer))
}

/// Why an inbound accept fails, if it does.
pub open spec fn inbound_accept_error(
    market: Market,
    offer_id: Seq<u8>,
    src_amount_sd: u64,
    src_buyer_address: Seq<u8>,
    src_actor: Option<[u8; 32]>,
    src_token_mint: Option<TokenMint>,
) -> Option<OtcError> {
    let o = market.offers@[offer_id].offer;
    if !market.offers@.contains_key(offer_id) {
        Some(OtcError::OfferNotFound)
    } else if o.src_eid != market.config.eid {
        Some(OtcError::InvalidEid)
    } else if is_monochain(o) {
        Some(OtcError::NotCrosschainOffer)
    } else if !(src_actor matches Some(a) && a@ == src_buyer_address) {
        Some(OtcError::InvalidSrcBuyer)
    } else if mint_token(src_token_mint) != o.src_token_address@ {
        Some(OtcError::InvalidSrcTokenMint)
    } else if src_amount_sd > o.src_amount_sd {
        Some(OtcError::ExcessiveAmount)
    } else if release_ld(src_amount_sd, market.offers@[offer_id]) > balance_in(
        market.escrow@,
        o.src_token_address@,
    ) {
        Some(OtcError::ExcessiveAmount)
    } else {
        None
    }
}

/// On the source chain, applies an accept made on the destination chain:
/// lowers the remaining amount and releases the source tokens to the buyer.
pub fn receive_offer_accepted(
    market: &mut Market,
    offer_id: &[u8; 32],
    src_amount_sd: u64,
    src_buyer_address: &[u8; 32],
    dst_buyer_address: &[u8; 32],
    src_actor: Option<[u8; 32]>,
    src_token_mint: Option<TokenMint>,
) -> (r: Result<(OfferAccepted, Release), OtcError>)
    requires
        old(market).wf(),
    ensures
        final(market).wf(),
        inbound_accept_error(
            *old(market),
            offer_id@,
            src_amount_sd,
            src_buyer_address@,
            src_actor,
            src_token_mint,
        ) matches Some(e) ==> r == Err::<(OfferAccepted, Release), OtcError>(e) && *final(market)
            == *old(market),
        inbound_accept_error(
            *old(market),
            offer_id@,
            src_amount_sd,
            src_buyer_address@,
            src_actor,
            src_token_mint,
        ) is None ==> (r matches Ok((ev, rel)) && {
            let rec = old(market).offers@[offer_id@];
            &&& ev == (OfferAccepted {
                offer_id: *offer_id,
                src_amount_sd,
                src_buyer_address: *src_buyer_address,
                dst_buyer_address: *dst_buyer_address,
            })
            &&& rel.to == *src_buyer_address
            &&& rel.token == rec.offer.src_token_address
            &&& rel.amount_ld == release_ld(src_amount_sd, rec)
            &&& final(market).offers@ == old(market).offers@.insert(
                offer_id@,
                with_amount(rec, (rec.offer.src_amount_sd - src_amount_sd) as u64),
            )
            &&& final(market).escrow@ == credited(
                old(market).escrow@,
                rec.offer.src_token_address@,
                -release_ld(src_amount_sd, rec),
            )
            &&& same_setup(*final(market), *old(market))
        }),
{
    let rec = match market.offers.get(offer_id) {
        Some(rec) => rec,
        None => return Err(OtcError::OfferNotFound),
    };
    let o = rec.offer;
    if o.src_eid != market.config.eid {
        return Err(OtcError::InvalidEid);
    }
    if o.src_eid == o.dst_eid {
        return Err(OtcError::NotCrosschainOffer);
    }
    match src_actor {
        Some(a) => {
            if !crate::bytes::bytes32_eq(&a, src_buyer_address) {
                return Err(OtcError::InvalidSrcBuyer);
            }
        },
        None => return Err(OtcError::InvalidSrcBuyer),
    }
    if !crate::bytes::bytes32_eq(&mint_token_address(src_token_mint), &o.src_token_address) {
        return Err(OtcError::InvalidSrcTokenMint);
    }
    if src_amount_sd > o.src_amount_sd {
        return Err(OtcError::ExcessiveAmount);
    }
    let amount_ld = match OtcConfig::sd2ld(src_amount_sd, rec.src_conversion_rate) {
        Ok(v) => v,
        Err(_) => return Err(OtcError::ExcessiveAmount),
    };
    if amount_ld > market.escrow.balance(&o.src_token_address) {
        return Err(OtcError::ExcessiveAmount);
    }
    match market.offers.decrement_amount(offer_id, src_amount_sd) {
        Ok(()) => {},
        Err(e) => return Err(e),
    }
    match market.escrow.release(&o.src_token_address, amount_ld) {
        Ok(()) => {},
        Err(e) => return Err(e),
    }
    proof {
        assert forall|t: Seq<u8>|
            #[trigger] market.offers.escrowed(market.config.eid, t) == balance_in(market.escrow@, t) by {
            lemma_escrowed_by_decrement(rec, src_amount_sd, market.config.eid, t);
        }
    }
    let ev = OfferAccepted {
        offer_id: *offer_id,
        src_amount_sd,
        src_buyer_address: *src_buyer_address,
        dst_buyer_address: *dst_buyer_address,
    };
    Ok((ev, Release { to: *src_buyer_address, token: o.src_token_address, amount_ld }))
}

/// Why answering a cancel order fails, if it does.
pub open spec fn inbound_cancel_order_error(market: Market, offer_id: Seq<u8>) -> Option<
    OtcError,
> {
    let o = market.offers@[offer_id].offer;
    if !market.offers@.contains_key(offer_id) {
        Some(OtcError::OfferNotFound)
    } else if o.dst_eid != market.config.eid {
        Some(OtcError::InvalidEid)
    } else if is_monochain(o) {
        Some(OtcError::NotCrosschainOffer)
    } else if !market.peers@.contains_key(o.src_eid) {
        Some(OtcError::PeerNotFound)
    } else {
        None
    }
}

/// On the destination chain, answers a seller's cancel order with an
/// OfferCanceled message back to the source chain. Changes nothing here.
pub fn receive_offer_cancel_order(market: &Market, offer_id: &[u8; 32]) -> (r: Result<
    Outbound,
    OtcError,
>)
    requires
        market.wf(),
    ensures
        inbound_cancel_order_error(*market, offer_id@) matches Some(e) ==> r == Err::<
            Outbound,
            OtcError,
        >(e),
        inbound_cancel_order_error(*market, offer_id@) is None ==> (r matches Ok(m) && {
            let o = market.offers@[offer_id@].offer;
            outbound_is(
                m,
                *market,
                o.src_eid,
                canceled_bytes(offer_id@, o.src_seller_address@, o.src_token_address@),
                Seq::empty(),
            )
        }),
{
    let rec = match market.offers.get(offer_id) {
        Some(rec) => rec,
        None => return Err(OtcError::OfferNotFound),
    };
    let o = rec.offer;
    if o.dst_eid != market.config.eid {
        return Err(OtcError::InvalidEid);
    }
    if o.src_eid == o.dst_eid {
        return Err(OtcError::NotCrosschainOffer);
    }
    let payload = build_cancel_offer_payload(offer_id, &o.src_seller_address, &o.src_token_address);
    market.outbound(o.src_eid, payload, Vec::new())
}

/// Why completing a cancel fails, if it does.
pub open spec fn inbound_canceled_error(
    market: Market,
    offer_id: Seq<u8>,
    src_token_mint: Option<TokenMint>,
) -> Option<OtcError> {
    if !market.offers@.contains_key(offer_id) {
        Some(OtcError::OfferNotFound)
    } else if market.offers@[offer_id].offer.src_eid != market.config.eid {
        Some(OtcError::InvalidEid)
    } else if is_monochain(market.offers@[offer_id].offer) {
        Some(OtcError::NotCrosschainOffer)
    } else {
        release_remaining_error(market, market.offers@[offer_id], src_token_mint)
    }
}

/// Completes a cancel: refunds what remains of the offer from the escrow to
/// the seller named in the message and removes the offer.
pub fn receive_offer_canceled(
    market: &mut Market,
    offer_id: &[u8; 32],
    src_seller_address: &[u8; 32],
    src_token_mint: Option<TokenMint>,
) -> (r: Result<(OfferCanceled, Release), OtcError>)
    requires
        old(market).wf(),
    ensures
        final(market).wf(),
        inbound_canceled_error(*old(market), offer_id@, src_token_mint) matches Some(e) ==> r
            == Err::<(OfferCanceled, Release), OtcError>(e) && *final(market) == *old(market),
        inbound_canceled_error(*old(market), offer_id@, src_token_mint) is None ==> (r matches Ok(
            (ev, rel),
        ) && {
            let rec = old(market).offers@[offer_id@];
            &&& ev == (OfferCanceled { offer_id: *offer_id })
            &&& rel.to == *src_seller_address
            &&& rel.token == rec.offer.src_token_address
            &&& rel.amount_ld == remaining_ld(rec)
            &&& final(market).offers@ == old(market).offers@.remove(offer_id@)
            &&& final(market).escrow@ == credited(
                old(market).escrow@,
                rec.offer.src_token_address@,
                -remaining_ld(rec),
            )
            &&& same_setup(*final(market), *old(market))
        }),
{
    let rec = match market.offers.get(offer_id) {
        Some(rec) => rec,
        None => return Err(OtcError::OfferNotFound),
    };
    if rec.offer.src_eid != market.config.eid {
        return Err(OtcError::InvalidEid);
    }
    if rec.offer.src_eid == rec.offer.dst_eid {
        return Err(OtcError::NotCrosschainOffer);
    }
    let rel = match plan_release_remaining(market, &rec, src_seller_address, src_token_mint) {
        Ok(rel) => rel,
        Err(e) => return Err(e),
    };
    match market.escrow.release(&rel.token, rel.amount_ld) {
        Ok(()) => {},
        Err(e) => return Err(e),
    }
    match market.offers.remove(offer_id) {
        Ok(_) => {},
        Err(e) => return Err(e),
    }
    Ok((OfferCanceled { offer_id: *offer_id }, rel))
}

// ---------------------------------------------------------------- dispatch

/// The id of the offer carried by an OfferCreated message, as this chain derives it.
pub open spec fn created_id_in(m: Seq<u8>) -> Seq<u8> {
    keccak256(
        identity_bytes(
            m.subrange(33, 65),
            from_be32(m.subrange(97, 101)),
            from_be32(m.subrange(101, 105)),
            m.subrange(105, 137),
            m.subrange(137, 169),
            from_be64(m.subrange(177, 185)),
        ),
    )
}

/// Why an inbound message is rejected, if it is.
pub open spec fn receive_error(
    market: Market,
    params: LzReceiveParams,
    src_actor: Option<[u8; 32]>,
    src_token_mint: Option<TokenMint>,
) -> Option<OtcError> {
    let m = params.message@;
    if !market.peers@.contains_key(params.src_eid) || market.peers@[params.src_eid]@
        != params.sender@ {
        Some(OtcError::InvalidSender)
    } else if parse_error(m) is Some {
        parse_error(m)
    } else if m[0] == 0 {
        if m.subrange(1, 33) != created_id_in(m) {
            Some(OtcError::InvalidOfferId)
        } else if market.offers@.contains_key(created_id_in(m)) {
            Some(OtcError::OfferAlreadyExists)
        } else {
            None
        }
    } else if m[0] == 1 {
        inbound_accept_error(
            market,
            m.subrange(1, 33),
            from_be64(m.subrange(33, 41)),
            m.subrange(41, 73),
            src_actor,
            src_token_mint,
        )
    } else if m[0] == 2 {
        inbound_cancel_order_error(market, m.subrange(1, 33))
    } else {
        inbound_canceled_error(market, m.subrange(1, 33), src_token_mint)
    }
}

pub struct ReceiveOutcome {
    /// The message as decoded.
    pub payload: Payload,
    pub created: Option<OfferCreated>,
    pub accepted: Option<OfferAccepted>,
    pub canceled: Option<OfferCanceled>,
    /// A release from the escrow, for OfferAccepted and OfferCanceled.
    pub release: Option<Release>,
    /// The OfferCanceled reply, for OfferCancelOrder.
    pub message: Option<Outbound>,
    /// The acknowledgement to hand the transport once the rest is done.
    pub clear: Clear,
}

/// What a successful inbound message does to the market and asks of the caller.
pub open spec fn receive_effect(
    pre: Market,
    post: Market,
    out: ReceiveOutcome,
    src_token_mint: Option<TokenMint>,
) -> bool {
    match out.payload {
        Payload::OfferCreated { offer_id, offer } => {
            let k = offer_id@;
            &&& k == offer_id_of(offer)
            &&& out.created == Some(created_event(offer_id, offer))
            &&& out.accepted is None && out.canceled is None
            &&& out.release is None && out.message is None
            &&& post.offers@ == pre.offers@.insert(k, post.offers@[k])
            &&& post.offers@[k].offer == offer
            &&& post.offers@[k].initial_src_amount_sd == offer.src_amount_sd
            &&& post.offers@[k].src_conversion_rate == 0
            &&& post.escrow == pre.escrow
            &&& same_setup(post, pre)
        },
        Payload::OfferAccepted {
            offer_id,
            src_amount_sd,
            src_buyer_address,
            dst_buyer_address,
            src_token_address,
        } => {
            let rec = pre.offers@[offer_id@];
            &&& out.accepted == Some(
                OfferAccepted { offer_id, src_amount_sd, src_buyer_address, dst_buyer_address },
            )
            &&& out.created is None && out.canceled is None && out.message is None
            &&& out.release matches Some(rel)
            &&& rel.to == src_buyer_address
            &&& rel.token == rec.offer.src_token_address
            &&& rel.amount_ld == release_ld(src_amount_sd, rec)
            &&& post.offers@ == pre.offers@.insert(
                offer_id@,
                with_amount(rec, (rec.offer.src_amount_sd - src_amount_sd) as u64),
            )
            &&& post.escrow@ == credited(
                pre.escrow@,
                rec.offer.src_token_address@,
                -release_ld(src_amount_sd, rec),
            )
            &&& same_setup(post, pre)
        },
        Payload::OfferCancelOrder { offer_id } => {
            let o = pre.offers@[offer_id@].offer;
            &&& out.created is None && out.accepted is None && out.canceled is None
            &&& out.release is None
            &&& post == pre
            &&& out.message matches Some(msg)
            &&& outbound_is(
                msg,
                pre,
                o.src_eid,
                canceled_bytes(offer_id@, o.src_seller_address@, o.src_token_address@),
                Seq::empty(),
            )
        },
        Payload::OfferCanceled { offer_id, src_seller_address, src_token_address } => {
            let rec = pre.offers@[offer_id@];
            let o = rec.offer;
            &&& out.canceled == Some(OfferCanceled { offer_id })
            &&& out.created is None && out.accepted is None && out.message is None
            &&& out.release matches Some(rel)
            &&& rel.to == src_seller_address
            &&& rel.token == o.src_token_address
            &&& rel.amount_ld == remaining_ld(rec)
            &&& post.offers@ == pre.offers@.remove(offer_id@)
            &&& post.escrow@ == credited(pre.escrow@, o.src_token_address@, -remaining_ld(rec))
            &&& same_setup(post, pre)
        },
    }
}

fn clear_of(params: &LzReceiveParams) -> (r: Clear)
    ensures
        r.src_eid == params.src_eid,
        r.sender == params.sender,
        r.nonce == params.nonce,
        r.guid == params.guid,
        r.message@ == params.message@,
{
    Clear {
        src_eid: params.src_eid,
        sender: params.sender,
        nonce: params.nonce,
        guid: params.guid,
        message: copy_bytes(&params.message),
    }
}

/// Handles one inbound message from the peer on `params.src_eid`: checks the
/// sender, decodes the message, applies it, and returns the clear that the
/// caller hands back to the transport. A rejected message changes nothing and
/// is not cleared.
pub struct LzReceive {}

impl LzReceive {
    pub fn apply(
        market: &mut Market,
        params: &LzReceiveParams,
        src_actor: Option<[u8; 32]>,
        src_token_mint: Option<TokenMint>,
    ) -> (r: Result<ReceiveOutcome, OtcError>)
        requires
            old(market).wf(),
        ensures
            final(market).wf(),
            receive_error(*old(market), *params, src_actor, src_token_mint) matches Some(e) ==> r
                == Err::<ReceiveOutcome, OtcError>(e) && *final(market) == *old(market),
            receive_error(*old(market), *params, src_actor, src_token_mint) is None ==> (r matches Ok(
                out,
            ) && {
                &&& decodes_to(params.message@, out.payload)
                &&& receive_effect(*old(market), *final(market), out, src_token_mint)
                &&& out.clear.src_eid == params.src_eid
                &&& out.clear.sender == params.sender
                &&& out.clear.nonce == params.nonce
                &&& out.clear.guid == params.guid
                &&& out.clear.message@ == params.message@
            }),
    {
        match market.peer_address(params.src_eid) {
            Some(peer) => {
                if !crate::bytes::bytes32_eq(&peer, &params.sender) {
                    return Err(OtcError::InvalidSender);
                }
            },
            None => return Err(OtcError::InvalidSender),
        }
        let payload = match parse_message(params.message.as_slice()) {
            Ok(p) => p,
            Err(e) => return Err(e),
        };
        let mut created: Option<OfferCreated> = None;
        let mut accepted: Option<OfferAccepted> = None;
        let mut canceled: Option<OfferCanceled> = None;
        let mut release: Option<Release> = None;
        let mut reply: Option<Outbound> = None;
        match payload {
            Payload::OfferCreated { offer_id, offer } => {
                match receive_offer_created(market, &offer_id, &offer) {
                    Ok(ev) => {
                        created = Some(ev);
                    },
                    Err(e) => return Err(e),
                }
            },
            Payload::OfferAccepted {
                offer_id,
                src_amount_sd,
                src_buyer_address,
                dst_buyer_address,
                src_token_address: _,
            } => {
                match receive_offer_accepted(
                    market,
                    &offer_id,
                    src_amount_sd,
                    &src_buyer_address,
                    &dst_buyer_address,
                    src_actor,
                    src_token_mint,
                ) {
                    Ok((ev, rel)) => {
                        accepted = Some(ev);
                        release = Some(rel);
                    },
                    Err(e) => return Err(e),
                }
            },
            Payload::OfferCancelOrder { offer_id } => {
                match receive_offer_cancel_order(market, &offer_id) {
                    Ok(msg) => {
                        reply = Some(msg);
                    },
                    Err(e) => return Err(e),
                }
            },
            Payload::OfferCanceled { offer_id, src_seller_address, src_token_address: _ } => {
                match receive_offer_canceled(market, &offer_id, &src_seller_address, src_token_mint) {
                    Ok((ev, rel)) => {
                        canceled = Some(ev);
                        release = Some(rel);
                    },
                    Err(e) => return Err(e),
                }
            },
        }
        Ok(
            ReceiveOutcome {
                payload,
                created,
                accepted,
                canceled,
                release,
                message: reply,
                clear: clear_of(params),
            },
        )
    }
}

} // verus!
