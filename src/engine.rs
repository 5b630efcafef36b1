//! The three write entry points (create, accept, cancel) and the read-only
//! quotes that mirror them. Each checks everything before it changes any
//! state, so a failed operation leaves the market as it was.
use vstd::prelude::*;
use crate::errors::OtcError;
use crate::escrow::{balance_in, credited};
use crate::events::{OfferAccepted, OfferCanceled, OfferCreated};
use crate::market::{
    copy_bytes, enforced_send, mint_conversion_rate, mint_decimals, mint_token,
    mint_token_address, Market,
};
use crate::msg_codec::{
    accepted_bytes, build_accept_offer_payload, build_cancel_offer_order_payload,
    build_cancel_offer_payload, build_create_offer_payload, cancel_order_bytes, canceled_bytes,
    created_bytes,
};
use crate::offer::{identity_bytes, keccak256, offer_id_of, Offer};
use crate::otc::{
    conversion_rate, conversion_rate_result, remove_dust_spec, to_dst_amount_result,
    AcceptOfferReceipt, OtcConfig,
};
use crate::store::{lemma_escrowed_by_decrement, with_amount, StoredOffer};
use crate::types::{
    AcceptOfferParams, CreateOfferParams, CreateOfferReceipt, Outbound, Release, TokenMint,
};

verus! {

/// `o` is the message the transport is asked to send to the peer on `eid`.
pub open spec fn outbound_is(
    o: Outbound,
    market: Market,
    eid: u32,
    message: Seq<u8>,
    extra_options: Seq<u8>,
) -> bool {
    &&& market.peers@.contains_key(eid)
    &&& o.dst_eid == eid
    &&& o.receiver == market.peers@[eid]
    &&& o.message@ == message
    &&& o.options@ == enforced_send(market.enforced_options@, eid)
    &&& o.extra_options@ == extra_options
}

impl Market {
    /// A message to the peer on `eid`, with the options enforced for it.
    pub fn outbound(&self, eid: u32, message: Vec<u8>, extra_options: Vec<u8>) -> (r: Result<
        Outbound,
        OtcError,
    >)
        ensures
            !self.peers@.contains_key(eid) ==> r == Err::<Outbound, OtcError>(
                OtcError::PeerNotFound,
            ),
            self.peers@.contains_key(eid) ==> (r matches Ok(o) && outbound_is(
                o,
                *self,
                eid,
                message@,
                extra_options@,
            )),
    {
        match self.peer_address(eid) {
            Some(receiver) => Ok(
                Outbound {
                    dst_eid: eid,
                    receiver,
                    message,
                    options: self.send_options(eid),
                    extra_options,
                },
            ),
            None => Err(OtcError::PeerNotFound),
        }
    }
}

/// Everything but the offers and the custody is left as it was.
pub open spec fn same_setup(a: Market, b: Market) -> bool {
    &&& a.config == b.config
    &&& a.peers == b.peers
    &&& a.enforced_options == b.enforced_options
}

// ---------------------------------------------------------------- create

/// Shared amount and rounded local amount that a create locks, at rate `rate`.
pub open spec fn create_amounts(params: CreateOfferParams, rate: int) -> (int, int) {
    remove_dust_spec(params.src_amount_ld as int, rate)
}

/// The offer a seller creates on the chain with endpoint id `eid`.
pub open spec fn is_new_offer(
    o: Offer,
    seller: [u8; 32],
    eid: u32,
    params: CreateOfferParams,
    mint: Option<TokenMint>,
) -> bool {
    &&& o.src_seller_address == seller
    &&& o.dst_seller_address == params.dst_seller_address
    &&& o.src_eid == eid
    &&& o.dst_eid == params.dst_eid
    &&& o.src_token_address@ == mint_token(mint)
    &&& o.dst_token_address == params.dst_token_address
    &&& o.src_amount_sd == create_amounts(
        params,
        conversion_rate(mint_decimals(mint)) as int,
    ).0
    &&& o.exchange_rate_sd == params.exchange_rate_sd
}

/// The id of the offer a seller creates.
pub open spec fn create_id(
    seller: [u8; 32],
    eid: u32,
    params: CreateOfferParams,
    mint: Option<TokenMint>,
) -> Seq<u8> {
    keccak256(
        identity_bytes(
            seller@,
            eid,
            params.dst_eid,
            mint_token(mint),
            params.dst_token_address@,
            params.exchange_rate_sd,
        ),
    )
}

/// Why a quote for a create fails, if it does.
pub open spec fn quote_create_error(
    market: Market,
    params: CreateOfferParams,
    mint: Option<TokenMint>,
) -> Option<OtcError> {
    match conversion_rate_result(mint_decimals(mint)) {
        Err(e) => Some(e),
        Ok(rate) => {
            if create_amounts(params, rate as int).0 == 0 || params.exchange_rate_sd == 0 {
                Some(OtcError::InvalidPricing)
            } else if params.dst_eid != market.config.eid && !market.peers@.contains_key(
                params.dst_eid,
            ) {
                Some(OtcError::PeerNotFound)
            } else {
                None
            }
        },
    }
}

/// Why a create fails, if it does.
pub open spec fn create_error(
    market: Market,
    seller: [u8; 32],
    params: CreateOfferParams,
    mint: Option<TokenMint>,
) -> Option<OtcError> {
    match quote_create_error(market, params, mint) {
        Some(e) => Some(e),
        None => {
            if market.offers@.contains_key(create_id(seller, market.config.eid, params, mint)) {
                Some(OtcError::OfferAlreadyExists)
            } else if balance_in(market.escrow@, mint_token(mint)) + create_amounts(
                params,
                conversion_rate(mint_decimals(mint)) as int,
            ).1 > u64::MAX {
                Some(OtcError::ExcessiveAmount)
            } else {
                None
            }
        },
    }
}

pub open spec fn created_event(offer_id: [u8; 32], o: Offer) -> OfferCreated {
    OfferCreated {
        offer_id,
        src_seller_address: o.src_seller_address,
        dst_seller_address: o.dst_seller_address,
        src_eid: o.src_eid,
        dst_eid: o.dst_eid,
        src_token_address: o.src_token_address,
        dst_token_address: o.dst_token_address,
        src_amount_sd: o.src_amount_sd,
        exchange_rate_sd: o.exchange_rate_sd,
    }
}

pub fn created_event_of(offer_id: &[u8; 32], o: &Offer) -> (r: OfferCreated)
    ensures
        r == created_event(*offer_id, *o),
{
    OfferCreated {
        offer_id: *offer_id,
        src_seller_address: o.src_seller_address,
        dst_seller_address: o.dst_seller_address,
        src_eid: o.src_eid,
        dst_eid: o.dst_eid,
        src_token_address: o.src_token_address,
        dst_token_address: o.dst_token_address,
        src_amount_sd: o.src_amount_sd,
        exchange_rate_sd: o.exchange_rate_sd,
    }
}

pub struct CreateOfferOutcome {
    pub receipt: CreateOfferReceipt,
    pub offer: Offer,
    pub event: OfferCreated,
    /// The OfferCreated message for the destination chain, for a crosschain offer.
    pub message: Option<Outbound>,
}

/// Checks a create and builds its offer; returns the offer and the rounded
/// local amount to lock.
fn prepare_create(
    market: &Market,
    seller: &[u8; 32],
    params: &CreateOfferParams,
    mint: Option<TokenMint>,
) -> (r: Result<(Offer, u64, u64), OtcError>)
    ensures
        quote_create_error(*market, *params, mint) matches Some(e) ==> r == Err::<
            (Offer, u64, u64),
            OtcError,
        >(e),
        quote_create_error(*market, *params, mint) is None ==> (r matches Ok((o, ld, rate))
            && is_new_offer(o, *seller, market.config.eid, *params, mint) && ld == create_amounts(
            *params,
            conversion_rate(mint_decimals(mint)) as int,
        ).1 && rate == conversion_rate(mint_decimals(mint)) && ld == o.src_amount_sd * rate
            && offer_id_of(o) == create_id(*seller, market.config.eid, *params, mint)),
{
    let rate = match mint_conversion_rate(mint) {
        Ok(rate) => rate,
        Err(e) => return Err(e),
    };
    let (src_amount_sd, src_amount_ld) = OtcConfig::remove_dust(params.src_amount_ld, rate);
    if src_amount_sd == 0 || params.exchange_rate_sd == 0 {
        return Err(OtcError::InvalidPricing);
    }
    if params.dst_eid != market.config.eid && market.peer_address(params.dst_eid).is_none() {
        return Err(OtcError::PeerNotFound);
    }
    let offer = Offer {
        src_seller_address: *seller,
        dst_seller_address: params.dst_seller_address,
        src_eid: market.config.eid,
        dst_eid: params.dst_eid,
        src_token_address: mint_token_address(mint),
        dst_token_address: params.dst_token_address,
        src_amount_sd,
        exchange_rate_sd: params.exchange_rate_sd,
    };
    Ok((offer, src_amount_ld, rate))
}

/// Creates an offer: locks the rounded source amount in escrow, stores the
/// offer under its id and, for a crosschain offer, announces it to the peer.
pub struct CreateOffer {}

impl CreateOffer {
    pub fn apply(
        market: &mut Market,
        seller: &[u8; 32],
        params: &CreateOfferParams,
        src_token_mint: Option<TokenMint>,
    ) -> (r: Result<CreateOfferOutcome, OtcError>)
        requires
            old(market).wf(),
        ensures
            final(market).wf(),
            create_error(*old(market), *seller, *params, src_token_mint) matches Some(e) ==> r
                == Err::<CreateOfferOutcome, OtcError>(e) && *final(market) == *old(market),
            create_error(*old(market), *seller, *params, src_token_mint) is None ==> (r matches Ok(
                out,
            ) && {
                let amounts = create_amounts(
                    *params,
                    conversion_rate(mint_decimals(src_token_mint)) as int,
                );
                &&& is_new_offer(out.offer, *seller, old(market).config.eid, *params, src_token_mint)
                &&& out.receipt.offer_id@ == offer_id_of(out.offer)
                &&& out.receipt.offer_id@ == create_id(
                    *seller,
                    old(market).config.eid,
                    *params,
                    src_token_mint,
                )
                &&& out.receipt.src_amount_ld == amounts.1
                &&& out.event == created_event(out.receipt.offer_id, out.offer)
                &&& final(market).offers@ == old(market).offers@.insert(
                    out.receipt.offer_id@,
                    StoredOffer {
                        offer_id: out.receipt.offer_id,
                        offer: out.offer,
                        initial_src_amount_sd: out.offer.src_amount_sd,
                        src_conversion_rate: conversion_rate(mint_decimals(src_token_mint)) as u64,
                    },
                )
                &&& final(market).escrow@ == credited(
                    old(market).escrow@,
                    mint_token(src_token_mint),
                    amounts.1,
                )
                &&& same_setup(*final(market), *old(market))
                &&& params.dst_eid == old(market).config.eid ==> out.message is None
                &&& params.dst_eid != old(market).config.eid ==> (out.message matches Some(m)
                    && outbound_is(
                    m,
                    *old(market),
                    params.dst_eid,
                    created_bytes(out.receipt.offer_id@, out.offer),
                    Seq::empty(),
                ))
            }),
    {
        let (offer, src_amount_ld, rate) = match prepare_create(
            market,
            seller,
            params,
            src_token_mint,
        ) {
            Ok(v) => v,
            Err(e) => return Err(e),
        };
        let offer_id = offer.id();
        if market.offers.contains(&offer_id) {
            return Err(OtcError::OfferAlreadyExists);
        }
        let message = if params.dst_eid != market.config.eid {
            match market.outbound(
                params.dst_eid,
                build_create_offer_payload(&offer_id, &offer),
                Vec::new(),
            ) {
                Ok(o) => Some(o),
                Err(e) => return Err(e),
            }
        } else {
            None
        };
        if market.escrow.balance(&offer.src_token_address).checked_add(src_amount_ld).is_none() {
            return Err(OtcError::ExcessiveAmount);
        }
        match market.escrow.deposit(&offer.src_token_address, src_amount_ld) {
            Ok(()) => {},
            Err(e) => return Err(e),
        }
        match market.offers.insert(offer, rate) {
            Ok(id) => {
                assert(id =~= offer_id);
            },
            Err(e) => return Err(e),
        }
        let event = created_event_of(&offer_id, &offer);
        Ok(
            CreateOfferOutcome {
                receipt: CreateOfferReceipt { offer_id, src_amount_ld },
                offer,
                event,
                message,
            },
        )
    }
}

/// What a create would lock and announce, without changing anything.
pub struct QuoteCreateOffer {}

impl QuoteCreateOffer {
    pub fn apply(
        market: &Market,
        src_seller_address: &[u8; 32],
        params: &CreateOfferParams,
        src_token_mint: Option<TokenMint>,
    ) -> (r: Result<(CreateOfferReceipt, Option<Outbound>), OtcError>)
        ensures
            quote_create_error(*market, *params, src_token_mint) matches Some(e) ==> r == Err::<
                (CreateOfferReceipt, Option<Outbound>),
                OtcError,
            >(e),
            quote_create_error(*market, *params, src_token_mint) is None ==> (r matches Ok(
                (receipt, message),
            ) && {
                &&& receipt.offer_id@ == create_id(
                    *src_seller_address,
                    market.config.eid,
                    *params,
                    src_token_mint,
                )
                &&& receipt.src_amount_ld == create_amounts(
                    *params,
                    conversion_rate(mint_decimals(src_token_mint)) as int,
                ).1
                &&& params.dst_eid == market.config.eid ==> message is None
                &&& params.dst_eid != market.config.eid ==> (message matches Some(m) && exists|
                    o: Offer,
                |
                    is_new_offer(o, *src_seller_address, market.config.eid, *params, src_token_mint)
                        && outbound_is(
                        m,
                        *market,
                        params.dst_eid,
                        created_bytes(receipt.offer_id@, o),
                        Seq::empty(),
                    ))
            }),
    {
        let (offer, src_amount_ld, _) = match prepare_create(
            market,
            src_seller_address,
            params,
            src_token_mint,
        ) {
            Ok(v) => v,
            Err(e) => return Err(e),
        };
        let offer_id = offer.id();
        let message = if params.dst_eid != market.config.eid {
            match market.outbound(
                params.dst_eid,
                build_create_offer_payload(&offer_id, &offer),
                Vec::new(),
            ) {
                Ok(o) => Some(o),
                Err(e) => return Err(e),
            }
        } else {
            None
        };
        Ok((CreateOfferReceipt { offer_id, src_amount_ld }, message))
    }
}

// ---------------------------------------------------------------- accept

/// The error of a result, if it holds one.
pub open spec fn err_of<T>(r: Result<T, OtcError>) -> Option<OtcError> {
    match r {
        Ok(_) => None,
        Err(e) => Some(e),
    }
}

/// The stored record of the offer an accept names.
pub open spec fn accepted_offer(market: Market, params: AcceptOfferParams) -> Offer {
    market.offers@[params.offer_id@].offer
}

pub open spec fn is_monochain(o: Offer) -> bool {
    o.src_eid == o.dst_eid
}

/// Why a quote for an accept fails, if it does.
pub open spec fn quote_accept_error(
    market: Market,
    params: AcceptOfferParams,
    dst_token_mint: Option<TokenMint>,
) -> Option<OtcError> {
    let o = accepted_offer(market, params);
    if !market.offers@.contains_key(params.offer_id@) {
        Some(OtcError::OfferNotFound)
    } else if o.dst_eid != market.config.eid {
        Some(OtcError::InvalidEid)
    } else if o.src_amount_sd == 0 || params.src_amount_sd > o.src_amount_sd {
        Some(OtcError::ExcessiveAmount)
    } else if mint_token(dst_token_mint) != o.dst_token_address@ {
        Some(OtcError::InvalidDstTokenMint)
    } else if err_of(
        to_dst_amount_result(params.src_amount_sd, o.exchange_rate_sd, mint_decimals(dst_token_mint)),
    ) is Some {
        err_of(
            to_dst_amount_result(
                params.src_amount_sd,
                o.exchange_rate_sd,
                mint_decimals(dst_token_mint),
            ),
        )
    } else if !is_monochain(o) && !market.peers@.contains_key(o.src_eid) {
        Some(OtcError::PeerNotFound)
    } else {
        None
    }
}

/// Local amount of the source token released for `amount_sd` of a record,
/// at the rate it was escrowed at.
pub open spec fn release_ld(amount_sd: u64, rec: StoredOffer) -> int {
    amount_sd * rec.src_conversion_rate
}

/// Why an accept fails, if it does.
pub open spec fn accept_error(
    market: Market,
    params: AcceptOfferParams,
    dst_seller: [u8; 32],
    treasury: [u8; 32],
    dst_token_mint: Option<TokenMint>,
    src_token_mint: Option<TokenMint>,
) -> Option<OtcError> {
    let o = accepted_offer(market, params);
    if !market.offers@.contains_key(params.offer_id@) {
        Some(OtcError::OfferNotFound)
    } else if o.dst_eid != market.config.eid {
        Some(OtcError::InvalidEid)
    } else if o.src_amount_sd == 0 || params.src_amount_sd > o.src_amount_sd {
        Some(OtcError::ExcessiveAmount)
    } else if is_monochain(o) && mint_token(src_token_mint) != o.src_token_address@ {
        Some(OtcError::InvalidSrcTokenMint)
    } else if mint_token(dst_token_mint) != o.dst_token_address@ {
        Some(OtcError::InvalidDstTokenMint)
    } else if treasury@ != market.config.treasury@ {
        Some(OtcError::InvalidTreasury)
    } else if dst_seller@ != o.dst_seller_address@ {
        Some(OtcError::InvalidDstSeller)
    } else if err_of(
        to_dst_amount_result(params.src_amount_sd, o.exchange_rate_sd, mint_decimals(dst_token_mint)),
    ) is Some {
        err_of(
            to_dst_amount_result(
                params.src_amount_sd,
                o.exchange_rate_sd,
                mint_decimals(dst_token_mint),
            ),
        )
    } else if is_monochain(o) {
        if release_ld(params.src_amount_sd, market.offers@[params.offer_id@]) > balance_in(
            market.escrow@,
            o.src_token_address@,
        ) {
            Some(OtcError::ExcessiveAmount)
        } else {
            None
        }
    } else if !market.peers@.contains_key(o.src_eid) {
        Some(OtcError::PeerNotFound)
    } else {
        None
    }
}

pub struct AcceptOfferOutcome {
    pub receipt: AcceptOfferReceipt,
    /// What the buyer pays the destination seller: the amount less the fee.
    pub to_seller_ld: u64,
    pub event: OfferAccepted,
    /// The escrow's release to the buyer, for a monochain offer.
    pub release: Option<Release>,
    /// The OfferAccepted message for the source chain, for a crosschain offer.
    pub message: Option<Outbound>,
}

pub fn mint_decimals_of(mint: Option<TokenMint>) -> (r: Option<u8>)
    ensures
        r == mint_decimals(mint),
{
    match mint {
        Some(m) => Some(m.decimals),
        None => None,
    }
}

/// Accepts part of an offer on its destination chain: the buyer pays the
/// destination seller and the treasury, the remaining amount goes down, and
/// the source tokens are released here (monochain) or on the source chain.
pub struct AcceptOffer {}

impl AcceptOffer {
    pub fn apply(
        market: &mut Market,
        buyer: &[u8; 32],
        params: &AcceptOfferParams,
        dst_seller: &[u8; 32],
        treasury: &[u8; 32],
        dst_token_mint: Option<TokenMint>,
        src_token_mint: Option<TokenMint>,
    ) -> (r: Result<AcceptOfferOutcome, OtcError>)
        requires
            old(market).wf(),
        ensures
            final(market).wf(),
            accept_error(
                *old(market),
                *params,
                *dst_seller,
                *treasury,
                dst_token_mint,
                src_token_mint,
            ) matches Some(e) ==> r == Err::<AcceptOfferOutcome, OtcError>(e) && *final(market)
                == *old(market),
            accept_error(
                *old(market),
                *params,
                *dst_seller,
                *treasury,
                dst_token_mint,
                src_token_mint,
            ) is None ==> (r matches Ok(out) && {
                let rec = old(market).offers@[params.offer_id@];
                let o = rec.offer;
                &&& to_dst_amount_result(
                    params.src_amount_sd,
                    o.exchange_rate_sd,
                    mint_decimals(dst_token_mint),
                ) == Ok::<AcceptOfferReceipt, OtcError>(out.receipt)
                &&& out.to_seller_ld == out.receipt.dst_amount_ld - out.receipt.fee_ld
                &&& out.event == (OfferAccepted {
                    offer_id: params.offer_id,
                    src_amount_sd: params.src_amount_sd,
                    src_buyer_address: params.src_buyer_address,
                    dst_buyer_address: *buyer,
                })
                &&& final(market).offers@ == old(market).offers@.insert(
                    params.offer_id@,
                    with_amount(rec, (o.src_amount_sd - params.src_amount_sd) as u64),
                )
                &&& same_setup(*final(market), *old(market))
                &&& is_monochain(o) ==> {
                    &&& out.message is None
                    &&& out.release matches Some(rel)
                    &&& rel.to == *buyer
                    &&& rel.token == o.src_token_address
                    &&& rel.amount_ld == release_ld(params.src_amount_sd, rec)
                    &&& final(market).escrow@ == credited(
                        old(market).escrow@,
                        o.src_token_address@,
                        -release_ld(params.src_amount_sd, rec),
                    )
                }
                &&& !is_monochain(o) ==> {
                    &&& out.release is None
                    &&& final(market).escrow@ == old(market).escrow@
                    &&& out.message matches Some(m)
                    &&& outbound_is(
                        m,
                        *old(market),
                        o.src_eid,
                        accepted_bytes(
                            params.offer_id@,
                            params.src_amount_sd,
                            params.src_buyer_address@,
                            buyer@,
                            o.src_token_address@,
                        ),
                        Seq::empty(),
                    )
                }
            }),
    {
        let rec = match market.offers.get(&params.offer_id) {
            Some(rec) => rec,
            None => return Err(OtcError::OfferNotFound),
        };
        let o = rec.offer;
        if o.dst_eid != market.config.eid {
            return Err(OtcError::InvalidEid);
        }
        if o.src_amount_sd == 0 || params.src_amount_sd > o.src_amount_sd {
            return Err(OtcError::ExcessiveAmount);
        }
        let monochain = o.src_eid == o.dst_eid;
        if monochain && !crate::bytes::bytes32_eq(
            &mint_token_address(src_token_mint),
            &o.src_token_address,
        ) {
            return Err(OtcError::InvalidSrcTokenMint);
        }
        if !crate::bytes::bytes32_eq(&mint_token_address(dst_token_mint), &o.dst_token_address) {
            return Err(OtcError::InvalidDstTokenMint);
        }
        if !crate::bytes::bytes32_eq(treasury, &market.config.treasury) {
            return Err(OtcError::InvalidTreasury);
        }
        if !crate::bytes::bytes32_eq(dst_seller, &o.dst_seller_address) {
            return Err(OtcError::InvalidDstSeller);
        }
        let receipt = match OtcConfig::to_dst_amount(
            params.src_amount_sd,
            o.exchange_rate_sd,
            mint_decimals_of(dst_token_mint),
        ) {
            Ok(receipt) => receipt,
            Err(e) => return Err(e),
        };
        let mut release: Option<Release> = None;
        let mut message: Option<Outbound> = None;
        if monochain {
            let amount_ld = match OtcConfig::sd2ld(params.src_amount_sd, rec.src_conversion_rate) {
                Ok(v) => v,
                Err(e) => return Err(e),
            };
            if amount_ld > market.escrow.balance(&o.src_token_address) {
                return Err(OtcError::ExcessiveAmount);
            }
            release = Some(Release { to: *buyer, token: o.src_token_address, amount_ld });
        } else {
            let payload = build_accept_offer_payload(
                &params.offer_id,
                params.src_amount_sd,
                &params.src_buyer_address,
                buyer,
                &o.src_token_address,
            );
            message = match market.outbound(o.src_eid, payload, Vec::new()) {
                Ok(m) => Some(m),
                Err(e) => return Err(e),
            };
        }
        match market.offers.decrement_amount(&params.offer_id, params.src_amount_sd) {
            Ok(()) => {},
            Err(e) => return Err(e),
        }
        if let Some(rel) = release {
            match market.escrow.release(&rel.token, rel.amount_ld) {
                Ok(()) => {},
                Err(e) => return Err(e),
            }
        }
        proof {
            assert forall|t: Seq<u8>|
                #[trigger] market.offers.escrowed(market.config.eid, t) == balance_in(
                    market.escrow@,
                    t,
                ) by {
                lemma_escrowed_by_decrement(rec, params.src_amount_sd, market.config.eid, t);
            }
        }
        let event = OfferAccepted {
            offer_id: params.offer_id,
            src_amount_sd: params.src_amount_sd,
            src_buyer_address: params.src_buyer_address,
            dst_buyer_address: *buyer,
        };
        Ok(
            AcceptOfferOutcome {
                receipt,
                to_seller_ld: receipt.dst_amount_ld - receipt.fee_ld,
                event,
                release,
                message,
            },
        )
    }
}

/// What an accept would cost and announce, without changing anything.
pub struct QuoteAcceptOffer {}

impl QuoteAcceptOffer {
    pub fn apply(
        market: &Market,
        dst_buyer_address: &[u8; 32],
        params: &AcceptOfferParams,
        dst_token_mint: Option<TokenMint>,
    ) -> (r: Result<(AcceptOfferReceipt, Option<Outbound>), OtcError>)
        requires
            market.wf(),
        ensures
            quote_accept_error(*market, *params, dst_token_mint) matches Some(e) ==> r == Err::<
                (AcceptOfferReceipt, Option<Outbound>),
                OtcError,
            >(e),
            quote_accept_error(*market, *params, dst_token_mint) is None ==> (r matches Ok(
                (receipt, message),
            ) && {
                let o = accepted_offer(*market, *params);
                &&& to_dst_amount_result(
                    params.src_amount_sd,
                    o.exchange_rate_sd,
                    mint_decimals(dst_token_mint),
                ) == Ok::<AcceptOfferReceipt, OtcError>(receipt)
                &&& is_monochain(o) ==> message is None
                &&& !is_monochain(o) ==> (message matches Some(m) && outbound_is(
                    m,
                    *market,
                    o.src_eid,
                    accepted_bytes(
                        params.offer_id@,
                        params.src_amount_sd,
                        params.src_buyer_address@,
                        dst_buyer_address@,
                        o.src_token_address@,
                    ),
                    Seq::empty(),
                ))
            }),
    {
        let rec = match market.offers.get(&params.offer_id) {
            Some(rec) => rec,
            None => return Err(OtcError::OfferNotFound),
        };
        let o = rec.offer;
        if o.dst_eid != market.config.eid {
            return Err(OtcError::InvalidEid);
        }
        if o.src_amount_sd == 0 || params.src_amount_sd > o.src_amount_sd {
            return Err(OtcError::ExcessiveAmount);
        }
        if !crate::bytes::bytes32_eq(&mint_token_address(dst_token_mint), &o.dst_token_address) {
            return Err(OtcError::InvalidDstTokenMint);
        }
        let receipt = match OtcConfig::to_dst_amount(
            params.src_amount_sd,
            o.exchange_rate_sd,
            mint_decimals_of(dst_token_mint),
        ) {
            Ok(receipt) => receipt,
            Err(e) => return Err(e),
        };
        if o.src_eid == o.dst_eid {
            return Ok((receipt, None));
        }
        let payload = build_accept_offer_payload(
            &params.offer_id,
            params.src_amount_sd,
            &params.src_buyer_address,
            dst_buyer_address,
            &o.src_token_address,
        );
        match market.outbound(o.src_eid, payload, Vec::new()) {
            Ok(m) => Ok((receipt, Some(m))),
            Err(e) => Err(e),
        }
    }
}

// ---------------------------------------------------------------- cancel

/// Local amount of the source token held for what remains of a record.
pub open spec fn remaining_ld(rec: StoredOffer) -> int {
    release_ld(rec.offer.src_amount_sd, rec)
}

/// Why a release of what remains of a record fails, if it does.
pub open spec fn release_remaining_error(
    market: Market,
    rec: StoredOffer,
    src_token_mint: Option<TokenMint>,
) -> Option<OtcError> {
    if mint_token(src_token_mint) != rec.offer.src_token_address@ {
        Some(OtcError::InvalidSrcTokenMint)
    } else if remaining_ld(rec) > balance_in(market.escrow@, rec.offer.src_token_address@) {
        Some(OtcError::ExcessiveAmount)
    } else {
        None
    }
}

/// Why a cancel fails, if it does.
pub open spec fn cancel_error(
    market: Market,
    seller: [u8; 32],
    offer_id: [u8; 32],
    src_token_mint: Option<TokenMint>,
) -> Option<OtcError> {
    let o = market.offers@[offer_id@].offer;
    if !market.offers@.contains_key(offer_id@) {
        Some(OtcError::OfferNotFound)
    } else if o.src_eid != market.config.eid {
        Some(OtcError::InvalidEid)
    } else if o.src_seller_address@ != seller@ {
        Some(OtcError::OnlySeller)
    } else if o.src_amount_sd != market.offers@[offer_id@].initial_src_amount_sd {
        Some(OtcError::OfferPartiallyFilled)
    } else if is_monochain(o) {
        release_remaining_error(market, market.offers@[offer_id@], src_token_mint)
    } else if !market.peers@.contains_key(o.dst_eid) {
        Some(OtcError::PeerNotFound)
    } else {
        None
    }
}

pub struct CancelOfferOutcome {
    /// The escrow's refund to the seller, for a monochain offer.
    pub release: Option<Release>,
    pub event: Option<OfferCanceled>,
    /// The OfferCancelOrder message for the destination chain, for a crosschain offer.
    pub message: Option<Outbound>,
}

/// Checks that what remains of `o` can be released from the escrow and
/// returns that release.
pub fn plan_release_remaining(
    market: &Market,
    rec: &StoredOffer,
    to: &[u8; 32],
    src_token_mint: Option<TokenMint>,
) -> (r: Result<Release, OtcError>)
    requires
        market.wf(),
    ensures
        release_remaining_error(*market, *rec, src_token_mint) matches Some(e) ==> r == Err::<
            Release,
            OtcError,
        >(e),
        release_remaining_error(*market, *rec, src_token_mint) is None ==> (r matches Ok(rel)
            && rel.to == *to && rel.token == rec.offer.src_token_address && rel.amount_ld
            == remaining_ld(*rec)),
{
    let o = rec.offer;
    if !crate::bytes::bytes32_eq(&mint_token_address(src_token_mint), &o.src_token_address) {
        return Err(OtcError::InvalidSrcTokenMint);
    }
    let amount_ld = match OtcConfig::sd2ld(o.src_amount_sd, rec.src_conversion_rate) {
        Ok(v) => v,
        Err(_) => return Err(OtcError::ExcessiveAmount),
    };
    if amount_ld > market.escrow.balance(&o.src_token_address) {
        return Err(OtcError::ExcessiveAmount);
    }
    Ok(Release { to: *to, token: o.src_token_address, amount_ld })
}

/// Cancels an offer on its source chain. A monochain offer is refunded to
/// the seller and removed at once; for a crosschain offer the destination
/// chain is asked to cancel, and the refund waits for its reply. Only an
/// offer that nothing has been accepted from can be cancelled.
pub struct CancelOffer {}

impl CancelOffer {
    pub fn apply(
        market: &mut Market,
        seller: &[u8; 32],
        offer_id: &[u8; 32],
        src_token_mint: Option<TokenMint>,
        extra_options: &Vec<u8>,
    ) -> (r: Result<CancelOfferOutcome, OtcError>)
        requires
            old(market).wf(),
        ensures
            final(market).wf(),
            cancel_error(*old(market), *seller, *offer_id, src_token_mint) matches Some(e) ==> r
                == Err::<CancelOfferOutcome, OtcError>(e) && *final(market) == *old(market),
            cancel_error(*old(market), *seller, *offer_id, src_token_mint) is None ==> (r matches Ok(
                out,
            ) && {
                let rec = old(market).offers@[offer_id@];
                let o = rec.offer;
                &&& is_monochain(o) ==> {
                    &&& out.message is None
                    &&& out.event == Some(OfferCanceled { offer_id: *offer_id })
                    &&& out.release matches Some(rel)
                    &&& rel.to == *seller
                    &&& rel.token == o.src_token_address
                    &&& rel.amount_ld == remaining_ld(rec)
                    &&& final(market).offers@ == old(market).offers@.remove(offer_id@)
                    &&& final(market).escrow@ == credited(
                        old(market).escrow@,
                        o.src_token_address@,
                        -remaining_ld(rec),
                    )
                    &&& same_setup(*final(market), *old(market))
                }
                &&& !is_monochain(o) ==> {
                    &&& out.release is None
                    &&& out.event is None
                    &&& *final(market) == *old(market)
                    &&& out.message matches Some(m)
                    &&& outbound_is(
                        m,
                        *old(market),
                        o.dst_eid,
                        cancel_order_bytes(offer_id@),
                        extra_options@,
                    )
                }
            }),
    {
        let rec = match market.offers.get(offer_id) {
            Some(rec) => rec,
            None => return Err(OtcError::OfferNotFound),
        };
        let o = rec.offer;
        if o.src_eid != market.config.eid {
            return Err(OtcError::InvalidEid);
        }
        if !crate::bytes::bytes32_eq(&o.src_seller_address, seller) {
            return Err(OtcError::OnlySeller);
        }
        if o.src_amount_sd != rec.initial_src_amount_sd {
            return Err(OtcError::OfferPartiallyFilled);
        }
        if o.src_eid != o.dst_eid {
            let payload = build_cancel_offer_order_payload(offer_id);
            return match market.outbound(o.dst_eid, payload, copy_bytes(extra_options)) {
                Ok(m) => Ok(CancelOfferOutcome { release: None, event: None, message: Some(m) }),
                Err(e) => Err(e),
            };
        }
        let rel = match plan_release_remaining(market, &rec, seller, src_token_mint) {
            Ok(rel) => rel,
            Err(e) => return Err(e),
        };
        match market.escrow.release(&rel.token, rel.amount_ld) {
            Ok(()) => {},
            Err(e) => return Err(e),
        }
        match market.offers.remove(offer_id) {
            Ok(_) => {},
            Err(e) => return Err(e),
        }
        Ok(
            CancelOfferOutcome {
                release: Some(rel),
                event: Some(OfferCanceled { offer_id: *offer_id }),
                message: None,
            },
        )
    }
}

/// Why a quote for a cancel order fails, if it does.
pub open spec fn quote_cancel_order_error(
    market: Market,
    seller: [u8; 32],
    offer_id: [u8; 32],
) -> Option<OtcError> {
    let o = market.offers@[offer_id@].offer;
    if !market.offers@.contains_key(offer_id@) {
        Some(OtcError::OfferNotFound)
    } else if o.src_seller_address@ != seller@ {
        Some(OtcError::OnlySeller)
    } else if o.src_eid != market.config.eid {
        Some(OtcError::InvalidEid)
    } else if o.src_amount_sd != market.offers@[offer_id@].initial_src_amount_sd {
        Some(OtcError::OfferPartiallyFilled)
    } else if is_monochain(o) {
        Some(OtcError::NotCrosschainOffer)
    } else if !market.peers@.contains_key(o.dst_eid) {
        Some(OtcError::PeerNotFound)
    } else {
        None
    }
}

/// The cancel order a seller would send for a crosschain offer, to quote its fee.
pub struct QuoteCancelOfferOrder {}

impl QuoteCancelOfferOrder {
    pub fn apply(
        market: &Market,
        seller: &[u8; 32],
        offer_id: &[u8; 32],
        extra_options: &Vec<u8>,
    ) -> (r: Result<Outbound, OtcError>)
        requires
            market.wf(),
        ensures
            quote_cancel_order_error(*market, *seller, *offer_id) matches Some(e) ==> r == Err::<
                Outbound,
                OtcError,
            >(e),
            quote_cancel_order_error(*market, *seller, *offer_id) is None ==> (r matches Ok(m)
                && outbound_is(
                m,
                *market,
                market.offers@[offer_id@].offer.dst_eid,
                cancel_order_bytes(offer_id@),
                extra_options@,
            )),
    {
        let rec = match market.offers.get(offer_id) {
            Some(rec) => rec,
            None => return Err(OtcError::OfferNotFound),
        };
        let o = rec.offer;
        if !crate::bytes::bytes32_eq(&o.src_seller_address, seller) {
            return Err(OtcError::OnlySeller);
        }
        if o.src_eid != market.config.eid {
            return Err(OtcError::InvalidEid);
        }
        if o.src_amount_sd != rec.initial_src_amount_sd {
            return Err(OtcError::OfferPartiallyFilled);
        }
        if o.src_eid == o.dst_eid {
            return Err(OtcError::NotCrosschainOffer);
        }
        market.outbound(o.dst_eid, build_cancel_offer_order_payload(offer_id), copy_bytes(extra_options))
    }
}

/// Why a quote for a cancel reply fails, if it does.
pub open spec fn quote_cancel_error(market: Market, offer_id: [u8; 32]) -> Option<OtcError> {
    let o = market.offers@[offer_id@].offer;
    if !market.offers@.contains_key(offer_id@) {
        Some(OtcError::OfferNotFound)
    } else if o.dst_eid != market.config.eid {
        Some(OtcError::InvalidEid)
    } else if is_monochain(o) {
        Some(OtcError::NotCrosschainOffer)
    } else if !market.peers@.contains_key(o.src_eid) {
        Some(OtcError::PeerNotFound)
    } else {
        None
    }
}

/// The OfferCanceled reply the destination chain would send, to quote its fee.
pub struct QuoteCancelOffer {}

impl QuoteCancelOffer {
    pub fn apply(market: &Market, offer_id: &[u8; 32]) -> (r: Result<Outbound, OtcError>)
        requires
            market.wf(),
        ensures
            quote_cancel_error(*market, *offer_id) matches Some(e) ==> r == Err::<
                Outbound,
                OtcError,
            >(e),
            quote_cancel_error(*market, *offer_id) is None ==> (r matches Ok(m) && {
                let o = market.offers@[offer_id@].offer;
                outbound_is(
                    m,
                    *market,
                    o.src_eid,
                    canceled_bytes(offer_id@, o.src_seller_address@, o.src_token_address@),
                    Seq::empty(),
                )
            }),
    {
        let rec = match market.offers.get(offer_id) {
            Some(rec) => rec,
            None => return Err(OtcError::OfferNotFound),
        };
        let o = rec.offer;
        if o.dst_eid != market.config.eid {
            return Err(OtcError::InvalidEid);
        }
        if o.src_eid == o.dst_eid {
            return Err(OtcError::NotCrosschainOffer);
        }
        let payload = build_cancel_offer_payload(offer_id, &o.src_seller_address, &o.src_token_address);
        market.outbound(o.src_eid, payload, Vec::new())
    }
}

} // verus!
