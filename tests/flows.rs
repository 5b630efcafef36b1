use otc_market::engine::{AcceptOffer, CancelOffer, CreateOffer, QuoteAcceptOffer, QuoteCancelOffer, QuoteCancelOfferOrder, QuoteCreateOffer};
use otc_market::errors::OtcError;
use sha3::{Digest, Keccak256};
use otc_market::market::{Initialize, Market, SetEnforcedOptions, SetPeer};
use otc_market::msg_codec::{build_accept_offer_payload, build_cancel_offer_order_payload};
use otc_market::offer::HashOffer;
use otc_market::router::LzReceive;
use otc_market::types::{
    AcceptOfferParams, CreateOfferParams, InitializeParams, LzReceiveParams,
    SetEnforcedOptionsParams, SetPeerParams, TokenMint,
};

const SRC_EID: u32 = 40168;
const DST_EID: u32 = 30101;
const NATIVE: [u8; 32] = [0u8; 32];

fn addr(b: u8) -> [u8; 32] {
    [b; 32]
}

fn admin() -> [u8; 32] {
    addr(10)
}
fn treasury() -> [u8; 32] {
    addr(11)
}
fn src_app() -> [u8; 32] {
    addr(100)
}
fn dst_app() -> [u8; 32] {
    addr(200)
}
fn seller() -> [u8; 32] {
    addr(1)
}
fn dst_seller() -> [u8; 32] {
    addr(2)
}
fn buyer() -> [u8; 32] {
    addr(3)
}
fn src_buyer() -> [u8; 32] {
    addr(4)
}

fn market(eid: u32) -> Market {
    Initialize::apply(
        &admin(),
        &InitializeParams { endpoint_program: addr(50), treasury: treasury(), eid },
    )
}

/// Two markets, each registered as the other's peer.
fn linked() -> (Market, Market) {
    let mut src = market(SRC_EID);
    let mut dst = market(DST_EID);
    SetPeer::apply(&mut src, &admin(), &SetPeerParams { dst_eid: DST_EID, peer: dst_app() }).unwrap();
    SetPeer::apply(&mut dst, &admin(), &SetPeerParams { dst_eid: SRC_EID, peer: src_app() }).unwrap();
    (src, dst)
}

fn create_params(dst_eid: u32, src_amount_ld: u64) -> CreateOfferParams {
    CreateOfferParams {
        dst_seller_address: dst_seller(),
        dst_eid,
        dst_token_address: NATIVE,
        src_amount_ld,
        exchange_rate_sd: 2_000_000,
    }
}

fn inbound(src_eid: u32, sender: [u8; 32], nonce: u64, message: Vec<u8>) -> LzReceiveParams {
    LzReceiveParams { src_eid, sender, nonce, guid: addr(nonce as u8), message }
}

#[test]
fn monochain_create_and_partial_accept() {
    let mut m = market(SRC_EID);
    let out = CreateOffer::apply(&mut m, &seller(), &create_params(SRC_EID, 1_500_000_001), None).unwrap();
    assert_eq!(out.offer.src_amount_sd, 1_500_000);
    assert_eq!(out.receipt.src_amount_ld, 1_500_000_000);
    assert_eq!(m.escrow.balance(&NATIVE), 1_500_000_000);
    assert!(out.message.is_none());
    assert_eq!(out.event.src_amount_sd, 1_500_000);
    let id = out.receipt.offer_id;

    let params = AcceptOfferParams { offer_id: id, src_amount_sd: 500_000, src_buyer_address: buyer() };
    let acc = AcceptOffer::apply(&mut m, &buyer(), &params, &dst_seller(), &treasury(), None, None).unwrap();
    assert_eq!(acc.receipt.dst_amount_ld, 1_000_000_000);
    assert_eq!(acc.receipt.fee_ld, 10_000_000);
    assert_eq!(acc.to_seller_ld, 990_000_000);
    let rel = acc.release.unwrap();
    assert_eq!(rel.amount_ld, 500_000_000);
    assert_eq!(rel.to, buyer());
    assert_eq!(rel.token, NATIVE);
    assert!(acc.message.is_none());
    assert_eq!(m.offers.get(&id).unwrap().offer.src_amount_sd, 1_000_000);
    assert_eq!(m.offers.get(&id).unwrap().initial_src_amount_sd, 1_500_000);
    assert_eq!(m.escrow.balance(&NATIVE), 1_000_000_000);
}

#[test]
fn offer_id_is_keccak_of_identity_fields() {
    let mut m = market(SRC_EID);
    let out = CreateOffer::apply(&mut m, &seller(), &create_params(SRC_EID, 5_000_000), None).unwrap();
    let mut data = Vec::new();
    data.extend_from_slice(&seller());
    data.extend_from_slice(&SRC_EID.to_be_bytes());
    data.extend_from_slice(&SRC_EID.to_be_bytes());
    data.extend_from_slice(&NATIVE);
    data.extend_from_slice(&NATIVE);
    data.extend_from_slice(&2_000_000u64.to_be_bytes());
    let expected = Keccak256::digest(&data);
    assert_eq!(&out.receipt.offer_id[..], expected.as_slice());
    let again = HashOffer::apply(&seller(), SRC_EID, SRC_EID, &NATIVE, &NATIVE, 2_000_000).unwrap();
    assert_eq!(again, out.receipt.offer_id);
    assert_eq!(out.offer.id(), out.receipt.offer_id);
}

#[test]
fn crosschain_create_sends_offer_created() {
    let (mut src, dst) = linked();
    let out = CreateOffer::apply(&mut src, &seller(), &create_params(DST_EID, 3_000_000_000), None).unwrap();
    let msg = out.message.unwrap();
    assert_eq!(msg.message.len(), 185);
    assert_eq!(msg.message[0], 0);
    assert_eq!(msg.dst_eid, DST_EID);
    assert_eq!(msg.receiver, dst_app());
    assert!(src.offers.contains(&out.receipt.offer_id));
    assert_eq!(src.escrow.balance(&NATIVE), 3_000_000_000);
    assert!(!dst.offers.contains(&out.receipt.offer_id));
}

#[test]
fn crosschain_accept_releases_on_source_chain() {
    let (mut src, mut dst) = linked();
    let created = CreateOffer::apply(&mut src, &seller(), &create_params(DST_EID, 3_000_000_000), None).unwrap();
    let id = created.receipt.offer_id;
    let r = LzReceive::apply(&mut dst, &inbound(SRC_EID, src_app(), 1, created.message.unwrap().message), None, None).unwrap();
    assert!(r.created.is_some());
    assert_eq!(r.clear.nonce, 1);
    assert_eq!(dst.offers.get(&id).unwrap().offer.src_amount_sd, 3_000_000);

    let params = AcceptOfferParams { offer_id: id, src_amount_sd: 1_000_000, src_buyer_address: src_buyer() };
    let acc = AcceptOffer::apply(&mut dst, &buyer(), &params, &dst_seller(), &treasury(), None, None).unwrap();
    assert_eq!(acc.receipt.dst_amount_ld, 2_000_000_000);
    assert_eq!(acc.receipt.fee_ld, 20_000_000);
    assert_eq!(acc.to_seller_ld, 1_980_000_000);
    assert!(acc.release.is_none());
    let msg = acc.message.unwrap();
    assert_eq!(msg.message.len(), 137);
    assert_eq!(msg.dst_eid, SRC_EID);
    assert_eq!(msg.receiver, src_app());
    assert_eq!(dst.offers.get(&id).unwrap().offer.src_amount_sd, 2_000_000);

    let r = LzReceive::apply(&mut src, &inbound(DST_EID, dst_app(), 1, msg.message), Some(src_buyer()), None).unwrap();
    let rel = r.release.unwrap();
    assert_eq!(rel.to, src_buyer());
    assert_eq!(rel.amount_ld, 1_000_000_000);
    assert_eq!(r.accepted.unwrap().dst_buyer_address, buyer());
    assert_eq!(src.offers.get(&id).unwrap().offer.src_amount_sd, 2_000_000);
    assert_eq!(src.escrow.balance(&NATIVE), 2_000_000_000);
}

#[test]
fn crosschain_cancel_round_trip() {
    let (mut src, mut dst) = linked();
    let created = CreateOffer::apply(&mut src, &seller(), &create_params(DST_EID, 3_000_000_000), None).unwrap();
    let id = created.receipt.offer_id;
    LzReceive::apply(&mut dst, &inbound(SRC_EID, src_app(), 1, created.message.unwrap().message), None, None).unwrap();

    let cancel = CancelOffer::apply(&mut src, &seller(), &id, None, &Vec::new()).unwrap();
    assert!(cancel.release.is_none());
    let order = cancel.message.unwrap();
    assert_eq!(order.message.len(), 33);
    assert_eq!(order.message[0], 2);
    assert_eq!(order.dst_eid, DST_EID);
    assert!(src.offers.contains(&id));

    let r = LzReceive::apply(&mut dst, &inbound(SRC_EID, src_app(), 2, order.message), None, None).unwrap();
    let reply = r.message.unwrap();
    assert_eq!(reply.message.len(), 97);
    assert_eq!(reply.message[0], 3);
    assert_eq!(reply.dst_eid, SRC_EID);
    assert_eq!(reply.receiver, src_app());

    let r = LzReceive::apply(&mut src, &inbound(DST_EID, dst_app(), 2, reply.message), None, None).unwrap();
    let rel = r.release.unwrap();
    assert_eq!(rel.to, seller());
    assert_eq!(rel.amount_ld, 3_000_000_000);
    assert!(r.canceled.is_some());
    assert!(!src.offers.contains(&id));
    assert_eq!(src.escrow.balance(&NATIVE), 0);
}

#[test]
fn replayed_offer_created_is_rejected() {
    let (mut src, mut dst) = linked();
    let created = CreateOffer::apply(&mut src, &seller(), &create_params(DST_EID, 3_000_000_000), None).unwrap();
    let payload = created.message.unwrap().message;
    LzReceive::apply(&mut dst, &inbound(SRC_EID, src_app(), 1, payload.clone()), None, None).unwrap();
    let again = LzReceive::apply(&mut dst, &inbound(SRC_EID, src_app(), 1, payload), None, None);
    assert!(matches!(again, Err(OtcError::OfferAlreadyExists)));
}

#[test]
fn duplicate_create_is_rejected() {
    let mut m = market(SRC_EID);
    CreateOffer::apply(&mut m, &seller(), &create_params(SRC_EID, 1_000_000_000), None).unwrap();
    let again = CreateOffer::apply(&mut m, &seller(), &create_params(SRC_EID, 2_000_000_000), None);
    assert!(matches!(again, Err(OtcError::OfferAlreadyExists)));
    assert_eq!(m.escrow.balance(&NATIVE), 1_000_000_000);
}

#[test]
fn dust_only_create_is_invalid_pricing() {
    let mut m = market(SRC_EID);
    let r = CreateOffer::apply(&mut m, &seller(), &create_params(SRC_EID, 999), None);
    assert!(matches!(r, Err(OtcError::InvalidPricing)));
    assert_eq!(m.escrow.balance(&NATIVE), 0);
    let id = HashOffer::apply(&seller(), SRC_EID, SRC_EID, &NATIVE, &NATIVE, 2_000_000).unwrap();
    assert!(!m.offers.contains(&id));
}

#[test]
fn zero_rate_is_invalid_pricing() {
    let mut m = market(SRC_EID);
    let mut p = create_params(SRC_EID, 5_000_000);
    p.exchange_rate_sd = 0;
    assert!(matches!(CreateOffer::apply(&mut m, &seller(), &p, None), Err(OtcError::InvalidPricing)));
}

#[test]
fn mint_with_too_few_decimals_is_rejected() {
    let mut m = market(SRC_EID);
    let mint = TokenMint { address: addr(77), decimals: 5 };
    let r = CreateOffer::apply(&mut m, &seller(), &create_params(SRC_EID, 5_000_000), Some(mint));
    assert!(matches!(r, Err(OtcError::InvalidLocalDecimals)));
}

#[test]
fn fungible_source_token_is_escrowed_under_its_mint() {
    let mut m = market(SRC_EID);
    let mint = TokenMint { address: addr(77), decimals: 6 };
    let out = CreateOffer::apply(&mut m, &seller(), &create_params(SRC_EID, 5_000_000), Some(mint)).unwrap();
    assert_eq!(out.offer.src_token_address, addr(77));
    assert_eq!(out.receipt.src_amount_ld, 5_000_000);
    assert_eq!(m.escrow.balance(&addr(77)), 5_000_000);
    assert_eq!(m.escrow.balance(&NATIVE), 0);
    let params = AcceptOfferParams { offer_id: out.receipt.offer_id, src_amount_sd: 1_000_000, src_buyer_address: buyer() };
    let wrong = AcceptOffer::apply(&mut m, &buyer(), &params, &dst_seller(), &treasury(), None, None);
    assert!(matches!(wrong, Err(OtcError::InvalidSrcTokenMint)));
    let acc = AcceptOffer::apply(&mut m, &buyer(), &params, &dst_seller(), &treasury(), None, Some(mint)).unwrap();
    assert_eq!(acc.release.unwrap().amount_ld, 1_000_000);
    assert_eq!(m.escrow.balance(&addr(77)), 4_000_000);
}

#[test]
fn crosschain_create_without_peer_fails() {
    let mut m = market(SRC_EID);
    let r = CreateOffer::apply(&mut m, &seller(), &create_params(DST_EID, 5_000_000), None);
    assert!(matches!(r, Err(OtcError::PeerNotFound)));
    assert_eq!(m.escrow.balance(&NATIVE), 0);
}

#[test]
fn accept_binding_errors() {
    let mut m = market(SRC_EID);
    let out = CreateOffer::apply(&mut m, &seller(), &create_params(SRC_EID, 5_000_000_000), None).unwrap();
    let id = out.receipt.offer_id;
    let p = AcceptOfferParams { offer_id: id, src_amount_sd: 1_000_000, src_buyer_address: buyer() };
    let r = AcceptOffer::apply(&mut m, &buyer(), &p, &addr(99), &treasury(), None, None);
    assert!(matches!(r, Err(OtcError::InvalidDstSeller)));
    let r = AcceptOffer::apply(&mut m, &buyer(), &p, &dst_seller(), &addr(99), None, None);
    assert!(matches!(r, Err(OtcError::InvalidTreasury)));
    let mint = TokenMint { address: addr(88), decimals: 6 };
    let r = AcceptOffer::apply(&mut m, &buyer(), &p, &dst_seller(), &treasury(), Some(mint), None);
    assert!(matches!(r, Err(OtcError::InvalidDstTokenMint)));
    let big = AcceptOfferParams { offer_id: id, src_amount_sd: 5_000_001, src_buyer_address: buyer() };
    let r = AcceptOffer::apply(&mut m, &buyer(), &big, &dst_seller(), &treasury(), None, None);
    assert!(matches!(r, Err(OtcError::ExcessiveAmount)));
    let missing = AcceptOfferParams { offer_id: addr(42), src_amount_sd: 1, src_buyer_address: buyer() };
    let r = AcceptOffer::apply(&mut m, &buyer(), &missing, &dst_seller(), &treasury(), None, None);
    assert!(matches!(r, Err(OtcError::OfferNotFound)));
    assert_eq!(m.offers.get(&id).unwrap().offer.src_amount_sd, 5_000_000);
}

#[test]
fn fully_consumed_offer_cannot_be_accepted() {
    let mut m = market(SRC_EID);
    let out = CreateOffer::apply(&mut m, &seller(), &create_params(SRC_EID, 2_000_000), None).unwrap();
    let id = out.receipt.offer_id;
    let all = AcceptOfferParams { offer_id: id, src_amount_sd: 2_000, src_buyer_address: buyer() };
    AcceptOffer::apply(&mut m, &buyer(), &all, &dst_seller(), &treasury(), None, None).unwrap();
    assert_eq!(m.offers.get(&id).unwrap().offer.src_amount_sd, 0);
    let zero = AcceptOfferParams { offer_id: id, src_amount_sd: 0, src_buyer_address: buyer() };
    let r = AcceptOffer::apply(&mut m, &buyer(), &zero, &dst_seller(), &treasury(), None, None);
    assert!(matches!(r, Err(OtcError::ExcessiveAmount)));
    assert_eq!(m.escrow.balance(&NATIVE), 0);
}

#[test]
fn accept_on_source_chain_of_crosschain_offer_is_invalid_eid() {
    let (mut src, _) = linked();
    let out = CreateOffer::apply(&mut src, &seller(), &create_params(DST_EID, 3_000_000_000), None).unwrap();
    let p = AcceptOfferParams { offer_id: out.receipt.offer_id, src_amount_sd: 1, src_buyer_address: buyer() };
    let r = AcceptOffer::apply(&mut src, &buyer(), &p, &dst_seller(), &treasury(), None, None);
    assert!(matches!(r, Err(OtcError::InvalidEid)));
}

#[test]
fn monochain_cancel_refunds_and_removes() {
    let mut m = market(SRC_EID);
    let out = CreateOffer::apply(&mut m, &seller(), &create_params(SRC_EID, 4_000_000_000), None).unwrap();
    let id = out.receipt.offer_id;
    let r = CancelOffer::apply(&mut m, &buyer(), &id, None, &Vec::new());
    assert!(matches!(r, Err(OtcError::OnlySeller)));
    let c = CancelOffer::apply(&mut m, &seller(), &id, None, &Vec::new()).unwrap();
    let rel = c.release.unwrap();
    assert_eq!(rel.to, seller());
    assert_eq!(rel.amount_ld, 4_000_000_000);
    assert_eq!(c.event.unwrap().offer_id, id);
    assert!(!m.offers.contains(&id));
    assert_eq!(m.escrow.balance(&NATIVE), 0);
    let again = CancelOffer::apply(&mut m, &seller(), &id, None, &Vec::new());
    assert!(matches!(again, Err(OtcError::OfferNotFound)));
}

#[test]
fn inbound_from_unregistered_sender_is_rejected() {
    let (mut src, mut dst) = linked();
    let created = CreateOffer::apply(&mut src, &seller(), &create_params(DST_EID, 3_000_000_000), None).unwrap();
    let payload = created.message.unwrap().message;
    let r = LzReceive::apply(&mut dst, &inbound(SRC_EID, addr(66), 1, payload.clone()), None, None);
    assert!(matches!(r, Err(OtcError::InvalidSender)));
    let r = LzReceive::apply(&mut dst, &inbound(12345, src_app(), 1, payload), None, None);
    assert!(matches!(r, Err(OtcError::InvalidSender)));
    assert!(!dst.offers.contains(&created.receipt.offer_id));
}

#[test]
fn inbound_malformed_messages_are_rejected() {
    let (_, mut dst) = linked();
    let r = LzReceive::apply(&mut dst, &inbound(SRC_EID, src_app(), 1, vec![7u8; 40]), None, None);
    assert!(matches!(r, Err(OtcError::InvalidMessageType)));
    let r = LzReceive::apply(&mut dst, &inbound(SRC_EID, src_app(), 1, vec![0u8; 100]), None, None);
    assert!(matches!(r, Err(OtcError::InvalidMessageLength)));
}

#[test]
fn inbound_accept_checks_buyer_account() {
    let (mut src, mut dst) = linked();
    let created = CreateOffer::apply(&mut src, &seller(), &create_params(DST_EID, 3_000_000_000), None).unwrap();
    let id = created.receipt.offer_id;
    LzReceive::apply(&mut dst, &inbound(SRC_EID, src_app(), 1, created.message.unwrap().message), None, None).unwrap();
    let p = AcceptOfferParams { offer_id: id, src_amount_sd: 1_000_000, src_buyer_address: src_buyer() };
    let msg = AcceptOffer::apply(&mut dst, &buyer(), &p, &dst_seller(), &treasury(), None, None).unwrap().message.unwrap().message;
    let r = LzReceive::apply(&mut src, &inbound(DST_EID, dst_app(), 1, msg.clone()), Some(addr(66)), None);
    assert!(matches!(r, Err(OtcError::InvalidSrcBuyer)));
    let mint = TokenMint { address: addr(77), decimals: 6 };
    let r = LzReceive::apply(&mut src, &inbound(DST_EID, dst_app(), 1, msg), Some(src_buyer()), Some(mint));
    assert!(matches!(r, Err(OtcError::InvalidSrcTokenMint)));
    assert_eq!(src.offers.get(&id).unwrap().offer.src_amount_sd, 3_000_000);
    assert_eq!(src.escrow.balance(&NATIVE), 3_000_000_000);
}

#[test]
fn quotes_do_not_change_state() {
    let (mut src, mut dst) = linked();
    let (receipt, msg) = QuoteCreateOffer::apply(&src, &seller(), &create_params(DST_EID, 3_000_000_001), None).unwrap();
    assert_eq!(receipt.src_amount_ld, 3_000_000_000);
    assert_eq!(msg.unwrap().message.len(), 185);
    assert!(!src.offers.contains(&receipt.offer_id));
    let created = CreateOffer::apply(&mut src, &seller(), &create_params(DST_EID, 3_000_000_001), None).unwrap();
    assert_eq!(created.receipt.offer_id, receipt.offer_id);
    LzReceive::apply(&mut dst, &inbound(SRC_EID, src_app(), 1, created.message.unwrap().message), None, None).unwrap();
    let p = AcceptOfferParams { offer_id: receipt.offer_id, src_amount_sd: 1_000_000, src_buyer_address: src_buyer() };
    let (r, m) = QuoteAcceptOffer::apply(&dst, &buyer(), &p, None).unwrap();
    assert_eq!(r.dst_amount_ld, 2_000_000_000);
    assert_eq!(m.unwrap().message.len(), 137);
    assert_eq!(dst.offers.get(&receipt.offer_id).unwrap().offer.src_amount_sd, 3_000_000);
    let order = QuoteCancelOfferOrder::apply(&src, &seller(), &receipt.offer_id, &vec![0u8, 3]).unwrap();
    assert_eq!(order.message.len(), 33);
    assert_eq!(order.extra_options, vec![0u8, 3]);
    let reply = QuoteCancelOffer::apply(&dst, &receipt.offer_id).unwrap();
    assert_eq!(reply.message.len(), 97);
    assert_eq!(reply.dst_eid, SRC_EID);
}

#[test]
fn quote_cancel_order_needs_crosschain_offer() {
    let mut m = market(SRC_EID);
    let out = CreateOffer::apply(&mut m, &seller(), &create_params(SRC_EID, 5_000_000), None).unwrap();
    let r = QuoteCancelOfferOrder::apply(&m, &seller(), &out.receipt.offer_id, &Vec::new());
    assert!(matches!(r, Err(OtcError::NotCrosschainOffer)));
}

#[test]
fn admin_operations_require_admin() {
    let mut m = market(SRC_EID);
    let r = SetPeer::apply(&mut m, &addr(66), &SetPeerParams { dst_eid: DST_EID, peer: dst_app() });
    assert_eq!(r, Err(OtcError::Unauthorized));
    assert_eq!(m.peer_address(DST_EID), None);
    SetPeer::apply(&mut m, &admin(), &SetPeerParams { dst_eid: DST_EID, peer: dst_app() }).unwrap();
    assert_eq!(m.peer_address(DST_EID), Some(dst_app()));
    let opts = SetEnforcedOptionsParams { dst_eid: DST_EID, send: vec![0, 3, 1], send_and_call: vec![0, 3] };
    assert_eq!(SetEnforcedOptions::apply(&mut m, &addr(66), &opts), Err(OtcError::Unauthorized));
    SetEnforcedOptions::apply(&mut m, &admin(), &opts).unwrap();
    assert_eq!(m.send_options(DST_EID), vec![0, 3, 1]);
    let out = CreateOffer::apply(&mut m, &seller(), &create_params(DST_EID, 5_000_000), None).unwrap();
    assert_eq!(out.message.unwrap().options, vec![0, 3, 1]);
}

#[test]
fn inbound_accept_on_a_mirror_is_invalid_eid() {
    let (mut src, mut dst) = linked();
    let created = CreateOffer::apply(&mut src, &seller(), &create_params(DST_EID, 3_000_000_000), None).unwrap();
    let id = created.receipt.offer_id;
    LzReceive::apply(&mut dst, &inbound(SRC_EID, src_app(), 1, created.message.unwrap().message), None, None).unwrap();
    let p = AcceptOfferParams { offer_id: id, src_amount_sd: 1_000_000, src_buyer_address: src_buyer() };
    let msg = AcceptOffer::apply(&mut dst, &buyer(), &p, &dst_seller(), &treasury(), None, None).unwrap().message.unwrap().message;
    // Delivered to the destination chain itself, where only the mirror is held.
    let r = LzReceive::apply(&mut dst, &inbound(SRC_EID, src_app(), 2, msg), Some(src_buyer()), None);
    assert!(matches!(r, Err(OtcError::InvalidEid)));
    assert_eq!(dst.offers.get(&id).unwrap().offer.src_amount_sd, 2_000_000);
}

#[test]
fn stored_records_keep_their_escrow_rate() {
    let (mut src, mut dst) = linked();
    let mint = TokenMint { address: addr(77), decimals: 8 };
    let created = CreateOffer::apply(&mut src, &seller(), &create_params(DST_EID, 123_456_789), Some(mint)).unwrap();
    let id = created.receipt.offer_id;
    assert_eq!(created.receipt.src_amount_ld, 123_456_700);
    let rec = src.offers.get(&id).unwrap();
    assert_eq!(rec.src_conversion_rate, 100);
    assert_eq!(rec.offer.src_amount_sd, 1_234_567);
    assert_eq!(src.escrow.balance(&addr(77)), 123_456_700);
    LzReceive::apply(&mut dst, &inbound(SRC_EID, src_app(), 1, created.message.unwrap().message), None, None).unwrap();
    assert_eq!(dst.offers.get(&id).unwrap().src_conversion_rate, 0);
    assert_eq!(dst.escrow.balance(&addr(77)), 0);
}

#[test]
fn partly_filled_monochain_offer_cannot_be_cancelled() {
    let mut m = market(SRC_EID);
    let out = CreateOffer::apply(&mut m, &seller(), &create_params(SRC_EID, 4_000_000_000), None).unwrap();
    let id = out.receipt.offer_id;
    let p = AcceptOfferParams { offer_id: id, src_amount_sd: 1_000_000, src_buyer_address: buyer() };
    AcceptOffer::apply(&mut m, &buyer(), &p, &dst_seller(), &treasury(), None, None).unwrap();
    let r = CancelOffer::apply(&mut m, &seller(), &id, None, &Vec::new());
    assert!(matches!(r, Err(OtcError::OfferPartiallyFilled)));
    assert_eq!(m.offers.get(&id).unwrap().offer.src_amount_sd, 3_000_000);
    assert_eq!(m.escrow.balance(&NATIVE), 3_000_000_000);
}

#[test]
fn partly_filled_crosschain_offer_cannot_be_cancelled() {
    let (mut src, mut dst) = linked();
    let created = CreateOffer::apply(&mut src, &seller(), &create_params(DST_EID, 3_000_000_000), None).unwrap();
    let id = created.receipt.offer_id;
    LzReceive::apply(&mut dst, &inbound(SRC_EID, src_app(), 1, created.message.unwrap().message), None, None).unwrap();
    let p = AcceptOfferParams { offer_id: id, src_amount_sd: 1_000_000, src_buyer_address: src_buyer() };
    let msg = AcceptOffer::apply(&mut dst, &buyer(), &p, &dst_seller(), &treasury(), None, None).unwrap().message.unwrap().message;
    LzReceive::apply(&mut src, &inbound(DST_EID, dst_app(), 1, msg), Some(src_buyer()), None).unwrap();
    let r = CancelOffer::apply(&mut src, &seller(), &id, None, &Vec::new());
    assert!(matches!(r, Err(OtcError::OfferPartiallyFilled)));
    let q = QuoteCancelOfferOrder::apply(&src, &seller(), &id, &Vec::new());
    assert!(matches!(q, Err(OtcError::OfferPartiallyFilled)));
    assert!(src.offers.contains(&id));
}

#[test]
fn offer_created_with_a_foreign_id_is_rejected() {
    let (mut src, mut dst) = linked();
    let created = CreateOffer::apply(&mut src, &seller(), &create_params(DST_EID, 3_000_000_000), None).unwrap();
    let mut payload = created.message.unwrap().message;
    payload[1] ^= 0xff;
    let r = LzReceive::apply(&mut dst, &inbound(SRC_EID, src_app(), 1, payload), None, None);
    assert!(matches!(r, Err(OtcError::InvalidOfferId)));
    assert!(!dst.offers.contains(&created.receipt.offer_id));
}

#[test]
fn cancel_order_is_answered_only_on_the_destination_chain() {
    let (mut src, _) = linked();
    let created = CreateOffer::apply(&mut src, &seller(), &create_params(DST_EID, 3_000_000_000), None).unwrap();
    let order = build_cancel_offer_order_payload(&created.receipt.offer_id);
    let r = LzReceive::apply(&mut src, &inbound(DST_EID, dst_app(), 1, order), None, None);
    assert!(matches!(r, Err(OtcError::InvalidEid)));
}

#[test]
fn inbound_accept_of_a_monochain_offer_is_refused() {
    let (mut src, _) = linked();
    let created = CreateOffer::apply(&mut src, &seller(), &create_params(SRC_EID, 3_000_000_000), None).unwrap();
    let id = created.receipt.offer_id;
    let msg = build_accept_offer_payload(&id, 1_000_000, &src_buyer(), &buyer(), &NATIVE);
    let r = LzReceive::apply(&mut src, &inbound(DST_EID, dst_app(), 1, msg), Some(src_buyer()), None);
    assert!(matches!(r, Err(OtcError::NotCrosschainOffer)));
    assert_eq!(src.escrow.balance(&NATIVE), 3_000_000_000);
}
