use otc_market::errors::OtcError;
use otc_market::msg_codec::{
    build_accept_offer_payload, build_cancel_offer_order_payload, build_cancel_offer_payload,
    build_create_offer_payload, build_payload, decode_offer_accepted, decode_offer_cancel_order,
    decode_offer_canceled, decode_offer_created, get_message_type, offer_id, parse_message,
    src_buyer_address, src_seller_address, Message, Payload,
};
use otc_market::offer::Offer;

fn addr(b: u8) -> [u8; 32] {
    let mut a = [0u8; 32];
    for (i, x) in a.iter_mut().enumerate() {
        *x = b.wrapping_add(i as u8);
    }
    a
}

fn sample_offer() -> Offer {
    Offer {
        src_seller_address: addr(1),
        dst_seller_address: addr(2),
        src_eid: 40168,
        dst_eid: 30101,
        src_token_address: addr(3),
        dst_token_address: addr(4),
        src_amount_sd: 3_000_000,
        exchange_rate_sd: 2_000_000,
    }
}

fn same_offer(a: &Offer, b: &Offer) -> bool {
    a.src_seller_address == b.src_seller_address
        && a.dst_seller_address == b.dst_seller_address
        && a.src_eid == b.src_eid
        && a.dst_eid == b.dst_eid
        && a.src_token_address == b.src_token_address
        && a.dst_token_address == b.dst_token_address
        && a.src_amount_sd == b.src_amount_sd
        && a.exchange_rate_sd == b.exchange_rate_sd
}

#[test]
fn create_payload_layout() {
    let o = sample_offer();
    let p = build_create_offer_payload(&addr(9), &o);
    assert_eq!(p.len(), 185);
    assert_eq!(p[0], 0);
    assert_eq!(&p[1..33], &addr(9)[..]);
    assert_eq!(&p[33..65], &addr(1)[..]);
    assert_eq!(&p[65..97], &addr(2)[..]);
    assert_eq!(&p[97..101], &40168u32.to_be_bytes()[..]);
    assert_eq!(&p[101..105], &30101u32.to_be_bytes()[..]);
    assert_eq!(&p[105..137], &addr(3)[..]);
    assert_eq!(&p[137..169], &addr(4)[..]);
    assert_eq!(&p[169..177], &3_000_000u64.to_be_bytes()[..]);
    assert_eq!(&p[177..185], &2_000_000u64.to_be_bytes()[..]);
    let d = decode_offer_created(&p);
    assert!(same_offer(&d, &o));
    assert_eq!(offer_id(&p), addr(9));
    assert_eq!(src_seller_address(&p), addr(1));
}

#[test]
fn accept_payload_layout() {
    let p = build_accept_offer_payload(&addr(9), 1_000_000, &addr(5), &addr(6), &addr(3));
    assert_eq!(p.len(), 137);
    assert_eq!(p[0], 1);
    assert_eq!(&p[33..41], &1_000_000u64.to_be_bytes()[..]);
    assert_eq!(src_buyer_address(&p), addr(5));
    assert_eq!(decode_offer_accepted(&p), (addr(9), 1_000_000, addr(5), addr(6), addr(3)));
}

#[test]
fn cancel_payload_layouts() {
    let order = build_cancel_offer_order_payload(&addr(9));
    assert_eq!(order.len(), 33);
    assert_eq!(order[0], 2);
    assert_eq!(decode_offer_cancel_order(&order), addr(9));
    let canceled = build_cancel_offer_payload(&addr(9), &addr(1), &addr(3));
    assert_eq!(canceled.len(), 97);
    assert_eq!(canceled[0], 3);
    assert_eq!(decode_offer_canceled(&canceled), (addr(9), addr(1), addr(3)));
}

#[test]
fn parse_build_round_trip_all_types() {
    let created = Payload::OfferCreated { offer_id: addr(9), offer: sample_offer() };
    match parse_message(&build_payload(&created)) {
        Ok(Payload::OfferCreated { offer_id, offer }) => {
            assert_eq!(offer_id, addr(9));
            assert!(same_offer(&offer, &sample_offer()));
        }
        _ => panic!("expected OfferCreated"),
    }
    let accepted = Payload::OfferAccepted {
        offer_id: addr(9),
        src_amount_sd: u64::MAX,
        src_buyer_address: addr(5),
        dst_buyer_address: addr(6),
        src_token_address: addr(3),
    };
    match parse_message(&build_payload(&accepted)) {
        Ok(Payload::OfferAccepted {
            offer_id,
            src_amount_sd,
            src_buyer_address,
            dst_buyer_address,
            src_token_address,
        }) => {
            assert_eq!(offer_id, addr(9));
            assert_eq!(src_amount_sd, u64::MAX);
            assert_eq!(src_buyer_address, addr(5));
            assert_eq!(dst_buyer_address, addr(6));
            assert_eq!(src_token_address, addr(3));
        }
        _ => panic!("expected OfferAccepted"),
    }
    match parse_message(&build_payload(&Payload::OfferCancelOrder { offer_id: addr(9) })) {
        Ok(Payload::OfferCancelOrder { offer_id }) => assert_eq!(offer_id, addr(9)),
        _ => panic!("expected OfferCancelOrder"),
    }
    let canceled = Payload::OfferCanceled {
        offer_id: addr(9),
        src_seller_address: addr(1),
        src_token_address: addr(3),
    };
    match parse_message(&build_payload(&canceled)) {
        Ok(Payload::OfferCanceled { offer_id, src_seller_address, src_token_address }) => {
            assert_eq!(offer_id, addr(9));
            assert_eq!(src_seller_address, addr(1));
            assert_eq!(src_token_address, addr(3));
        }
        _ => panic!("expected OfferCanceled"),
    }
}

#[test]
fn unknown_tag_is_invalid_message_type() {
    assert_eq!(get_message_type(&[4u8, 0, 0]), Err(OtcError::InvalidMessageType));
    assert_eq!(get_message_type(&[255u8]), Err(OtcError::InvalidMessageType));
    assert!(matches!(parse_message(&[9u8; 200]), Err(OtcError::InvalidMessageType)));
    assert_eq!(Message::from_tag(2), Ok(Message::OfferCancelOrder));
}

#[test]
fn truncated_message_is_length_error() {
    assert_eq!(get_message_type(&[]), Err(OtcError::InvalidMessageLength));
    assert!(matches!(parse_message(&[]), Err(OtcError::InvalidMessageLength)));
    let p = build_create_offer_payload(&addr(9), &sample_offer());
    assert!(matches!(parse_message(&p[..184]), Err(OtcError::InvalidMessageLength)));
    let a = build_accept_offer_payload(&addr(9), 1, &addr(5), &addr(6), &addr(3));
    assert!(matches!(parse_message(&a[..136]), Err(OtcError::InvalidMessageLength)));
    let c = build_cancel_offer_payload(&addr(9), &addr(1), &addr(3));
    assert!(matches!(parse_message(&c[..33]), Err(OtcError::InvalidMessageLength)));
    assert!(matches!(parse_message(&[2u8; 32]), Err(OtcError::InvalidMessageLength)));
}
