//! The four inter-chain messages: a tag byte followed by fixed-width fields,
//! integers big-endian, addresses as 32 raw bytes.
use vstd::prelude::*;
use crate::bytes::{
    be32, be64, from_be32, from_be64, lemma_be32_bytes_round_trip, lemma_be32_round_trip,
    lemma_be64_bytes_round_trip, lemma_be64_round_trip, push_be32, push_be64, push_bytes32,
    read_be32, read_be64, read_bytes32,
};
use crate::errors::OtcError;
use crate::offer::Offer;

verus! {

/// The message types, by tag byte.
#[derive(Clone, Copy, Debug, PartialEq, Eq, Structural)]
pub enum Message {
    OfferCreated,
    OfferAccepted,
    OfferCancelOrder,
    OfferCanceled,
}

pub open spec fn tag_of(m: Message) -> u8 {
    match m {
        Message::OfferCreated => 0,
        Message::OfferAccepted => 1,
        Message::OfferCancelOrder => 2,
        Message::OfferCanceled => 3,
    }
}

/// Total length in bytes of a message of each type.
pub open spec fn message_len(m: Message) -> int {
    match m {
        Message::OfferCreated => 185,
        Message::OfferAccepted => 137,
        Message::OfferCancelOrder => 33,
        Message::OfferCanceled => 97,
    }
}

/// The message type that a tag byte names.
pub open spec fn message_of_tag(tag: u8) -> Option<Message> {
    if tag == 0 {
        Some(Message::OfferCreated)
    } else if tag == 1 {
        Some(Message::OfferAccepted)
    } else if tag == 2 {
        Some(Message::OfferCancelOrder)
    } else if tag == 3 {
        Some(Message::OfferCanceled)
    } else {
        None
    }
}

impl Message {
    pub fn from_tag(value: u8) -> (r: Result<Message, OtcError>)
        ensures
            r == (match message_of_tag(value) {
                Some(m) => Ok::<Message, OtcError>(m),
                None => Err(OtcError::InvalidMessageType),
            }),
    {
        match value {
            0 => Ok(Message::OfferCreated),
            1 => Ok(Message::OfferAccepted),
            2 => Ok(Message::OfferCancelOrder),
            3 => Ok(Message::OfferCanceled),
            _ => Err(OtcError::InvalidMessageType),
        }
    }
}

/// A decoded message with its fields.
#[derive(Clone, Copy, Debug)]
pub enum Payload {
    OfferCreated { offer_id: [u8; 32], offer: Offer },
    OfferAccepted {
        offer_id: [u8; 32],
        src_amount_sd: u64,
        src_buyer_address: [u8; 32],
        dst_buyer_address: [u8; 32],
        src_token_address: [u8; 32],
    },
    OfferCancelOrder { offer_id: [u8; 32] },
    OfferCanceled { offer_id: [u8; 32], src_seller_address: [u8; 32], src_token_address: [u8; 32] },
}

pub open spec fn created_bytes(offer_id: Seq<u8>, o: Offer) -> Seq<u8> {
    seq![0u8] + offer_id + o.src_seller_address@ + o.dst_seller_address@ + be32(o.src_eid) + be32(
        o.dst_eid,
    ) + o.src_token_address@ + o.dst_token_address@ + be64(o.src_amount_sd) + be64(
        o.exchange_rate_sd,
    )
}

pub open spec fn accepted_bytes(
    offer_id: Seq<u8>,
    src_amount_sd: u64,
    src_buyer_address: Seq<u8>,
    dst_buyer_address: Seq<u8>,
    src_token_address: Seq<u8>,
) -> Seq<u8> {
    seq![1u8] + offer_id + be64(src_amount_sd) + src_buyer_address + dst_buyer_address
        + src_token_address
}

pub open spec fn cancel_order_bytes(offer_id: Seq<u8>) -> Seq<u8> {
    seq![2u8] + offer_id
}

pub open spec fn canceled_bytes(
    offer_id: Seq<u8>,
    src_seller_address: Seq<u8>,
    src_token_address: Seq<u8>,
) -> Seq<u8> {
    seq![3u8] + offer_id + src_seller_address + src_token_address
}

/// The wire encoding of a payload.
pub open spec fn encode(p: Payload) -> Seq<u8> {
    match p {
        Payload::OfferCreated { offer_id, offer } => created_bytes(offer_id@, offer),
        Payload::OfferAccepted {
            offer_id,
            src_amount_sd,
            src_buyer_address,
            dst_buyer_address,
            src_token_address,
        } => accepted_bytes(
            offer_id@,
            src_amount_sd,
            src_buyer_address@,
            dst_buyer_address@,
            src_token_address@,
        ),
        Payload::OfferCancelOrder { offer_id } => cancel_order_bytes(offer_id@),
        Payload::OfferCanceled { offer_id, src_seller_address, src_token_address } => canceled_bytes(
            offer_id@,
            src_seller_address@,
            src_token_address@,
        ),
    }
}

pub open spec fn message_type_of(p: Payload) -> Message {
    match p {
        Payload::OfferCreated { .. } => Message::OfferCreated,
        Payload::OfferAccepted { .. } => Message::OfferAccepted,
        Payload::OfferCancelOrder { .. } => Message::OfferCancelOrder,
        Payload::OfferCanceled { .. } => Message::OfferCanceled,
    }
}

/// What parsing `m` yields when it fails, if it does.
pub open spec fn parse_error(m: Seq<u8>) -> Option<OtcError> {
    if m.len() == 0 {
        Some(OtcError::InvalidMessageLength)
    } else {
        match message_of_tag(m[0]) {
            None => Some(OtcError::InvalidMessageType),
            Some(t) => if m.len() < message_len(t) {
                Some(OtcError::InvalidMessageLength)
            } else {
                None
            },
        }
    }
}

/// `p` is what `m` holds: `m` starts with the encoding of `p`.
pub open spec fn decodes_to(m: Seq<u8>, p: Payload) -> bool {
    &&& encode(p).len() <= m.len()
    &&& m.subrange(0, encode(p).len() as int) == encode(p)
}

/// Each field of `p` is read from its place in `m`.
pub open spec fn fields_at(m: Seq<u8>, p: Payload) -> bool {
    match p {
        Payload::OfferCreated { offer_id, offer } => {
            &&& offer_id@ == m.subrange(1, 33)
            &&& offer.src_seller_address@ == m.subrange(33, 65)
            &&& offer.dst_seller_address@ == m.subrange(65, 97)
            &&& offer.src_eid == from_be32(m.subrange(97, 101))
            &&& offer.dst_eid == from_be32(m.subrange(101, 105))
            &&& offer.src_token_address@ == m.subrange(105, 137)
            &&& offer.dst_token_address@ == m.subrange(137, 169)
            &&& offer.src_amount_sd == from_be64(m.subrange(169, 177))
            &&& offer.exchange_rate_sd == from_be64(m.subrange(177, 185))
        },
        Payload::OfferAccepted {
            offer_id,
            src_amount_sd,
            src_buyer_address,
            dst_buyer_address,
            src_token_address,
        } => {
            &&& offer_id@ == m.subrange(1, 33)
            &&& src_amount_sd == from_be64(m.subrange(33, 41))
            &&& src_buyer_address@ == m.subrange(41, 73)
            &&& dst_buyer_address@ == m.subrange(73, 105)
            &&& src_token_address@ == m.subrange(105, 137)
        },
        Payload::OfferCancelOrder { offer_id } => offer_id@ == m.subrange(1, 33),
        Payload::OfferCanceled { offer_id, src_seller_address, src_token_address } => {
            &&& offer_id@ == m.subrange(1, 33)
            &&& src_seller_address@ == m.subrange(33, 65)
            &&& src_token_address@ == m.subrange(65, 97)
        },
    }
}

/// Two payloads whose fields hold the same values.
pub open spec fn same_payload(p: Payload, q: Payload) -> bool {
    match (p, q) {
        (
            Payload::OfferCreated { offer_id: i1, offer: o1 },
            Payload::OfferCreated { offer_id: i2, offer: o2 },
        ) => {
            &&& i1@ == i2@
            &&& crate::offer::same_offer(o1, o2)
        },
        (
            Payload::OfferAccepted {
                offer_id: i1,
                src_amount_sd: a1,
                src_buyer_address: s1,
                dst_buyer_address: d1,
                src_token_address: t1,
            },
            Payload::OfferAccepted {
                offer_id: i2,
                src_amount_sd: a2,
                src_buyer_address: s2,
                dst_buyer_address: d2,
                src_token_address: t2,
            },
        ) => i1@ == i2@ && a1 == a2 && s1@ == s2@ && d1@ == d2@ && t1@ == t2@,
        (
            Payload::OfferCancelOrder { offer_id: i1 },
            Payload::OfferCancelOrder { offer_id: i2 },
        ) => i1@ == i2@,
        (
            Payload::OfferCanceled { offer_id: i1, src_seller_address: s1, src_token_address: t1 },
            Payload::OfferCanceled { offer_id: i2, src_seller_address: s2, src_token_address: t2 },
        ) => i1@ == i2@ && s1@ == s2@ && t1@ == t2@,
        _ => false,
    }
}

pub proof fn lemma_encode_len(p: Payload)
    ensures
        encode(p).len() == message_len(message_type_of(p)),
        encode(p)[0] == tag_of(message_type_of(p)),
{
}

pub fn build_create_offer_payload(offer_id: &[u8; 32], offer: &Offer) -> (r: Vec<u8>)
    ensures
        r@ == created_bytes(offer_id@, *offer),
{
    let mut v: Vec<u8> = Vec::new();
    v.push(0u8);
    push_bytes32(&mut v, offer_id);
    push_bytes32(&mut v, &offer.src_seller_address);
    push_bytes32(&mut v, &offer.dst_seller_address);
    push_be32(&mut v, offer.src_eid);
    push_be32(&mut v, offer.dst_eid);
    push_bytes32(&mut v, &offer.src_token_address);
    push_bytes32(&mut v, &offer.dst_token_address);
    push_be64(&mut v, offer.src_amount_sd);
    push_be64(&mut v, offer.exchange_rate_sd);
    assert(v@ =~= created_bytes(offer_id@, *offer));
    v
}

pub fn build_cancel_offer_order_payload(offer_id: &[u8; 32]) -> (r: Vec<u8>)
    ensures
        r@ == cancel_order_bytes(offer_id@),
{
    let mut v: Vec<u8> = Vec::new();
    v.push(2u8);
    push_bytes32(&mut v, offer_id);
    assert(v@ =~= cancel_order_bytes(offer_id@));
    v
}

pub fn build_cancel_offer_payload(
    offer_id: &[u8; 32],
    src_seller_address: &[u8; 32],
    src_token_address: &[u8; 32],
) -> (r: Vec<u8>)
    ensures
        r@ == canceled_bytes(offer_id@, src_seller_address@, src_token_address@),
{
    let mut v: Vec<u8> = Vec::new();
    v.push(3u8);
    push_bytes32(&mut v, offer_id);
    push_bytes32(&mut v, src_seller_address);
    push_bytes32(&mut v, src_token_address);
    assert(v@ =~= canceled_bytes(offer_id@, src_seller_address@, src_token_address@));
    v
}

pub fn build_accept_offer_payload(
    offer_id: &[u8; 32],
    src_amount_sd: u64,
    src_buyer_address: &[u8; 32],
    dst_buyer_address: &[u8; 32],
    src_token_address: &[u8; 32],
) -> (r: Vec<u8>)
    ensures
        r@ == accepted_bytes(
            offer_id@,
            src_amount_sd,
            src_buyer_address@,
            dst_buyer_address@,
            src_token_address@,
        ),
{
    let mut v: Vec<u8> = Vec::new();
    v.push(1u8);
    push_bytes32(&mut v, offer_id);
    push_be64(&mut v, src_amount_sd);
    push_bytes32(&mut v, src_buyer_address);
    push_bytes32(&mut v, dst_buyer_address);
    push_bytes32(&mut v, src_token_address);
    assert(v@ =~= accepted_bytes(
        offer_id@,
        src_amount_sd,
        src_buyer_address@,
        dst_buyer_address@,
        src_token_address@,
    ));
    v
}

/// Encodes any of the four messages.
pub fn build_payload(p: &Payload) -> (r: Vec<u8>)
    ensures
        r@ == encode(*p),
{
    match p {
        Payload::OfferCreated { offer_id, offer } => build_create_offer_payload(offer_id, offer),
        Payload::OfferAccepted {
            offer_id,
            src_amount_sd,
            src_buyer_address,
            dst_buyer_address,
            src_token_address,
        } => build_accept_offer_payload(
            offer_id,
            *src_amount_sd,
            src_buyer_address,
            dst_buyer_address,
            src_token_address,
        ),
        Payload::OfferCancelOrder { offer_id } => build_cancel_offer_order_payload(offer_id),
        Payload::OfferCanceled { offer_id, src_seller_address, src_token_address } =>
            build_cancel_offer_payload(offer_id, src_seller_address, src_token_address),
    }
}

/// The message type named by the first byte.
pub fn get_message_type(message: &[u8]) -> (r: Result<Message, OtcError>)
    ensures
        message@.len() == 0 ==> r == Err::<Message, OtcError>(OtcError::InvalidMessageLength),
        message@.len() > 0 ==> r == (match message_of_tag(message@[0]) {
            Some(m) => Ok::<Message, OtcError>(m),
            None => Err(OtcError::InvalidMessageType),
        }),
{
    if message.len() == 0 {
        return Err(OtcError::InvalidMessageLength);
    }
    Message::from_tag(message[0])
}

pub fn offer_id(message: &[u8]) -> (r: [u8; 32])
    requires
        message@.len() >= 33,
    ensures
        r@ == message@.subrange(1, 33),
{
    read_bytes32(message, 1)
}

pub fn decode_offer_created(message: &[u8]) -> (r: Offer)
    requires
        message@.len() >= 185,
    ensures
        r.src_seller_address@ == message@.subrange(33, 65),
        r.dst_seller_address@ == message@.subrange(65, 97),
        r.src_eid == from_be32(message@.subrange(97, 101)),
        r.dst_eid == from_be32(message@.subrange(101, 105)),
        r.src_token_address@ == message@.subrange(105, 137),
        r.dst_token_address@ == message@.subrange(137, 169),
        r.src_amount_sd == from_be64(message@.subrange(169, 177)),
        r.exchange_rate_sd == from_be64(message@.subrange(177, 185)),
{
    Offer {
        src_seller_address: read_bytes32(message, 33),
        dst_seller_address: read_bytes32(message, 65),
        src_eid: read_be32(message, 97),
        dst_eid: read_be32(message, 101),
        src_token_address: read_bytes32(message, 105),
        dst_token_address: read_bytes32(message, 137),
        src_amount_sd: read_be64(message, 169),
        exchange_rate_sd: read_be64(message, 177),
    }
}

pub fn src_buyer_address(message: &[u8]) -> (r: [u8; 32])
    requires
        message@.len() >= 73,
    ensures
        r@ == message@.subrange(41, 73),
{
    read_bytes32(message, 41)
}

pub fn decode_offer_accepted(message: &[u8]) -> (r: ([u8; 32], u64, [u8; 32], [u8; 32], [u8; 32]))
    requires
        message@.len() >= 137,
    ensures
        r.0@ == message@.subrange(1, 33),
        r.1 == from_be64(message@.subrange(33, 41)),
        r.2@ == message@.subrange(41, 73),
        r.3@ == message@.subrange(73, 105),
        r.4@ == message@.subrange(105, 137),
{
    (
        read_bytes32(message, 1),
        read_be64(message, 33),
        read_bytes32(message, 41),
        read_bytes32(message, 73),
        read_bytes32(message, 105),
    )
}

pub fn decode_offer_cancel_order(message: &[u8]) -> (r: [u8; 32])
    requires
        message@.len() >= 33,
    ensures
        r@ == message@.subrange(1, 33),
{
    offer_id(message)
}

pub fn decode_offer_canceled(message: &[u8]) -> (r: ([u8; 32], [u8; 32], [u8; 32]))
    requires
        message@.len() >= 97,
    ensures
        r.0@ == message@.subrange(1, 33),
        r.1@ == message@.subrange(33, 65),
        r.2@ == message@.subrange(65, 97),
{
    (read_bytes32(message, 1), read_bytes32(message, 33), read_bytes32(message, 65))
}

pub fn src_seller_address(message: &[u8]) -> (r: [u8; 32])
    requires
        message@.len() >= 65,
    ensures
        r@ == message@.subrange(33, 65),
{
    read_bytes32(message, 33)
}

/// Parses a message: fails on an unknown tag or a message shorter than its
/// type requires, and otherwise returns the payload that the message starts with.
pub fn parse_message(message: &[u8]) -> (r: Result<Payload, OtcError>)
    ensures
        parse_error(message@) matches Some(e) ==> r == Err::<Payload, OtcError>(e),
        parse_error(message@) is None ==> (r matches Ok(p) && decodes_to(message@, p) && fields_at(
            message@,
            p,
        ) && message_of_tag(message@[0]) == Some(message_type_of(p))),
{
    let t = match get_message_type(message) {
        Ok(t) => t,
        Err(e) => return Err(e),
    };
    let ghost m = message@;
    match t {
        Message::OfferCreated => {
            if message.len() < 185 {
                return Err(OtcError::InvalidMessageLength);
            }
            let id = offer_id(message);
            let offer = decode_offer_created(message);
            proof {
                lemma_be32_bytes_round_trip(m.subrange(97, 101));
                lemma_be32_bytes_round_trip(m.subrange(101, 105));
                lemma_be64_bytes_round_trip(m.subrange(169, 177));
                lemma_be64_bytes_round_trip(m.subrange(177, 185));
                assert(m.subrange(0, 185) =~= created_bytes(id@, offer));
            }
            Ok(Payload::OfferCreated { offer_id: id, offer })
        },
        Message::OfferAccepted => {
            if message.len() < 137 {
                return Err(OtcError::InvalidMessageLength);
            }
            let (id, amount, src_buyer, dst_buyer, src_token) = decode_offer_accepted(message);
            proof {
                lemma_be64_bytes_round_trip(m.subrange(33, 41));
                assert(m.subrange(0, 137) =~= accepted_bytes(
                    id@,
                    amount,
                    src_buyer@,
                    dst_buyer@,
                    src_token@,
                ));
            }
            Ok(
                Payload::OfferAccepted {
                    offer_id: id,
                    src_amount_sd: amount,
                    src_buyer_address: src_buyer,
                    dst_buyer_address: dst_buyer,
                    src_token_address: src_token,
                },
            )
        },
        Message::OfferCancelOrder => {
            if message.len() < 33 {
                return Err(OtcError::InvalidMessageLength);
            }
            let id = decode_offer_cancel_order(message);
            proof {
                assert(m.subrange(0, 33) =~= cancel_order_bytes(id@));
            }
            Ok(Payload::OfferCancelOrder { offer_id: id })
        },
        Message::OfferCanceled => {
            if message.len() < 97 {
                return Err(OtcError::InvalidMessageLength);
            }
            let (id, seller, token) = decode_offer_canceled(message);
            proof {
                assert(m.subrange(0, 97) =~= canceled_bytes(id@, seller@, token@));
            }
            Ok(
                Payload::OfferCanceled {
                    offer_id: id,
                    src_seller_address: seller,
                    src_token_address: token,
                },
            )
        },
    }
}

/// Parsing what was built gives back the payload that was built: the encoding
/// parses without error, and any payload it decodes to holds the same fields.
#[verifier::rlimit(60)]
pub proof fn lemma_parse_build(x: Payload, p: Payload)
    ensures
        parse_error(encode(x)) is None,
        decodes_to(encode(x), x),
        decodes_to(encode(x), p) ==> same_payload(x, p),
{
    let e = encode(x);
    assert(e.subrange(0, e.len() as int) =~= e);
    if decodes_to(e, p) {
        let f = encode(p);
        assert(e.subrange(0, f.len() as int) == f);
        assert(e[0] == f[0]);
        assert(message_type_of(x) == message_type_of(p));
        assert(f =~= e);
        match (x, p) {
            (
                Payload::OfferCreated { offer_id: i1, offer: o1 },
                Payload::OfferCreated { offer_id: i2, offer: o2 },
            ) => {
                assert(i1@ =~= e.subrange(1, 33));
                assert(i2@ =~= f.subrange(1, 33));
                assert(o1.src_seller_address@ =~= e.subrange(33, 65));
                assert(o2.src_seller_address@ =~= f.subrange(33, 65));
                assert(o1.dst_seller_address@ =~= e.subrange(65, 97));
                assert(o2.dst_seller_address@ =~= f.subrange(65, 97));
                assert(be32(o1.src_eid) =~= e.subrange(97, 101));
                assert(be32(o2.src_eid) =~= f.subrange(97, 101));
                assert(be32(o1.dst_eid) =~= e.subrange(101, 105));
                assert(be32(o2.dst_eid) =~= f.subrange(101, 105));
                assert(o1.src_token_address@ =~= e.subrange(105, 137));
                assert(o2.src_token_address@ =~= f.subrange(105, 137));
                assert(o1.dst_token_address@ =~= e.subrange(137, 169));
                assert(o2.dst_token_address@ =~= f.subrange(137, 169));
                assert(be64(o1.src_amount_sd) =~= e.subrange(169, 177));
                assert(be64(o2.src_amount_sd) =~= f.subrange(169, 177));
                assert(be64(o1.exchange_rate_sd) =~= e.subrange(177, 185));
                assert(be64(o2.exchange_rate_sd) =~= f.subrange(177, 185));
                lemma_be32_round_trip(o1.src_eid);
                lemma_be32_round_trip(o2.src_eid);
                lemma_be32_round_trip(o1.dst_eid);
                lemma_be32_round_trip(o2.dst_eid);
                lemma_be64_round_trip(o1.src_amount_sd);
                lemma_be64_round_trip(o2.src_amount_sd);
                lemma_be64_round_trip(o1.exchange_rate_sd);
                lemma_be64_round_trip(o2.exchange_rate_sd);
            },
            (
                Payload::OfferAccepted {
                    offer_id: i1,
                    src_amount_sd: a1,
                    src_buyer_address: s1,
                    dst_buyer_address: d1,
                    src_token_address: t1,
                },
                Payload::OfferAccepted {
                    offer_id: i2,
                    src_amount_sd: a2,
                    src_buyer_address: s2,
                    dst_buyer_address: d2,
                    src_token_address: t2,
                },
            ) => {
                assert(i1@ =~= e.subrange(1, 33));
                assert(i2@ =~= f.subrange(1, 33));
                assert(be64(a1) =~= e.subrange(33, 41));
                assert(be64(a2) =~= f.subrange(33, 41));
                assert(s1@ =~= e.subrange(41, 73));
                assert(s2@ =~= f.subrange(41, 73));
                assert(d1@ =~= e.subrange(73, 105));
                assert(d2@ =~= f.subrange(73, 105));
                assert(t1@ =~= e.subrange(105, 137));
                assert(t2@ =~= f.subrange(105, 137));
                lemma_be64_round_trip(a1);
                lemma_be64_round_trip(a2);
            },
            (
                Payload::OfferCancelOrder { offer_id: i1 },
                Payload::OfferCancelOrder { offer_id: i2 },
            ) => {
                assert(i1@ =~= e.subrange(1, 33));
                assert(i2@ =~= f.subrange(1, 33));
            },
            (
                Payload::OfferCanceled {
                    offer_id: i1,
                    src_seller_address: s1,
                    src_token_address: t1,
                },
                Payload::OfferCanceled {
                    offer_id: i2,
                    src_seller_address: s2,
                    src_token_address: t2,
                },
            ) => {
                assert(i1@ =~= e.subrange(1, 33));
                assert(i2@ =~= f.subrange(1, 33));
                assert(s1@ =~= e.subrange(33, 65));
                assert(s2@ =~= f.subrange(33, 65));
                assert(t1@ =~= e.subrange(65, 97));
                assert(t2@ =~= f.subrange(65, 97));
            },
            _ => {},
        }
    }
}

} // verus!
