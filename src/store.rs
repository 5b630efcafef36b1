//! Offer records keyed by their content-addressed id.
use vstd::prelude::*;
use crate::bytes::bytes32_eq;
use crate::errors::OtcError;
use crate::offer::{offer_id_of, Offer};

verus! {

/// A stored offer with the amount it was created with.
#[derive(Clone, Copy, Debug)]
pub struct StoredOffer {
    pub offer_id: [u8; 32],
    pub offer: Offer,
    pub initial_src_amount_sd: u64,
    /// Local units per shared unit of the source token, as escrowed on this
    /// chain; zero for a mirror of an offer whose tokens are held elsewhere.
    pub src_conversion_rate: u64,
}

/// What one record holds in escrow for `token` on the chain with endpoint `eid`.
pub open spec fn escrowed_by(r: StoredOffer, eid: u32, token: Seq<u8>) -> int {
    if r.offer.src_eid == eid && r.offer.src_token_address@ == token {
        r.offer.src_amount_sd * r.src_conversion_rate
    } else {
        0
    }
}

/// What a sequence of records holds in escrow for `token`.
pub open spec fn escrowed_in(s: Seq<StoredOffer>, eid: u32, token: Seq<u8>) -> int
    decreases s.len(),
{
    if s.len() == 0 {
        0
    } else {
        escrowed_in(s.drop_last(), eid, token) + escrowed_by(s.last(), eid, token)
    }
}

proof fn lemma_escrowed_by_nonneg(r: StoredOffer, eid: u32, token: Seq<u8>)
    ensures
        escrowed_by(r, eid, token) >= 0,
{
    let a = r.offer.src_amount_sd as int;
    let c = r.src_conversion_rate as int;
    assert(a * c >= 0) by (nonlinear_arith)
        requires
            a >= 0,
            c >= 0,
    ;
}

/// Each record's share is part of the sum.
proof fn lemma_escrowed_covers(s: Seq<StoredOffer>, i: int, eid: u32, token: Seq<u8>)
    requires
        0 <= i < s.len(),
    ensures
        escrowed_in(s, eid, token) >= escrowed_by(s[i], eid, token),
    decreases s.len(),
{
    if i == s.len() - 1 {
        lemma_escrowed_nonneg(s.drop_last(), eid, token);
    } else {
        lemma_escrowed_covers(s.drop_last(), i, eid, token);
        lemma_escrowed_by_nonneg(s.last(), eid, token);
    }
}

proof fn lemma_escrowed_nonneg(s: Seq<StoredOffer>, eid: u32, token: Seq<u8>)
    ensures
        escrowed_in(s, eid, token) >= 0,
    decreases s.len(),
{
    if s.len() > 0 {
        lemma_escrowed_nonneg(s.drop_last(), eid, token);
        lemma_escrowed_by_nonneg(s.last(), eid, token);
    }
}

proof fn lemma_escrowed_update(s: Seq<StoredOffer>, i: int, r: StoredOffer, eid: u32, token: Seq<u8>)
    requires
        0 <= i < s.len(),
    ensures
        escrowed_in(s.update(i, r), eid, token) == escrowed_in(s, eid, token) - escrowed_by(
            s[i],
            eid,
            token,
        ) + escrowed_by(r, eid, token),
    decreases s.len(),
{
    let u = s.update(i, r);
    if i == s.len() - 1 {
        assert(u.drop_last() =~= s.drop_last());
    } else {
        lemma_escrowed_update(s.drop_last(), i, r, eid, token);
        assert(u.drop_last() =~= s.drop_last().update(i, r));
    }
}

proof fn lemma_escrowed_remove(s: Seq<StoredOffer>, i: int, eid: u32, token: Seq<u8>)
    requires
        0 <= i < s.len(),
    ensures
        escrowed_in(s.remove(i), eid, token) == escrowed_in(s, eid, token) - escrowed_by(
            s[i],
            eid,
            token,
        ),
    decreases s.len(),
{
    let u = s.remove(i);
    if i == s.len() - 1 {
        assert(u =~= s.drop_last());
    } else {
        lemma_escrowed_remove(s.drop_last(), i, eid, token);
        assert(u.drop_last() =~= s.drop_last().remove(i));
        assert(u.last() == s.last());
    }
}

/// A record is sound when it is stored under its own id and its remaining
/// amount never exceeds the amount it was created with.
pub open spec fn record_ok(r: StoredOffer) -> bool {
    &&& r.offer_id@ == offer_id_of(r.offer)
    &&& r.offer.src_amount_sd <= r.initial_src_amount_sd
}

#[derive(Clone)]
pub struct OfferStore {
    entries: Vec<StoredOffer>,
    model: Ghost<Map<Seq<u8>, StoredOffer>>,
}

impl View for OfferStore {
    type V = Map<Seq<u8>, StoredOffer>;

    closed spec fn view(&self) -> Map<Seq<u8>, StoredOffer> {
        self.model@
    }
}

impl OfferStore {
    pub closed spec fn wf(&self) -> bool {
        &&& forall|i: int, j: int|
            0 <= i < self.entries@.len() && 0 <= j < self.entries@.len() && i != j
                ==> self.entries@[i].offer_id@ != self.entries@[j].offer_id@
        &&& forall|i: int|
            0 <= i < self.entries@.len() ==> {
                &&& self.model@.contains_key(#[trigger] self.entries@[i].offer_id@)
                &&& self.model@[self.entries@[i].offer_id@] == self.entries@[i]
            }
        &&& forall|k: Seq<u8>|
            #[trigger] self.model@.contains_key(k) ==> exists|i: int|
                0 <= i < self.entries@.len() && self.entries@[i].offer_id@ == k
        &&& forall|i: int| 0 <= i < self.entries@.len() ==> record_ok(#[trigger] self.entries@[i])
    }

    /// Every stored record is sound and keyed by its own id.
    pub proof fn lemma_records_ok(&self)
        requires
            self.wf(),
        ensures
            forall|k: Seq<u8>|
                #[trigger] self@.contains_key(k) ==> record_ok(self@[k]) && self@[k].offer_id@
                    == k,
    {
        assert forall|k: Seq<u8>| #[trigger] self@.contains_key(k) implies record_ok(self@[k])
            && self@[k].offer_id@ == k by {
            let i = choose|i: int| 0 <= i < self.entries@.len() && self.entries@[i].offer_id@ == k;
            assert(record_ok(self.entries@[i]));
        }
    }

    /// Sum over the stored offers from the chain `eid` with source `token`
    /// of their remaining amount in that token's local units.
    pub closed spec fn escrowed(&self, eid: u32, token: Seq<u8>) -> int {
        escrowed_in(self.entries@, eid, token)
    }

    /// What one stored record holds in escrow is part of the sum.
    pub proof fn lemma_record_escrowed(&self, offer_id: Seq<u8>, eid: u32, token: Seq<u8>)
        requires
            self.wf(),
            self@.contains_key(offer_id),
        ensures
            self.escrowed(eid, token) >= escrowed_by(self@[offer_id], eid, token),
    {
        let i = choose|i: int| 0 <= i < self.entries@.len() && self.entries@[i].offer_id@ == offer_id;
        lemma_escrowed_covers(self.entries@, i, eid, token);
    }

    pub fn new() -> (r: OfferStore)
        ensures
            r.wf(),
            r@ == Map::<Seq<u8>, StoredOffer>::empty(),
            forall|eid: u32, token: Seq<u8>| #[trigger] r.escrowed(eid, token) == 0,
    {
        OfferStore { entries: Vec::new(), model: Ghost(Map::empty()) }
    }

    fn find(&self, offer_id: &[u8; 32]) -> (r: Option<usize>)
        requires
            self.wf(),
        ensures
            r matches Some(i) ==> i < self.entries@.len() && self.entries@[i as int].offer_id@
                == offer_id@,
            r is None ==> !self@.contains_key(offer_id@),
    {
        let mut i: usize = 0;
        while i < self.entries.len()
            invariant
                i <= self.entries@.len(),
                forall|j: int| 0 <= j < i ==> self.entries@[j].offer_id@ != offer_id@,
            decreases self.entries@.len() - i,
        {
            if bytes32_eq(&self.entries[i].offer_id, offer_id) {
                return Some(i);
            }
            i = i + 1;
        }
        None
    }

    pub fn contains(&self, offer_id: &[u8; 32]) -> (r: bool)
        requires
            self.wf(),
        ensures
            r == self@.contains_key(offer_id@),
    {
        self.find(offer_id).is_some()
    }

    pub fn get(&self, offer_id: &[u8; 32]) -> (r: Option<StoredOffer>)
        requires
            self.wf(),
        ensures
            r matches Some(s) ==> self@.contains_key(offer_id@) && s == self@[offer_id@],
            r is None ==> !self@.contains_key(offer_id@),
    {
        match self.find(offer_id) {
            Some(i) => Some(self.entries[i]),
            None => None,
        }
    }

    /// Stores `offer` under its id, with its amount as the initial amount.
    /// Fails with `OfferAlreadyExists`, changing nothing, when that id is present.
    pub fn insert(&mut self, offer: Offer, src_conversion_rate: u64) -> (r: Result<
        [u8; 32],
        OtcError,
    >)
        requires
            old(self).wf(),
        ensures
            final(self).wf(),
            old(self)@.contains_key(offer_id_of(offer)) ==> r == Err::<[u8; 32], OtcError>(
                OtcError::OfferAlreadyExists,
            ) && *final(self) == *old(self),
            !old(self)@.contains_key(offer_id_of(offer)) ==> (r matches Ok(id) && {
                let rec = StoredOffer {
                    offer_id: id,
                    offer,
                    initial_src_amount_sd: offer.src_amount_sd,
                    src_conversion_rate,
                };
                &&& id@ == offer_id_of(offer)
                &&& final(self)@ == old(self)@.insert(id@, rec)
                &&& forall|eid: u32, token: Seq<u8>|
                    #[trigger] final(self).escrowed(eid, token) == old(self).escrowed(eid, token)
                        + escrowed_by(rec, eid, token)
            }),
    {
        let id = offer.id();
        if self.contains(&id) {
            return Err(OtcError::OfferAlreadyExists);
        }
        let rec = StoredOffer {
            offer_id: id,
            offer,
            initial_src_amount_sd: offer.src_amount_sd,
            src_conversion_rate,
        };
        let ghost old_entries = self.entries@;
        self.entries.push(rec);
        self.model = Ghost(self.model@.insert(id@, rec));
        proof {
            assert forall|eid: u32, token: Seq<u8>|
                #[trigger] escrowed_in(self.entries@, eid, token) == escrowed_in(old_entries, eid, token)
                    + escrowed_by(rec, eid, token) by {
                assert(self.entries@.drop_last() =~= old_entries);
            }
            assert forall|k: Seq<u8>| #[trigger] self.model@.contains_key(k) implies exists|i: int|
                0 <= i < self.entries@.len() && self.entries@[i].offer_id@ == k by {
                if k != id@ {
                    let i = choose|i: int| 0 <= i < old_entries.len() && old_entries[i].offer_id@ == k;
                    assert(self.entries@[i] == old_entries[i]);
                } else {
                    assert(self.entries@[old_entries.len() as int] == rec);
                }
            }
        }
        Ok(id)
    }

    /// Lowers the remaining amount of an offer by `delta_sd`.
    pub fn decrement_amount(&mut self, offer_id: &[u8; 32], delta_sd: u64) -> (r: Result<
        (),
        OtcError,
    >)
        requires
            old(self).wf(),
        ensures
            final(self).wf(),
            !old(self)@.contains_key(offer_id@) ==> r == Err::<(), OtcError>(
                OtcError::OfferNotFound,
            ) && *final(self) == *old(self),
            old(self)@.contains_key(offer_id@) && delta_sd > old(self)@[offer_id@].offer.src_amount_sd
                ==> r == Err::<(), OtcError>(OtcError::ExcessiveAmount) && *final(self) == *old(
                self,
            ),
            old(self)@.contains_key(offer_id@) && delta_sd <= old(
                self,
            )@[offer_id@].offer.src_amount_sd ==> r is Ok && final(self)@ == old(self)@.insert(
                offer_id@,
                with_amount(
                    old(self)@[offer_id@],
                    (old(self)@[offer_id@].offer.src_amount_sd - delta_sd) as u64,
                ),
            ) && forall|eid: u32, token: Seq<u8>|
                #[trigger] final(self).escrowed(eid, token) == old(self).escrowed(eid, token)
                    - escrowed_by(old(self)@[offer_id@], eid, token) + escrowed_by(
                    with_amount(
                        old(self)@[offer_id@],
                        (old(self)@[offer_id@].offer.src_amount_sd - delta_sd) as u64,
                    ),
                    eid,
                    token,
                ),
    {
        let i = match self.find(offer_id) {
            Some(i) => i,
            None => return Err(OtcError::OfferNotFound),
        };
        let mut rec = self.entries[i];
        if delta_sd > rec.offer.src_amount_sd {
            return Err(OtcError::ExcessiveAmount);
        }
        rec.offer.src_amount_sd = rec.offer.src_amount_sd - delta_sd;
        let ghost old_entries = self.entries@;
        proof {
            assert(rec.offer_id@ == offer_id@);
            assert(rec == with_amount(old(self)@[offer_id@], rec.offer.src_amount_sd));
        }
        self.entries.set(i, rec);
        self.model = Ghost(self.model@.insert(offer_id@, rec));
        proof {
            assert(old_entries[i as int] == old(self)@[offer_id@]);
            assert forall|eid: u32, token: Seq<u8>|
                #[trigger] escrowed_in(self.entries@, eid, token) == escrowed_in(old_entries, eid, token)
                    - escrowed_by(old_entries[i as int], eid, token) + escrowed_by(rec, eid, token) by {
                lemma_escrowed_update(old_entries, i as int, rec, eid, token);
            }
            assert forall|k: Seq<u8>| #[trigger] self.model@.contains_key(k) implies exists|j: int|
                0 <= j < self.entries@.len() && self.entries@[j].offer_id@ == k by {
                let j = choose|j: int| 0 <= j < old_entries.len() && old_entries[j].offer_id@ == k;
                assert(self.entries@[j].offer_id@ == old_entries[j].offer_id@);
            }
            assert forall|j: int| 0 <= j < self.entries@.len() implies {
                &&& self.model@.contains_key(#[trigger] self.entries@[j].offer_id@)
                &&& self.model@[self.entries@[j].offer_id@] == self.entries@[j]
            } by {
                if j != i {
                    assert(old_entries[j].offer_id@ != old_entries[i as int].offer_id@);
                }
            }
        }
        Ok(())
    }

    /// Removes an offer and returns its record.
    pub fn remove(&mut self, offer_id: &[u8; 32]) -> (r: Result<StoredOffer, OtcError>)
        requires
            old(self).wf(),
        ensures
            final(self).wf(),
            !old(self)@.contains_key(offer_id@) ==> r == Err::<StoredOffer, OtcError>(
                OtcError::OfferNotFound,
            ) && *final(self) == *old(self),
            old(self)@.contains_key(offer_id@) ==> r == Ok::<StoredOffer, OtcError>(
                old(self)@[offer_id@],
            ) && final(self)@ == old(self)@.remove(offer_id@) && forall|eid: u32, token: Seq<u8>|
                #[trigger] final(self).escrowed(eid, token) == old(self).escrowed(eid, token)
                    - escrowed_by(old(self)@[offer_id@], eid, token),
    {
        let i = match self.find(offer_id) {
            Some(i) => i,
            None => return Err(OtcError::OfferNotFound),
        };
        let ghost old_entries = self.entries@;
        let rec = self.entries.remove(i);
        self.model = Ghost(self.model@.remove(offer_id@));
        proof {
            assert(old_entries[i as int] == old(self)@[offer_id@]);
            assert forall|eid: u32, token: Seq<u8>|
                #[trigger] escrowed_in(self.entries@, eid, token) == escrowed_in(old_entries, eid, token)
                    - escrowed_by(old_entries[i as int], eid, token) by {
                lemma_escrowed_remove(old_entries, i as int, eid, token);
            }
            assert(self.entries@ =~= old_entries.remove(i as int));
            assert forall|k: Seq<u8>| #[trigger] self.model@.contains_key(k) implies exists|j: int|
                0 <= j < self.entries@.len() && self.entries@[j].offer_id@ == k by {
                let j = choose|j: int| 0 <= j < old_entries.len() && old_entries[j].offer_id@ == k;
                assert(j != i);
                if j < i {
                    assert(self.entries@[j] == old_entries[j]);
                } else {
                    assert(self.entries@[j - 1] == old_entries[j]);
                }
            }
            assert forall|j: int| 0 <= j < self.entries@.len() implies {
                &&& self.model@.contains_key(#[trigger] self.entries@[j].offer_id@)
                &&& self.model@[self.entries@[j].offer_id@] == self.entries@[j]
            } by {
                let oj = if j < i { j } else { j + 1 };
                assert(self.entries@[j] == old_entries[oj]);
                assert(old_entries[oj].offer_id@ != old_entries[i as int].offer_id@);
            }
            assert forall|a: int, b: int|
                0 <= a < self.entries@.len() && 0 <= b < self.entries@.len() && a != b
                    implies self.entries@[a].offer_id@ != self.entries@[b].offer_id@ by {
                let oa = if a < i { a } else { a + 1 };
                let ob = if b < i { b } else { b + 1 };
                assert(self.entries@[a] == old_entries[oa]);
                assert(self.entries@[b] == old_entries[ob]);
            }
            assert forall|j: int| 0 <= j < self.entries@.len() implies record_ok(#[trigger] self.entries@[j]) by {
                let oj = if j < i { j } else { j + 1 };
                assert(self.entries@[j] == old_entries[oj]);
            }
        }
        Ok(rec)
    }
}

/// A record with its remaining amount replaced.
pub open spec fn with_amount(r: StoredOffer, amount_sd: u64) -> StoredOffer {
    StoredOffer { offer: Offer { src_amount_sd: amount_sd, ..r.offer }, ..r }
}

/// Lowering a record's remaining amount by `delta` lowers what it holds in
/// escrow by `delta` at its rate.
pub proof fn lemma_escrowed_by_decrement(r: StoredOffer, delta: u64, eid: u32, token: Seq<u8>)
    requires
        delta <= r.offer.src_amount_sd,
    ensures
        escrowed_by(with_amount(r, (r.offer.src_amount_sd - delta) as u64), eid, token)
            == escrowed_by(r, eid, token) - (if r.offer.src_eid == eid && r.offer.src_token_address@
            == token {
            delta * r.src_conversion_rate
        } else {
            0
        }),
{
    let a = r.offer.src_amount_sd as int;
    let d = delta as int;
    let c = r.src_conversion_rate as int;
    assert((a - d) * c == a * c - d * c) by (nonlinear_arith);
}

/// Once an offer is stored, inserting any offer with the same identity
/// fields meets its id already present, so `insert` refuses it with
/// `OfferAlreadyExists` and leaves the store unchanged.
pub proof fn lemma_duplicate_insert_fails(
    stored: Map<Seq<u8>, StoredOffer>,
    first: Offer,
    rec: StoredOffer,
    second: Offer,
)
    requires
        crate::offer::same_identity(first, second),
    ensures
        stored.insert(offer_id_of(first), rec).contains_key(offer_id_of(second)),
{
}

} // verus!
