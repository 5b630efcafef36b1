//! Custody of locked source tokens, one balance per token address.
use vstd::prelude::*;
use crate::bytes::bytes32_eq;
use crate::errors::OtcError;

verus! {

#[derive(Clone, Copy, Debug)]
pub struct TokenBalance {
    pub token: [u8; 32],
    pub amount: u64,
}

#[derive(Clone)]
pub struct Escrow {
    balances: Vec<TokenBalance>,
    model: Ghost<Map<Seq<u8>, u64>>,
}

impl View for Escrow {
    type V = Map<Seq<u8>, u64>;

    closed spec fn view(&self) -> Map<Seq<u8>, u64> {
        self.model@
    }
}

/// The balance held for `token`, zero when none was ever deposited.
pub open spec fn balance_in(m: Map<Seq<u8>, u64>, token: Seq<u8>) -> int {
    if m.contains_key(token) {
        m[token] as int
    } else {
        0
    }
}

/// The ledger after `amount` more of `token`.
pub open spec fn credited(m: Map<Seq<u8>, u64>, token: Seq<u8>, amount: int) -> Map<Seq<u8>, u64> {
    m.insert(token, (balance_in(m, token) + amount) as u64)
}

impl Escrow {
    pub closed spec fn wf(&self) -> bool {
        &&& forall|i: int, j: int|
            0 <= i < self.balances@.len() && 0 <= j < self.balances@.len() && i != j
                ==> self.balances@[i].token@ != self.balances@[j].token@
        &&& forall|i: int|
            0 <= i < self.balances@.len() ==> {
                &&& self.model@.contains_key(#[trigger] self.balances@[i].token@)
                &&& self.model@[self.balances@[i].token@] == self.balances@[i].amount
            }
        &&& forall|k: Seq<u8>|
            #[trigger] self.model@.contains_key(k) ==> exists|i: int|
                0 <= i < self.balances@.len() && self.balances@[i].token@ == k
    }

    pub fn new() -> (r: Escrow)
        ensures
            r.wf(),
            r@ == Map::<Seq<u8>, u64>::empty(),
    {
        Escrow { balances: Vec::new(), model: Ghost(Map::empty()) }
    }

    fn find(&self, token: &[u8; 32]) -> (r: Option<usize>)
        requires
            self.wf(),
        ensures
            r matches Some(i) ==> i < self.balances@.len() && self.balances@[i as int].token@
                == token@,
            r is None ==> !self@.contains_key(token@),
    {
        let mut i: usize = 0;
        while i < self.balances.len()
            invariant
                i <= self.balances@.len(),
                forall|j: int| 0 <= j < i ==> self.balances@[j].token@ != token@,
            decreases self.balances@.len() - i,
        {
            if bytes32_eq(&self.balances[i].token, token) {
                return Some(i);
            }
            i = i + 1;
        }
        None
    }

    /// The amount of `token` held.
    pub fn balance(&self, token: &[u8; 32]) -> (r: u64)
        requires
            self.wf(),
        ensures
            r == balance_in(self@, token@),
    {
        match self.find(token) {
            Some(i) => self.balances[i].amount,
            None => 0,
        }
    }

    /// Sets the balance held for `token`.
    fn put(&mut self, token: &[u8; 32], amount: u64)
        requires
            old(self).wf(),
        ensures
            final(self).wf(),
            final(self)@ == old(self)@.insert(token@, amount),
    {
        let ghost old_bal = self.balances@;
        match self.find(token) {
            Some(i) => {
                self.balances.set(i, TokenBalance { token: *token, amount });
                self.model = Ghost(self.model@.insert(token@, amount));
                proof {
                    assert forall|k: Seq<u8>| #[trigger] self.model@.contains_key(k) implies exists|j: int|
                        0 <= j < self.balances@.len() && self.balances@[j].token@ == k by {
                        if k != token@ {
                            let j = choose|j: int| 0 <= j < old_bal.len() && old_bal[j].token@ == k;
                            assert(self.balances@[j] == old_bal[j]);
                        } else {
                            assert(self.balances@[i as int].token@ == k);
                        }
                    }
                    assert forall|j: int| 0 <= j < self.balances@.len() implies {
                        &&& self.model@.contains_key(#[trigger] self.balances@[j].token@)
                        &&& self.model@[self.balances@[j].token@] == self.balances@[j].amount
                    } by {
                        if j != i {
                            assert(old_bal[j].token@ != old_bal[i as int].token@);
                        }
                    }
                }
            },
            None => {
                self.balances.push(TokenBalance { token: *token, amount });
                self.model = Ghost(self.model@.insert(token@, amount));
                proof {
                    assert forall|k: Seq<u8>| #[trigger] self.model@.contains_key(k) implies exists|j: int|
                        0 <= j < self.balances@.len() && self.balances@[j].token@ == k by {
                        if k != token@ {
                            let j = choose|j: int| 0 <= j < old_bal.len() && old_bal[j].token@ == k;
                            assert(self.balances@[j] == old_bal[j]);
                        } else {
                            assert(self.balances@[old_bal.len() as int].token@ == k);
                        }
                    }
                }
            },
        }
    }

    /// Takes `amount` of `token` into custody; fails with `ExcessiveAmount`,
    /// changing nothing, where the balance would overflow.
    pub fn deposit(&mut self, token: &[u8; 32], amount: u64) -> (r: Result<(), OtcError>)
        requires
            old(self).wf(),
        ensures
            final(self).wf(),
            balance_in(old(self)@, token@) + amount <= u64::MAX ==> r is Ok && final(self)@
                == credited(old(self)@, token@, amount as int),
            balance_in(old(self)@, token@) + amount > u64::MAX ==> r == Err::<(), OtcError>(
                OtcError::ExcessiveAmount,
            ) && final(self)@ == old(self)@,
    {
        let current = self.balance(token);
        match current.checked_add(amount) {
            Some(v) => {
                self.put(token, v);
                Ok(())
            },
            None => Err(OtcError::ExcessiveAmount),
        }
    }

    /// Releases `amount` of `token` from custody; fails with `ExcessiveAmount`,
    /// changing nothing, where less than that is held.
    pub fn release(&mut self, token: &[u8; 32], amount: u64) -> (r: Result<(), OtcError>)
        requires
            old(self).wf(),
        ensures
            final(self).wf(),
            amount <= balance_in(old(self)@, token@) ==> r is Ok && final(self)@ == credited(
                old(self)@,
                token@,
                -(amount as int),
            ),
            amount > balance_in(old(self)@, token@) ==> r == Err::<(), OtcError>(
                OtcError::ExcessiveAmount,
            ) && final(self)@ == old(self)@,
    {
        let current = self.balance(token);
        if amount > current {
            return Err(OtcError::ExcessiveAmount);
        }
        self.put(token, current - amount);
        Ok(())
    }
}

} // verus!
