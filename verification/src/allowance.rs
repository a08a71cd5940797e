//! The allowance store: how much of an owner's balance a spender may move.

use crate::address::Address;
use crate::error::LedgerError;
use crate::table::{contents, lemma_lookup_absent, lemma_lookup_found, lemma_lookup_push,
    lemma_lookup_replace, lemma_support_finite, support};
use crate::uint::U256;
use vstd::prelude::*;

verus! {

/// What each owner allows each spender. A pair for which nothing was ever set
/// stands at zero. The view maps every pair (owner, spender) to its allowance.
pub struct AllowanceStore {
    entries: Vec<((Address, Address), U256)>,
}

impl View for AllowanceStore {
    type V = Map<(Address, Address), nat>;

    closed spec fn view(&self) -> Map<(Address, Address), nat> {
        contents(self.entries@)
    }
}

impl AllowanceStore {
    /// The store in which nobody allows anybody anything.
    pub fn new() -> (store: AllowanceStore)
        ensures
            store@ == Map::total(|pair: (Address, Address)| 0nat),
    {
        let store = AllowanceStore { entries: Vec::new() };
        assert(store@ =~= Map::total(|pair: (Address, Address)| 0nat));
        store
    }

    /// The view gives every pair an allowance, and only finitely many of them
    /// more than zero.
    pub proof fn lemma_view_total(&self)
        ensures
            self@.dom() == Set::<(Address, Address)>::full(),
            support(self@).finite(),
    {
        lemma_support_finite(self.entries@);
    }

    /// The place of the entry that speaks for the pair, if there is one.
    fn find(&self, owner: Address, spender: Address) -> (found: Option<usize>)
        ensures
            match found {
                Some(at) => {
                    &&& at < self.entries@.len()
                    &&& self.entries@[at as int].0 == (owner, spender)
                    &&& forall|j: int|
                        at < j < self.entries@.len() ==> self.entries@[j].0 != (owner, spender)
                },
                None => forall|j: int|
                    0 <= j < self.entries@.len() ==> self.entries@[j].0 != (owner, spender),
            },
    {
        let mut i: usize = self.entries.len();
        while i > 0
            invariant
                i <= self.entries@.len(),
                forall|j: int|
                    i <= j < self.entries@.len() ==> self.entries@[j].0 != (owner, spender),
            decreases i,
        {
            i = i - 1;
            if self.entries[i].0.0 == owner && self.entries[i].0.1 == spender {
                return Some(i);
            }
        }
        None
    }

    /// What `owner` allows `spender`.
    pub fn get(&self, owner: Address, spender: Address) -> (amount: U256)
        ensures
            amount@ == self@[(owner, spender)],
    {
        match self.find(owner, spender) {
            Some(at) => {
                proof {
                    lemma_lookup_found(self.entries@, at as int, (owner, spender));
                }
                self.entries[at].1
            },
            None => {
                proof {
                    lemma_lookup_absent(self.entries@, (owner, spender));
                }
                U256::from_u64(0)
            },
        }
    }

    /// Makes `amount` what `owner` allows `spender`, whatever stood there
    /// before, and leaves every other pair.
    pub fn set(&mut self, owner: Address, spender: Address, amount: U256)
        ensures
            final(self)@ == old(self)@.insert((owner, spender), amount@),
    {
        match self.find(owner, spender) {
            Some(at) => {
                proof {
                    lemma_lookup_replace(self.entries@, at as int, (owner, spender), amount);
                }
                self.entries[at] = ((owner, spender), amount);
            },
            None => {
                proof {
                    lemma_lookup_push(self.entries@, (owner, spender), amount);
                }
                self.entries.push(((owner, spender), amount));
            },
        }
    }

    /// Adds `amount` to what `owner` allows `spender`. Fails with `Overflow`,
    /// and changes nothing, exactly where the sum would pass 2^256 - 1.
    pub fn increase(&mut self, owner: Address, spender: Address, amount: U256) -> (done: Result<
        (),
        LedgerError,
    >)
        ensures
            match done {
                Ok(()) => {
                    &&& old(self)@[(owner, spender)] + amount@ <= U256::max_value()
                    &&& final(self)@ == old(self)@.insert(
                        (owner, spender),
                        old(self)@[(owner, spender)] + amount@,
                    )
                },
                Err(e) => {
                    &&& e == LedgerError::Overflow
                    &&& old(self)@[(owner, spender)] + amount@ > U256::max_value()
                    &&& final(self)@ == old(self)@
                },
            },
    {
        let current = self.get(owner, spender);
        match current.checked_add(amount) {
            Some(sum) => {
                self.set(owner, spender, sum);
                Ok(())
            },
            None => Err(LedgerError::Overflow),
        }
    }

    /// Takes `amount` from what `owner` allows `spender`. Fails with
    /// `InsufficientAllowance`, and changes nothing, exactly where the
    /// allowance is less than `amount`.
    pub fn decrease(&mut self, owner: Address, spender: Address, amount: U256) -> (done: Result<
        (),
        LedgerError,
    >)
        ensures
            match done {
                Ok(()) => {
                    &&& amount@ <= old(self)@[(owner, spender)]
                    &&& final(self)@ == old(self)@.insert(
                        (owner, spender),
                        (old(self)@[(owner, spender)] - amount@) as nat,
                    )
                },
                Err(e) => {
                    &&& e == LedgerError::InsufficientAllowance
                    &&& old(self)@[(owner, spender)] < amount@
                    &&& final(self)@ == old(self)@
                },
            },
    {
        let current = self.get(owner, spender);
        if current.lt(amount) {
            return Err(LedgerError::InsufficientAllowance);
        }
        match current.checked_sub(amount) {
            Some(rest) => {
                self.set(owner, spender, rest);
                Ok(())
            },
            None => Err(LedgerError::InsufficientAllowance),
        }
    }
}

} // verus!
