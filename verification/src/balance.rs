//! The balance store: how much each account owns.

use crate::address::Address;
use crate::error::LedgerError;
use crate::table::{contents, lemma_lookup_absent, lemma_lookup_found, lemma_lookup_push,
    lemma_lookup_replace, lemma_support_finite, support};
use crate::uint::U256;
use vstd::prelude::*;

verus! {

/// What each account owns. An account that was never credited owns zero. The
/// view maps every account to its balance.
pub struct BalanceStore {
    entries: Vec<(Address, U256)>,
}

impl View for BalanceStore {
    type V = Map<Address, nat>;

    closed spec fn view(&self) -> Map<Address, nat> {
        contents(self.entries@)
    }
}

impl BalanceStore {
    /// The store in which every account owns zero.
    pub fn new() -> (store: BalanceStore)
        ensures
            store@ == Map::total(|account: Address| 0nat),
    {
        let store = BalanceStore { entries: Vec::new() };
        assert(store@ =~= Map::total(|account: Address| 0nat));
        store
    }

    /// The view gives every account a balance, and only finitely many of them
    /// more than zero.
    pub proof fn lemma_view_total(&self)
        ensures
            self@.dom() == Set::<Address>::full(),
            support(self@).finite(),
    {
        lemma_support_finite(self.entries@);
    }

    /// The place of the entry that speaks for `account`, if there is one.
    fn find(&self, account: Address) -> (found: Option<usize>)
        ensures
            match found {
                Some(at) => {
                    &&& at < self.entries@.len()
                    &&& self.entries@[at as int].0 == account
                    &&& forall|j: int|
                        at < j < self.entries@.len() ==> self.entries@[j].0 != account
                },
                None => forall|j: int|
                    0 <= j < self.entries@.len() ==> self.entries@[j].0 != account,
            },
    {
        let mut i: usize = self.entries.len();
        while i > 0
            invariant
                i <= self.entries@.len(),
                forall|j: int| i <= j < self.entries@.len() ==> self.entries@[j].0 != account,
            decreases i,
        {
            i = i - 1;
            if self.entries[i].0 == account {
                return Some(i);
            }
        }
        None
    }

    /// Makes `amount` the balance of `account`, whatever it was before, and
    /// leaves every other balance.
    pub fn set(&mut self, account: Address, amount: U256)
        ensures
            final(self)@ == old(self)@.insert(account, amount@),
    {
        match self.find(account) {
            Some(at) => {
                proof {
                    lemma_lookup_replace(self.entries@, at as int, account, amount);
                }
                self.entries[at] = (account, amount);
            },
            None => {
                proof {
                    lemma_lookup_push(self.entries@, account, amount);
                }
                self.entries.push((account, amount));
            },
        }
    }

    /// The balance of `account`.
    pub fn get(&self, account: Address) -> (amount: U256)
        ensures
            amount@ == self@[account],
    {
        match self.find(account) {
            Some(at) => {
                proof {
                    lemma_lookup_found(self.entries@, at as int, account);
                }
                self.entries[at].1
            },
            None => {
                proof {
                    lemma_lookup_absent(self.entries@, account);
                }
                U256::from_u64(0)
            },
        }
    }

    /// Adds `amount` to the balance of `account`. Fails with `Overflow`, and
    /// changes nothing, exactly where the new balance would pass 2^256 - 1.
    pub fn credit(&mut self, account: Address, amount: U256) -> (done: Result<(), LedgerError>)
        ensures
            match done {
                Ok(()) => {
                    &&& old(self)@[account] + amount@ <= U256::max_value()
                    &&& final(self)@ == old(self)@.insert(account, old(self)@[account] + amount@)
                },
                Err(e) => {
                    &&& e == LedgerError::Overflow
                    &&& old(self)@[account] + amount@ > U256::max_value()
                    &&& final(self)@ == old(self)@
                },
            },
    {
        let current = self.get(account);
        match current.checked_add(amount) {
            Some(sum) => {
                self.set(account, sum);
                Ok(())
            },
            None => Err(LedgerError::Overflow),
        }
    }

    /// Takes `amount` from the balance of `account`. Fails with
    /// `InsufficientBalance`, and changes nothing, exactly where the account
    /// owns less than `amount`.
    pub fn debit(&mut self, account: Address, amount: U256) -> (done: Result<(), LedgerError>)
        ensures
            match done {
                Ok(()) => {
                    &&& amount@ <= old(self)@[account]
                    &&& final(self)@ == old(self)@.insert(
                        account,
                        (old(self)@[account] - amount@) as nat,
                    )
                },
                Err(e) => {
                    &&& e == LedgerError::InsufficientBalance
                    &&& old(self)@[account] < amount@
                    &&& final(self)@ == old(self)@
                },
            },
    {
        let current = self.get(account);
        if current.lt(amount) {
            return Err(LedgerError::InsufficientBalance);
        }
        match current.checked_sub(amount) {
            Some(rest) => {
                self.set(account, rest);
                Ok(())
            },
            None => Err(LedgerError::InsufficientBalance),
        }
    }
}

} // verus!
