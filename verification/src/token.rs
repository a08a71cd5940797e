//! The token: its fixed metadata and the operations on its ledger.

use crate::address::Address;
use crate::allowance::AllowanceStore;
use crate::balance::BalanceStore;
use crate::error::LedgerError;
use crate::event::{events_view, Event};
use crate::laws::{law_deploy_mints_supply, law_transfer_conserves, law_transfer_from_conserves};
use crate::model::{move_value, total_supply, LedgerView};
use crate::uint::U256;
use vstd::prelude::*;

verus! {

/// The number of tokens in existence from the mint on.
pub const TOTAL_SUPPLY: u128 = 1_000_000_000_000_000_000_000_000;

/// The number of decimal places in which amounts are shown.
pub const DECIMALS: u64 = 18;

/// What a token offers to those who call it. Every operation runs on behalf
/// of the caller that the ledger was given, and a refused operation leaves
/// the ledger as it was.
pub trait ERC20API: View<V = LedgerView> {
    /// The short name of the token.
    fn symbol(&self) -> (text: String)
        ensures
            text@ == "RUSTTK"@,
    ;

    /// The display name of the token.
    fn name(&self) -> (text: String)
        ensures
            text@ == "RustyToken"@,
    ;

    /// The number of decimal places in which amounts are shown.
    fn decimals(&self) -> (places: U256)
        ensures
            places@ == 18,
    ;

    /// The number of tokens in existence from the mint on.
    fn total_supply(&self) -> (supply: U256)
        ensures
            supply@ == total_supply(),
    ;

    /// What `account` owns.
    fn balance_of(&self, account: Address) -> (amount: U256)
        ensures
            amount@ == self@.balances[account],
    ;

    /// Moves `value` from the caller to `to` and emits the transfer. Fails
    /// with `InsufficientBalance` where the caller owns less than `value`,
    /// else with `Overflow` where `to` would then own more than 2^256 - 1.
    fn transfer(&mut self, to: Address, value: U256) -> (done: Result<U256, LedgerError>)
        ensures
            match old(self)@.transfer(to, value@) {
                Ok(next) => done matches Ok(flag) && flag@ == 1 && final(self)@ == next,
                Err(e) => done == Err::<U256, LedgerError>(e) && final(self)@ == old(self)@,
            },
    ;

    /// What `owner` allows `spender` to move on its behalf.
    fn allowance(&self, owner: Address, spender: Address) -> (amount: U256)
        ensures
            amount@ == self@.allowances[(owner, spender)],
    ;

    /// Makes `value` what the caller allows `spender`, and emits the approval.
    fn approve(&mut self, spender: Address, value: U256) -> (flag: U256)
        ensures
            flag@ == 1,
            final(self)@ == old(self)@.approve(spender, value@),
    ;

    /// Moves `value` from `from` to `to` out of what `from` allows the caller,
    /// and emits the transfer. Fails with `InsufficientAllowance` where the
    /// allowance is less than `value`, else with `InsufficientBalance` where
    /// `from` owns less than `value`, else with `Overflow` where `to` would
    /// then own more than 2^256 - 1.
    fn transfer_from(&mut self, from: Address, to: Address, value: U256) -> (done: Result<
        U256,
        LedgerError,
    >)
        ensures
            match old(self)@.transfer_from(from, to, value@) {
                Ok(next) => done matches Ok(flag) && flag@ == 1 && final(self)@ == next,
                Err(e) => done == Err::<U256, LedgerError>(e) && final(self)@ == old(self)@,
            },
    ;
}

/// A token ledger: the two stores, the caller on whose behalf operations run,
/// and the events emitted so far.
pub struct ERC20 {
    caller: Address,
    balances: BalanceStore,
    allowances: AllowanceStore,
    events: Vec<Event>,
}

impl View for ERC20 {
    type V = LedgerView;

    closed spec fn view(&self) -> LedgerView {
        LedgerView {
            caller: self.caller,
            balances: self.balances@,
            allowances: self.allowances@,
            events: events_view(self.events@),
        }
    }
}

impl ERC20 {
    /// A ledger over the given stores, with no event emitted yet.
    pub fn new(caller: Address, balances: BalanceStore, allowances: AllowanceStore) -> (token:
        ERC20)
        ensures
            token@ == (LedgerView {
                caller,
                balances: balances@,
                allowances: allowances@,
                events: Seq::empty(),
            }),
    {
        let token = ERC20 { caller, balances, allowances, events: Vec::new() };
        assert(token@.events =~= Seq::empty());
        token
    }

    /// The state is well formed at all times.
    pub proof fn lemma_well_formed(&self)
        ensures
            self@.well_formed(),
    {
        self.balances.lemma_view_total();
        self.allowances.lemma_view_total();
    }

    /// The account on whose behalf operations run.
    pub fn caller(&self) -> (caller: Address)
        ensures
            caller == self@.caller,
    {
        self.caller
    }

    /// Lets the following operations run on behalf of `caller`.
    pub fn set_caller(&mut self, caller: Address)
        ensures
            final(self)@ == old(self)@.with_caller(caller),
    {
        self.caller = caller;
    }

    /// The events emitted so far, oldest first.
    pub fn events(&self) -> (events: &Vec<Event>)
        ensures
            events_view(events@) == self@.events,
    {
        &self.events
    }

    /// The mint, which belongs at the creation of the ledger and nowhere
    /// else: credits the caller with the whole supply and emits the transfer
    /// from the zero account. Fails with `Overflow`, and changes nothing,
    /// where the caller would then own more than 2^256 - 1.
    pub fn deploy(&mut self) -> (done: Result<(), LedgerError>)
        ensures
            match old(self)@.deploy() {
                Ok(next) => done is Ok && final(self)@ == next,
                Err(e) => done == Err::<(), LedgerError>(e) && final(self)@ == old(self)@,
            },
            (forall|account: Address| old(self)@.balances[account] == 0) ==> {
                &&& done is Ok
                &&& final(self)@.balances[old(self)@.caller] == total_supply()
                &&& final(self)@.total_balance() == total_supply()
                &&& forall|other: Address|
                    other != old(self)@.caller ==> final(self)@.balances[other] == 0
            },
    {
        proof {
            self.lemma_well_formed();
            if forall|account: Address| self@.balances[account] == 0 {
                law_deploy_mints_supply(self@);
            }
        }
        let owner = self.caller;
        let supply = U256::from_u128(TOTAL_SUPPLY);
        match self.balances.credit(owner, supply) {
            Err(e) => Err(e),
            Ok(()) => {
                let nobody = Address::zero();
                self.emit_event(Event::Transfer { from: nobody, to: owner, value: supply });
                Ok(())
            },
        }
    }

    /// Appends `event` to the events emitted so far.
    fn emit_event(&mut self, event: Event)
        ensures
            final(self)@ == (LedgerView { events: old(self)@.events.push(event@), ..old(self)@ }),
    {
        self.events.push(event);
        assert(events_view(self.events@) =~= events_view(old(self).events@).push(event@));
    }

    /// Moves `value` from `from` to `to`: the debit first, then the credit.
    /// Where the credit is refused, the debit is undone.
    fn move_balance(&mut self, from: Address, to: Address, value: U256) -> (done: Result<
        (),
        LedgerError,
    >)
        ensures
            match move_value(old(self)@.balances, from, to, value@) {
                Ok(balances) => done is Ok && final(self)@ == (LedgerView {
                    balances,
                    ..old(self)@
                }),
                Err(e) => done == Err::<(), LedgerError>(e) && final(self)@ == old(self)@,
            },
    {
        proof {
            self.balances.lemma_view_total();
        }
        let held = self.balances.get(from);
        match self.balances.debit(from, value) {
            Err(e) => Err(e),
            Ok(()) => match self.balances.credit(to, value) {
                Ok(()) => Ok(()),
                Err(e) => {
                    self.balances.set(from, held);
                    assert(self.balances@ =~= old(self).balances@);
                    Err(e)
                },
            },
        }
    }
}

impl ERC20API for ERC20 {
    fn symbol(&self) -> (text: String) {
        "RUSTTK".to_owned()
    }

    fn name(&self) -> (text: String) {
        "RustyToken".to_owned()
    }

    fn decimals(&self) -> (places: U256) {
        U256::from_u64(DECIMALS)
    }

    fn total_supply(&self) -> (supply: U256) {
        U256::from_u128(TOTAL_SUPPLY)
    }

    fn balance_of(&self, account: Address) -> (amount: U256) {
        self.balances.get(account)
    }

    fn transfer(&mut self, to: Address, value: U256) -> (done: Result<U256, LedgerError>)
        ensures
            done is Ok ==> final(self)@.total_balance() == old(self)@.total_balance(),
    {
        proof {
            self.lemma_well_formed();
            law_transfer_conserves(self@, to, value@);
        }
        let from = self.caller;
        match self.move_balance(from, to, value) {
            Err(e) => Err(e),
            Ok(()) => {
                self.emit_event(Event::Transfer { from, to, value });
                Ok(U256::from_u64(1))
            },
        }
    }

    fn allowance(&self, owner: Address, spender: Address) -> (amount: U256) {
        self.allowances.get(owner, spender)
    }

    fn approve(&mut self, spender: Address, value: U256) -> (flag: U256) {
        let owner = self.caller;
        self.allowances.set(owner, spender, value);
        self.emit_event(Event::Approval { owner, spender, value });
        U256::from_u64(1)
    }

    fn transfer_from(&mut self, from: Address, to: Address, value: U256) -> (done: Result<
        U256,
        LedgerError,
    >)
        ensures
            done is Ok ==> final(self)@.total_balance() == old(self)@.total_balance(),
    {
        let spender = self.caller;
        proof {
            self.lemma_well_formed();
            law_transfer_from_conserves(self@, from, to, value@);
        }
        let allowed = self.allowances.get(from, spender);
        if allowed.lt(value) {
            return Err(LedgerError::InsufficientAllowance);
        }
        match self.allowances.decrease(from, spender, value) {
            Err(e) => Err(e),
            Ok(()) => match self.move_balance(from, to, value) {
                Err(e) => {
                    self.allowances.set(from, spender, allowed);
                    assert(self.allowances@ =~= old(self).allowances@);
                    Err(e)
                },
                Ok(()) => {
                    self.emit_event(Event::Transfer { from, to, value });
                    Ok(U256::from_u64(1))
                },
            },
        }
    }
}

} // verus!
