//! The ledger as a mathematical state, and each operation as a function from
//! the state before to the state after or to the reason for its refusal.

use crate::address::Address;
use crate::error::LedgerError;
use crate::event::EventView;
use crate::table::{support, total};
use crate::uint::U256;
use vstd::prelude::*;

verus! {

/// The number of tokens in existence from the mint on: 10^24.
pub open spec fn total_supply() -> nat {
    1_000_000_000_000_000_000_000_000
}

/// The balances after `amount` has left `account`, or `InsufficientBalance`
/// where the account owns less.
pub open spec fn debit(balances: Map<Address, nat>, account: Address, amount: nat) -> Result<
    Map<Address, nat>,
    LedgerError,
> {
    if balances[account] < amount {
        Err(LedgerError::InsufficientBalance)
    } else {
        Ok(balances.insert(account, (balances[account] - amount) as nat))
    }
}

/// The balances after `amount` has reached `account`, or `Overflow` where the
/// account would then own more than 2^256 - 1.
pub open spec fn credit(balances: Map<Address, nat>, account: Address, amount: nat) -> Result<
    Map<Address, nat>,
    LedgerError,
> {
    if balances[account] + amount > U256::max_value() {
        Err(LedgerError::Overflow)
    } else {
        Ok(balances.insert(account, balances[account] + amount))
    }
}

/// The balances after `amount` has moved from `from` to `to`: the debit
/// first, then the credit on what the debit left.
pub open spec fn move_value(
    balances: Map<Address, nat>,
    from: Address,
    to: Address,
    amount: nat,
) -> Result<Map<Address, nat>, LedgerError> {
    match debit(balances, from, amount) {
        Err(e) => Err(e),
        Ok(debited) => credit(debited, to, amount),
    }
}

/// The state of a ledger between two operations.
pub struct LedgerView {
    /// The account on whose behalf the next operation runs.
    pub caller: Address,
    /// What each account owns.
    pub balances: Map<Address, nat>,
    /// What each owner allows each spender, by the pair (owner, spender).
    pub allowances: Map<(Address, Address), nat>,
    /// The events emitted so far, oldest first.
    pub events: Seq<EventView>,
}

impl LedgerView {
    /// The ledger in which nothing was ever minted, allowed or emitted.
    pub open spec fn empty(caller: Address) -> LedgerView {
        LedgerView {
            caller,
            balances: Map::total(|account: Address| 0nat),
            allowances: Map::total(|pair: (Address, Address)| 0nat),
            events: Seq::empty(),
        }
    }

    /// Every account has a balance and every pair an allowance, and only
    /// finitely many of either are more than zero.
    pub open spec fn well_formed(self) -> bool {
        &&& self.balances.dom() == Set::<Address>::full()
        &&& self.allowances.dom() == Set::<(Address, Address)>::full()
        &&& support(self.balances).finite()
        &&& support(self.allowances).finite()
    }

    /// The sum of what all accounts own.
    pub open spec fn total_balance(self) -> nat {
        total(self.balances)
    }

    /// The same ledger, seen by another caller.
    pub open spec fn with_caller(self, caller: Address) -> LedgerView {
        LedgerView { caller, ..self }
    }

    /// The mint: the caller is credited with the whole supply, and a transfer
    /// from the zero account says so.
    pub open spec fn deploy(self) -> Result<LedgerView, LedgerError> {
        match credit(self.balances, self.caller, total_supply()) {
            Err(e) => Err(e),
            Ok(balances) => Ok(
                LedgerView {
                    balances,
                    events: self.events.push(
                        EventView::Transfer {
                            from: Address::zero(),
                            to: self.caller,
                            value: total_supply(),
                        },
                    ),
                    ..self
                },
            ),
        }
    }

    /// The caller moves `value` of its own to `to`.
    pub open spec fn transfer(self, to: Address, value: nat) -> Result<LedgerView, LedgerError> {
        match move_value(self.balances, self.caller, to, value) {
            Err(e) => Err(e),
            Ok(balances) => Ok(
                LedgerView {
                    balances,
                    events: self.events.push(
                        EventView::Transfer { from: self.caller, to, value },
                    ),
                    ..self
                },
            ),
        }
    }

    /// The caller allows `spender` exactly `value`, whatever it allowed before.
    pub open spec fn approve(self, spender: Address, value: nat) -> LedgerView {
        LedgerView {
            allowances: self.allowances.insert((self.caller, spender), value),
            events: self.events.push(
                EventView::Approval { owner: self.caller, spender, value },
            ),
            ..self
        }
    }

    /// The caller, as spender, moves `value` from `from` to `to` out of what
    /// `from` allows it. The allowance is looked at before the balance.
    pub open spec fn transfer_from(self, from: Address, to: Address, value: nat) -> Result<
        LedgerView,
        LedgerError,
    > {
        if self.allowances[(from, self.caller)] < value {
            Err(LedgerError::InsufficientAllowance)
        } else {
            match move_value(self.balances, from, to, value) {
                Err(e) => Err(e),
                Ok(balances) => Ok(
                    LedgerView {
                        balances,
                        allowances: self.allowances.insert(
                            (from, self.caller),
                            (self.allowances[(from, self.caller)] - value) as nat,
                        ),
                        events: self.events.push(EventView::Transfer { from, to, value }),
                        ..self
                    },
                ),
            }
        }
    }
}

} // verus!
