//! The ways a ledger operation can fail.

use vstd::prelude::*;

verus! {

/// Why an operation was refused. A refused operation changes nothing.
#[derive(Clone, Copy, Debug, PartialEq, Eq, Structural)]
pub enum LedgerError {
    /// A debit asked for more than the account holds.
    InsufficientBalance,
    /// A spender asked for more than the owner has allowed it.
    InsufficientAllowance,
    /// A credit would take an amount past 2^256 - 1.
    Overflow,
}

impl LedgerError {
    /// The text that names this failure to a person.
    pub open spec fn spec_message(self) -> Seq<char> {
        match self {
            LedgerError::InsufficientBalance => "insufficient balance"@,
            LedgerError::InsufficientAllowance => "insufficient allowance"@,
            LedgerError::Overflow => "overflow"@,
        }
    }

    /// The text that names this failure to a person.
    pub fn message(&self) -> (text: &'static str)
        ensures
            text@ == self.spec_message(),
    {
        match self {
            LedgerError::InsufficientBalance => "insufficient balance",
            LedgerError::InsufficientAllowance => "insufficient allowance",
            LedgerError::Overflow => "overflow",
        }
    }
}

} // verus!
