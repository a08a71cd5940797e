//! A fungible-token ledger: balances, allowances and the operations that move
//! value between accounts, each with a machine-checked contract.
//!
//! The ledger keeps two stores, one of balances and one of allowances, and
//! changes them only through the operations of [`ERC20API`]. An operation
//! either takes effect as a whole or is refused with a [`LedgerError`] and
//! changes nothing. What the operations do is stated over [`LedgerView`], the
//! ledger as a mathematical state; what holds of every ledger is proved in
//! [`laws`].

pub mod address;
pub mod allowance;
pub mod balance;
pub mod error;
pub mod event;
pub mod laws;
pub mod model;
pub mod table;
pub mod token;
pub mod uint;

pub use crate::address::Address;
pub use crate::allowance::AllowanceStore;
pub use crate::balance::BalanceStore;
pub use crate::error::LedgerError;
pub use crate::event::{Event, LogRecord};
pub use crate::model::LedgerView;
pub use crate::token::{ERC20, ERC20API};
pub use crate::uint::U256;
