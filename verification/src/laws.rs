//! What holds of the ledger whatever is asked of it.

use crate::address::Address;
use crate::error::LedgerError;
use crate::event::EventView;
use crate::model::{total_supply, LedgerView};
use crate::table::{lemma_total_insert, support, total};
use vstd::prelude::*;

verus! {

/// One call on the ledger, with the account that makes it.
pub enum Call {
    Transfer { caller: Address, to: Address, value: nat },
    Approve { caller: Address, spender: Address, value: nat },
    TransferFrom { caller: Address, from: Address, to: Address, value: nat },
}

/// The state after one call. A refused call leaves the state as it was.
pub open spec fn step(state: LedgerView, call: Call) -> LedgerView {
    match call {
        Call::Transfer { caller, to, value } => match state.with_caller(caller).transfer(
            to,
            value,
        ) {
            Ok(next) => next,
            Err(_) => state,
        },
        Call::Approve { caller, spender, value } => state.with_caller(caller).approve(
            spender,
            value,
        ),
        Call::TransferFrom { caller, from, to, value } => match state.with_caller(
            caller,
        ).transfer_from(from, to, value) {
            Ok(next) => next,
            Err(_) => state,
        },
    }
}

/// The state after the calls, made one after the other.
pub open spec fn run(state: LedgerView, calls: Seq<Call>) -> LedgerView
    decreases calls.len(),
{
    if calls.len() == 0 {
        state
    } else {
        step(run(state, calls.drop_last()), calls.last())
    }
}

/// A transfer that succeeds leaves the sum of all balances as it was.
pub proof fn law_transfer_conserves(state: LedgerView, to: Address, value: nat)
    requires
        state.well_formed(),
    ensures
        state.transfer(to, value) matches Ok(next) ==> next.well_formed() && next.total_balance()
            == state.total_balance(),
{
    if state.transfer(to, value) is Ok {
        lemma_move_conserves(state.balances, state.caller, to, value);
    }
}

/// A transfer on behalf of an owner that succeeds leaves the sum of all
/// balances as it was.
pub proof fn law_transfer_from_conserves(
    state: LedgerView,
    from: Address,
    to: Address,
    value: nat,
)
    requires
        state.well_formed(),
    ensures
        state.transfer_from(from, to, value) matches Ok(next) ==> next.well_formed()
            && next.total_balance() == state.total_balance(),
{
    if state.transfer_from(from, to, value) is Ok {
        lemma_move_conserves(state.balances, from, to, value);
        lemma_total_insert(
            state.allowances,
            (from, state.caller),
            (state.allowances[(from, state.caller)] - value) as nat,
        );
        let next = state.transfer_from(from, to, value).unwrap();
        assert(next.allowances.dom() =~= Set::<(Address, Address)>::full());
    }
}

/// Moving an amount between two accounts leaves the sum of all balances as
/// it was.
proof fn lemma_move_conserves(balances: Map<Address, nat>, from: Address, to: Address, value: nat)
    requires
        balances.dom() == Set::<Address>::full(),
        support(balances).finite(),
        balances[from] >= value,
    ensures
        ({
            let debited = balances.insert(from, (balances[from] - value) as nat);
            let credited = debited.insert(to, debited[to] + value);
            &&& credited.dom() == Set::<Address>::full()
            &&& support(credited).finite()
            &&& total(credited) == total(balances)
        }),
{
    let debited = balances.insert(from, (balances[from] - value) as nat);
    lemma_total_insert(balances, from, (balances[from] - value) as nat);
    lemma_total_insert(debited, to, debited[to] + value);
    let credited = debited.insert(to, debited[to] + value);
    assert(credited.dom() =~= Set::<Address>::full());
}

/// No call changes the sum of all balances, whether it succeeds or not.
pub proof fn law_step_conserves(state: LedgerView, call: Call)
    requires
        state.well_formed(),
    ensures
        step(state, call).well_formed(),
        step(state, call).total_balance() == state.total_balance(),
{
    match call {
        Call::Transfer { caller, to, value } => {
            law_transfer_conserves(state.with_caller(caller), to, value);
        },
        Call::Approve { caller, spender, value } => {
            lemma_total_insert(state.allowances, (caller, spender), value);
            assert(step(state, call).allowances.dom() =~= Set::<(Address, Address)>::full());
        },
        Call::TransferFrom { caller, from, to, value } => {
            law_transfer_from_conserves(state.with_caller(caller), from, to, value);
        },
    }
}

/// Conservation: from the mint on, whatever calls are made and by whom, the
/// balances of all accounts add up to the total supply.
pub proof fn law_conservation(deployer: Address, calls: Seq<Call>)
    ensures
        LedgerView::empty(deployer).deploy() matches Ok(minted) && run(minted, calls).well_formed()
            && run(minted, calls).total_balance() == total_supply(),
    decreases calls.len(),
{
    let fresh = LedgerView::empty(deployer);
    assert(support(fresh.balances) =~= Set::<Address>::empty());
    assert(support(fresh.allowances) =~= Set::<(Address, Address)>::empty());
    law_deploy_mints_supply(fresh);
    let minted = fresh.deploy().unwrap();
    if calls.len() > 0 {
        law_conservation(deployer, calls.drop_last());
        law_step_conserves(run(minted, calls.drop_last()), calls.last());
    }
}

/// No balance and no allowance is ever below zero, and a debit that succeeds
/// takes no more than the account owned.
pub proof fn law_amounts_never_negative(
    state: LedgerView,
    call: Call,
    account: Address,
    owner: Address,
    spender: Address,
)
    ensures
        step(state, call).balances[account] as int >= 0,
        step(state, call).allowances[(owner, spender)] as int >= 0,
        call matches Call::Transfer { caller, to, value } ==> (state.with_caller(caller).transfer(
            to,
            value,
        ) is Ok ==> state.balances[caller] - value >= 0),
        call matches Call::TransferFrom { caller, from, to, value } ==> (state.with_caller(
            caller,
        ).transfer_from(from, to, value) is Ok ==> state.balances[from] - value >= 0
            && state.allowances[(from, caller)] - value >= 0),
{
}

/// Atomic abort: a transfer of more than the caller owns is refused as
/// `InsufficientBalance`, and the refused call leaves every balance, every
/// allowance and the list of events as they were.
pub proof fn law_refused_transfer_changes_nothing(state: LedgerView, to: Address, value: nat)
    requires
        value > state.balances[state.caller],
    ensures
        state.transfer(to, value) == Err::<LedgerView, LedgerError>(
            LedgerError::InsufficientBalance,
        ),
        step(state, Call::Transfer { caller: state.caller, to, value }) == state,
{
    assert(state.with_caller(state.caller) == state);
}

/// Overwrite, not accumulation: after two approvals of the same spender the
/// allowance is the second amount, whatever the first was.
pub proof fn law_approve_overwrites(state: LedgerView, spender: Address, first: nat, second: nat)
    ensures
        state.approve(spender, first).approve(spender, second).allowances[(state.caller, spender)]
            == second,
{
}

/// Ordering: where the allowance is too small the transfer on behalf of an
/// owner is refused as `InsufficientAllowance`, whatever the balance; where
/// the allowance suffices and the balance does not, it is refused as
/// `InsufficientBalance`. Either way the allowance stays as it was.
pub proof fn law_allowance_checked_before_balance(
    state: LedgerView,
    from: Address,
    to: Address,
    value: nat,
)
    ensures
        state.allowances[(from, state.caller)] < value ==> state.transfer_from(from, to, value)
            == Err::<LedgerView, LedgerError>(LedgerError::InsufficientAllowance),
        state.allowances[(from, state.caller)] >= value && state.balances[from] < value
            ==> state.transfer_from(from, to, value) == Err::<LedgerView, LedgerError>(
            LedgerError::InsufficientBalance,
        ),
        state.transfer_from(from, to, value) is Err ==> step(
            state,
            Call::TransferFrom { caller: state.caller, from, to, value },
        ).allowances[(from, state.caller)] == state.allowances[(from, state.caller)],
{
    assert(state.with_caller(state.caller) == state);
}

/// Mint: on a ledger in which nobody owns anything the mint succeeds, leaves
/// the deployer with the total supply and every other account with zero.
pub proof fn law_deploy_mints_supply(state: LedgerView)
    requires
        state.well_formed(),
        forall|account: Address| state.balances[account] == 0,
    ensures
        state.deploy() matches Ok(minted) && minted.well_formed() && minted.balances[state.caller]
            == total_supply() && minted.total_balance() == total_supply() && forall|
            other: Address,
        |
            other != state.caller ==> minted.balances[other] == 0,
{
    assert(support(state.balances) =~= Set::<Address>::empty());
    lemma_total_insert(state.balances, state.caller, total_supply());
    let minted = state.deploy().unwrap();
    assert(minted.balances.dom() =~= Set::<Address>::full());
}

/// Events: a transfer that succeeds adds exactly one event to those emitted
/// before, and it is the transfer of `value` from the caller to `to`.
pub proof fn law_transfer_emits_one_transfer(state: LedgerView, to: Address, value: nat)
    ensures
        state.transfer(to, value) matches Ok(next) ==> next.events.len() == state.events.len() + 1
            && next.events.drop_last() == state.events && next.events.last()
            == (EventView::Transfer { from: state.caller, to, value }),
{
    if state.transfer(to, value) is Ok {
        let next = state.transfer(to, value).unwrap();
        assert(next.events.drop_last() =~= state.events);
    }
}

/// Events are only ever added: a call leaves the events emitted before it
/// in their places, and adds one event where it succeeds and none where it
/// is refused. An approval adds an `Approval`, the other calls a `Transfer`.
pub proof fn law_events_append_only(state: LedgerView, call: Call)
    ensures
        step(state, call).events == state.events || (step(state, call).events.drop_last()
            == state.events && step(state, call).events.len() == state.events.len() + 1),
        step(state, call).events != state.events ==> (call is Approve <==> step(
            state,
            call,
        ).events.last() is Approval),
{
    let after = step(state, call).events;
    if after != state.events {
        assert(after.drop_last() =~= state.events);
    }
}

} // verus!
