use rust_token::{Address, AllowanceStore, BalanceStore, Event, LedgerError, ERC20, ERC20API, U256};

const SUPPLY: u128 = 1_000_000_000_000_000_000_000_000;

fn account(n: u8) -> Address {
    let mut bytes = [0u8; 20];
    bytes[19] = n;
    Address::new(bytes)
}

fn amount(x: u128) -> U256 {
    U256::from_u128(x)
}

fn max_amount() -> U256 {
    U256::from_limbs([u64::MAX; 4])
}

/// A ledger that `deployer` has just minted.
fn minted(deployer: Address) -> ERC20 {
    let mut token = ERC20::new(deployer, BalanceStore::new(), AllowanceStore::new());
    assert_eq!(token.deploy(), Ok(()));
    token
}

#[test]
fn deploy_credits_deployer_with_total_supply() {
    let token = minted(account(1));
    assert_eq!(token.balance_of(account(1)), token.total_supply());
    assert_eq!(token.balance_of(account(1)), amount(SUPPLY));
}

#[test]
fn deploy_leaves_every_other_account_at_zero() {
    let token = minted(account(1));
    for n in 2..=40u8 {
        assert_eq!(token.balance_of(account(n)), amount(0));
    }
    assert_eq!(token.balance_of(Address::zero()), amount(0));
}

#[test]
fn deploy_emits_the_mint_as_a_transfer_from_the_zero_account() {
    let token = minted(account(1));
    assert_eq!(
        token.events(),
        &vec![Event::Transfer { from: Address::zero(), to: account(1), value: amount(SUPPLY) }]
    );
}

#[test]
fn deploy_that_would_overflow_is_refused_and_changes_nothing() {
    let mut balances = BalanceStore::new();
    balances.set(account(1), max_amount());
    let mut token = ERC20::new(account(1), balances, AllowanceStore::new());
    assert_eq!(token.deploy(), Err(LedgerError::Overflow));
    assert_eq!(token.balance_of(account(1)), max_amount());
    assert!(token.events().is_empty());
}

#[test]
fn new_ledger_keeps_the_stores_it_was_given() {
    let mut balances = BalanceStore::new();
    balances.set(account(3), amount(12));
    let mut allowances = AllowanceStore::new();
    allowances.set(account(3), account(4), amount(5));
    let token = ERC20::new(account(9), balances, allowances);
    assert_eq!(token.caller(), account(9));
    assert_eq!(token.balance_of(account(3)), amount(12));
    assert_eq!(token.allowance(account(3), account(4)), amount(5));
    assert_eq!(token.allowance(account(4), account(3)), amount(0));
    assert!(token.events().is_empty());
}

#[test]
fn transfer_moves_value_and_reports_success() {
    let mut token = minted(account(1));
    assert_eq!(token.transfer(account(2), amount(250)), Ok(U256::from_u64(1)));
    assert_eq!(token.balance_of(account(1)), amount(SUPPLY - 250));
    assert_eq!(token.balance_of(account(2)), amount(250));
}

#[test]
fn transfers_keep_the_sum_of_balances_at_the_total_supply() {
    let mut token = minted(account(1));
    assert!(token.transfer(account(2), amount(1_000)).is_ok());
    assert!(token.transfer(account(3), amount(SUPPLY / 3)).is_ok());
    token.set_caller(account(2));
    assert!(token.transfer(account(3), amount(999)).is_ok());
    assert!(token.approve(account(1), amount(1)) == U256::from_u64(1));
    token.set_caller(account(1));
    assert!(token.transfer_from(account(2), account(4), amount(1)).is_ok());
    token.set_caller(account(3));
    assert!(token.transfer(account(1), amount(5)).is_ok());
    let held = [
        SUPPLY - 1_000 - SUPPLY / 3 + 5,
        0,
        SUPPLY / 3 + 999 - 5,
        1,
    ];
    let mut sum = 0u128;
    for (i, expected) in held.iter().enumerate() {
        assert_eq!(token.balance_of(account(i as u8 + 1)), amount(*expected));
        sum += *expected;
    }
    assert_eq!(amount(sum), token.total_supply());
}

#[test]
fn transfer_of_more_than_the_balance_is_refused_and_changes_nothing() {
    let mut token = minted(account(1));
    assert!(token.transfer(account(2), amount(7)).is_ok());
    token.set_caller(account(2));
    let events_before = token.events().clone();
    assert_eq!(token.transfer(account(3), amount(8)), Err(LedgerError::InsufficientBalance));
    assert_eq!(token.balance_of(account(2)), amount(7));
    assert_eq!(token.balance_of(account(3)), amount(0));
    assert_eq!(token.balance_of(account(1)), amount(SUPPLY - 7));
    assert_eq!(token.events(), &events_before);
}

#[test]
fn transfer_from_an_account_that_owns_nothing_is_refused() {
    let mut token = ERC20::new(account(5), BalanceStore::new(), AllowanceStore::new());
    assert_eq!(token.transfer(account(6), amount(1)), Err(LedgerError::InsufficientBalance));
    assert!(token.events().is_empty());
}

#[test]
fn transfer_of_the_whole_balance_leaves_zero() {
    let mut token = minted(account(1));
    assert!(token.transfer(account(2), amount(SUPPLY)).is_ok());
    assert_eq!(token.balance_of(account(1)), amount(0));
    assert_eq!(token.balance_of(account(2)), amount(SUPPLY));
    assert_eq!(token.transfer(account(2), amount(1)), Err(LedgerError::InsufficientBalance));
}

#[test]
fn transfer_of_zero_succeeds_and_is_emitted() {
    let mut token = ERC20::new(account(5), BalanceStore::new(), AllowanceStore::new());
    assert_eq!(token.transfer(account(6), amount(0)), Ok(U256::from_u64(1)));
    assert_eq!(token.balance_of(account(5)), amount(0));
    assert_eq!(token.balance_of(account(6)), amount(0));
    assert_eq!(
        token.events(),
        &vec![Event::Transfer { from: account(5), to: account(6), value: amount(0) }]
    );
}

#[test]
fn transfer_to_oneself_keeps_the_balance() {
    let mut token = minted(account(1));
    assert!(token.transfer(account(1), amount(SUPPLY)).is_ok());
    assert_eq!(token.balance_of(account(1)), amount(SUPPLY));
}

#[test]
fn transfer_to_oneself_of_the_largest_amount_does_not_overflow() {
    let mut balances = BalanceStore::new();
    balances.set(account(1), max_amount());
    let mut token = ERC20::new(account(1), balances, AllowanceStore::new());
    assert_eq!(token.transfer(account(1), max_amount()), Ok(U256::from_u64(1)));
    assert_eq!(token.balance_of(account(1)), max_amount());
}

#[test]
fn transfer_that_would_overflow_the_receiver_is_refused_and_undone() {
    let mut balances = BalanceStore::new();
    balances.set(account(1), amount(10));
    balances.set(account(2), max_amount());
    let mut token = ERC20::new(account(1), balances, AllowanceStore::new());
    assert_eq!(token.transfer(account(2), amount(1)), Err(LedgerError::Overflow));
    assert_eq!(token.balance_of(account(1)), amount(10));
    assert_eq!(token.balance_of(account(2)), max_amount());
    assert!(token.events().is_empty());
}

#[test]
fn transfer_emits_exactly_one_transfer_and_no_approval() {
    let mut token = minted(account(1));
    let before = token.events().len();
    assert!(token.transfer(account(2), amount(7)).is_ok());
    let events = token.events();
    assert_eq!(events.len(), before + 1);
    assert_eq!(
        events[before],
        Event::Transfer { from: account(1), to: account(2), value: amount(7) }
    );
    let approvals = events.iter().filter(|e| matches!(e, Event::Approval { .. })).count();
    assert_eq!(approvals, 0);
}

#[test]
fn approve_overwrites_the_previous_allowance() {
    let mut token = minted(account(1));
    assert_eq!(token.approve(account(2), amount(50)), U256::from_u64(1));
    assert_eq!(token.allowance(account(1), account(2)), amount(50));
    assert_eq!(token.approve(account(2), amount(30)), U256::from_u64(1));
    assert_eq!(token.allowance(account(1), account(2)), amount(30));
}

#[test]
fn approve_is_per_owner_and_per_spender() {
    let mut token = minted(account(1));
    token.approve(account(2), amount(50));
    assert_eq!(token.allowance(account(2), account(1)), amount(0));
    assert_eq!(token.allowance(account(1), account(3)), amount(0));
    token.set_caller(account(3));
    token.approve(account(2), amount(9));
    assert_eq!(token.allowance(account(1), account(2)), amount(50));
    assert_eq!(token.allowance(account(3), account(2)), amount(9));
}

#[test]
fn approve_needs_no_balance_and_emits_an_approval() {
    let mut token = ERC20::new(account(7), BalanceStore::new(), AllowanceStore::new());
    assert_eq!(token.approve(account(8), max_amount()), U256::from_u64(1));
    assert_eq!(token.allowance(account(7), account(8)), max_amount());
    assert_eq!(
        token.events(),
        &vec![Event::Approval { owner: account(7), spender: account(8), value: max_amount() }]
    );
}

#[test]
fn transfer_from_spends_the_allowance_and_moves_the_value() {
    let mut token = minted(account(1));
    token.approve(account(2), amount(100));
    token.set_caller(account(2));
    assert_eq!(token.transfer_from(account(1), account(3), amount(40)), Ok(U256::from_u64(1)));
    assert_eq!(token.allowance(account(1), account(2)), amount(60));
    assert_eq!(token.balance_of(account(1)), amount(SUPPLY - 40));
    assert_eq!(token.balance_of(account(3)), amount(40));
    assert_eq!(token.balance_of(account(2)), amount(0));
    assert_eq!(
        token.events().last(),
        Some(&Event::Transfer { from: account(1), to: account(3), value: amount(40) })
    );
    assert_eq!(token.events().len(), 3);
}

#[test]
fn transfer_from_checks_the_allowance_before_the_balance() {
    let mut balances = BalanceStore::new();
    balances.set(account(1), amount(10));
    let mut allowances = AllowanceStore::new();
    allowances.set(account(1), account(2), amount(100));
    let mut token = ERC20::new(account(2), balances, allowances);
    assert_eq!(
        token.transfer_from(account(1), account(3), amount(50)),
        Err(LedgerError::InsufficientBalance)
    );
    assert_eq!(token.allowance(account(1), account(2)), amount(100));
    assert_eq!(token.balance_of(account(1)), amount(10));
    assert_eq!(token.balance_of(account(3)), amount(0));
    assert!(token.events().is_empty());
}

#[test]
fn transfer_from_beyond_the_allowance_is_refused_whatever_the_balance() {
    let mut token = minted(account(1));
    token.approve(account(2), amount(5));
    token.set_caller(account(2));
    assert_eq!(
        token.transfer_from(account(1), account(3), amount(6)),
        Err(LedgerError::InsufficientAllowance)
    );
    // neither allowance nor balance suffices: the allowance is named
    assert_eq!(
        token.transfer_from(account(4), account(3), amount(6)),
        Err(LedgerError::InsufficientAllowance)
    );
    assert_eq!(token.allowance(account(1), account(2)), amount(5));
    assert_eq!(token.balance_of(account(1)), amount(SUPPLY));
    assert_eq!(token.events().len(), 2);
}

#[test]
fn transfer_from_that_would_overflow_restores_allowance_and_balance() {
    let mut balances = BalanceStore::new();
    balances.set(account(1), amount(10));
    balances.set(account(3), max_amount());
    let mut allowances = AllowanceStore::new();
    allowances.set(account(1), account(2), amount(8));
    let mut token = ERC20::new(account(2), balances, allowances);
    assert_eq!(token.transfer_from(account(1), account(3), amount(4)), Err(LedgerError::Overflow));
    assert_eq!(token.allowance(account(1), account(2)), amount(8));
    assert_eq!(token.balance_of(account(1)), amount(10));
    assert_eq!(token.balance_of(account(3)), max_amount());
    assert!(token.events().is_empty());
}

#[test]
fn transfer_from_of_the_whole_allowance_leaves_none() {
    let mut token = minted(account(1));
    token.approve(account(2), amount(3));
    token.set_caller(account(2));
    assert!(token.transfer_from(account(1), account(2), amount(3)).is_ok());
    assert_eq!(token.allowance(account(1), account(2)), amount(0));
    assert_eq!(
        token.transfer_from(account(1), account(2), amount(1)),
        Err(LedgerError::InsufficientAllowance)
    );
    assert_eq!(token.balance_of(account(2)), amount(3));
}

#[test]
fn an_owner_needs_an_allowance_to_spend_from_itself() {
    let mut token = minted(account(1));
    assert_eq!(
        token.transfer_from(account(1), account(2), amount(1)),
        Err(LedgerError::InsufficientAllowance)
    );
    token.approve(account(1), amount(1));
    assert!(token.transfer_from(account(1), account(2), amount(1)).is_ok());
    assert_eq!(token.balance_of(account(2)), amount(1));
}

#[test]
fn set_caller_changes_who_acts_and_nothing_else() {
    let mut token = minted(account(1));
    token.set_caller(account(2));
    assert_eq!(token.caller(), account(2));
    assert_eq!(token.balance_of(account(1)), amount(SUPPLY));
    assert_eq!(token.events().len(), 1);
    assert_eq!(token.transfer(account(1), amount(1)), Err(LedgerError::InsufficientBalance));
}

#[test]
fn symbol_is_rusttk() {
    let token = minted(account(1));
    assert_eq!(token.symbol(), "RUSTTK");
}

#[test]
fn name_is_rusty_token() {
    let token = minted(account(1));
    assert_eq!(token.name(), "RustyToken");
}

#[test]
fn decimals_is_eighteen() {
    let token = minted(account(1));
    assert_eq!(token.decimals(), U256::from_u64(18));
}

#[test]
fn total_supply_is_ten_to_the_twenty_fourth() {
    let token = ERC20::new(account(1), BalanceStore::new(), AllowanceStore::new());
    assert_eq!(token.total_supply(), amount(10u128.pow(24)));
    assert_eq!(rust_token::token::TOTAL_SUPPLY, 10u128.pow(24));
    assert_eq!(rust_token::token::DECIMALS, 18);
}

#[test]
fn a_refused_debit_does_not_wrap_below_zero() {
    let mut token = minted(account(1));
    assert!(token.transfer(account(2), amount(3)).is_ok());
    token.set_caller(account(2));
    token.approve(account(3), amount(2));
    assert_eq!(token.transfer(account(1), amount(4)), Err(LedgerError::InsufficientBalance));
    assert_eq!(token.balance_of(account(2)), amount(3));
    token.set_caller(account(3));
    assert_eq!(
        token.transfer_from(account(2), account(1), amount(3)),
        Err(LedgerError::InsufficientAllowance)
    );
    assert_eq!(token.allowance(account(2), account(3)), amount(2));
    assert!(token.balance_of(account(2)).lt(amount(4)));
    assert!(token.allowance(account(2), account(3)).lt(amount(3)));
}
