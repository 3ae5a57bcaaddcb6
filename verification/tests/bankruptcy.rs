use marginfi::bankruptcy::{
    find_lending_account_balance, lending_pool_handle_bankruptcy, settle_bad_debt, Balance,
    BankruptcyError, BankruptcySettlement,
};
use marginfi::error::MarginfiError;
use marginfi::fixed_point::WrappedI80F48;
use marginfi::pubkey::Pubkey;

const ONE: i128 = 1 << 48;

fn w(value: i128) -> WrappedI80F48 {
    WrappedI80F48 { value }
}

fn key(b: u8) -> Pubkey {
    let mut bytes = [0u8; 32];
    bytes[31] = b;
    Pubkey::new_from_array(bytes)
}

fn balance(active: bool, bank: u8, shares: i128) -> Balance {
    Balance { active, bank_pk: key(bank), liability_shares: w(shares) }
}

#[test]
fn insurance_covers_all_of_a_small_debt() {
    let s = settle_bad_debt(w(40 * ONE), 100).unwrap();
    assert_eq!(
        s,
        BankruptcySettlement {
            bad_debt: w(40 * ONE),
            covered_by_insurance: w(40 * ONE),
            insurance_transfer_amount: 40,
            socialized_loss: w(0),
        }
    );
}

#[test]
fn depositors_bear_what_insurance_cannot() {
    let s = settle_bad_debt(w(150 * ONE + ONE / 2), 100).unwrap();
    assert_eq!(s.covered_by_insurance, w(100 * ONE));
    assert_eq!(s.insurance_transfer_amount, 100);
    assert_eq!(s.socialized_loss, w(50 * ONE + ONE / 2));
    assert_eq!(s.bad_debt, w(150 * ONE + ONE / 2));
}

#[test]
fn fractional_debt_moves_whole_tokens() {
    let s = settle_bad_debt(w(10 * ONE + ONE / 2), 100).unwrap();
    assert_eq!(s.covered_by_insurance, w(10 * ONE + ONE / 2));
    assert_eq!(s.insurance_transfer_amount, 10);
    assert_eq!(s.socialized_loss, w(0));
}

#[test]
fn empty_insurance_fund_socializes_everything() {
    let s = settle_bad_debt(w(7 * ONE), 0).unwrap();
    assert_eq!(s.covered_by_insurance, w(0));
    assert_eq!(s.insurance_transfer_amount, 0);
    assert_eq!(s.socialized_loss, w(7 * ONE));
}

#[test]
fn more_insurance_leaves_less_to_depositors() {
    let less = settle_bad_debt(w(90 * ONE), 30).unwrap();
    let more = settle_bad_debt(w(90 * ONE), 60).unwrap();
    assert_eq!(less.socialized_loss, w(60 * ONE));
    assert_eq!(more.socialized_loss, w(30 * ONE));
}

#[test]
fn balance_without_debt_is_refused() {
    assert_eq!(
        settle_bad_debt(w(0), 100),
        Err(MarginfiError::BalanceNotBadDebt)
    );
    assert_eq!(
        settle_bad_debt(w(-ONE), 100),
        Err(MarginfiError::BalanceNotBadDebt)
    );
}

#[test]
fn tiny_debt_is_bad_debt() {
    let s = settle_bad_debt(w(1), 5).unwrap();
    assert_eq!(s.covered_by_insurance, w(1));
    assert_eq!(s.insurance_transfer_amount, 0);
    assert_eq!(s.socialized_loss, w(0));
}

#[test]
fn finds_first_active_balance_of_the_bank() {
    let balances = [
        balance(false, 7, 1),
        balance(true, 3, 2),
        balance(true, 7, 3),
        balance(true, 7, 4),
    ];
    assert_eq!(find_lending_account_balance(&balances, &key(7)), Ok(2));
    assert_eq!(find_lending_account_balance(&balances, &key(3)), Ok(1));
}

#[test]
fn missing_balance_is_refused() {
    let balances = [balance(false, 7, 1), balance(true, 3, 2)];
    assert_eq!(
        find_lending_account_balance(&balances, &key(7)),
        Err(MarginfiError::LendingAccountBalanceNotFound)
    );
    assert_eq!(
        find_lending_account_balance(&[], &key(7)),
        Err(MarginfiError::LendingAccountBalanceNotFound)
    );
}

#[test]
fn keys_compare_by_bytes() {
    assert!(key(1) == key(1));
    assert!(key(1) != key(2));
    let mut bytes = [9u8; 32];
    let a = Pubkey::new_from_array(bytes);
    bytes[0] = 8;
    let b = Pubkey::new_from_array(bytes);
    assert!(a != b);
    assert_eq!(a.to_bytes(), [9u8; 32]);
}

/// Prices liability shares one to one, as a bank whose liability share value is one.
fn at_par(shares: WrappedI80F48) -> Result<WrappedI80F48, String> {
    Ok(shares)
}

#[test]
fn handler_settles_the_first_balance_of_the_bank() {
    let balances = [balance(true, 3, 5 * ONE), balance(true, 7, 150 * ONE), balance(true, 7, ONE)];
    let (index, s) = lending_pool_handle_bankruptcy(&balances, &key(7), at_par, 100).unwrap();
    assert_eq!(index, 1);
    assert_eq!(
        s,
        BankruptcySettlement {
            bad_debt: w(150 * ONE),
            covered_by_insurance: w(100 * ONE),
            insurance_transfer_amount: 100,
            socialized_loss: w(50 * ONE),
        }
    );
}

#[test]
fn handler_refuses_a_missing_balance_before_pricing() {
    let balances = [balance(false, 7, 5 * ONE), balance(true, 3, 5 * ONE)];
    let r = lending_pool_handle_bankruptcy(
        &balances,
        &key(7),
        |_shares: WrappedI80F48| -> Result<WrappedI80F48, String> {
            panic!("no balance to price")
        },
        100,
    );
    assert_eq!(
        r,
        Err(BankruptcyError::Marginfi(MarginfiError::LendingAccountBalanceNotFound))
    );
}

#[test]
fn handler_refuses_a_balance_without_debt() {
    let balances = [balance(true, 7, 0)];
    let r = lending_pool_handle_bankruptcy(&balances, &key(7), at_par, 100);
    assert_eq!(r, Err(BankruptcyError::Marginfi(MarginfiError::BalanceNotBadDebt)));
}

#[test]
fn handler_passes_on_a_pricing_error() {
    let balances = [balance(true, 7, 9 * ONE)];
    let r = lending_pool_handle_bankruptcy(
        &balances,
        &key(7),
        |shares: WrappedI80F48| -> Result<WrappedI80F48, String> {
            Err(format!("cannot price {}", shares.value))
        },
        100,
    );
    assert_eq!(r, Err(BankruptcyError::Pricing(format!("cannot price {}", 9 * ONE))));
}

#[test]
fn handler_prices_the_found_shares() {
    let balances = [balance(true, 7, 4 * ONE)];
    let (index, s) = lending_pool_handle_bankruptcy(
        &balances,
        &key(7),
        |shares: WrappedI80F48| -> Result<WrappedI80F48, String> {
            Ok(WrappedI80F48 { value: shares.value * 3 })
        },
        5,
    )
    .unwrap();
    assert_eq!(index, 0);
    assert_eq!(s.bad_debt, w(12 * ONE));
    assert_eq!(s.insurance_transfer_amount, 5);
    assert_eq!(s.socialized_loss, w(7 * ONE));
}
