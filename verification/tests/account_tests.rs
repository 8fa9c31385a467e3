use ledger::account::{Account, AccountError};
use ledger::amount::{Amount, AmountError};
use ledger::config::MAX_UNITS;

fn amount(text: &str) -> Amount {
    Amount::try_from(text).unwrap()
}

#[test]
fn test_new_account() {
    let client_id = 1;
    let available = Amount::try_from("100.0").unwrap();
    let held = Amount::try_from("20.0").unwrap();
    let locked = false;

    let account = Account::new(client_id, available.clone(), held.clone(), locked);

    assert_eq!(account.client_id, client_id);
    assert_eq!(account.available, available);
    assert_eq!(account.held, held);
    assert_eq!(account.total, Amount::try_from("120.0").unwrap());
    assert_eq!(account.locked, locked);
}

#[test]
fn test_deposit() {
    let client_id = 1;
    let mut account = Account::new(client_id, Amount::default(), Amount::default(), false);
    let deposit_amount = Amount::try_from("50.0").unwrap();

    account.deposit(deposit_amount.clone()).unwrap();

    assert_eq!(account.available, deposit_amount);
}

#[test]
fn test_withdraw() {
    let client_id = 1;
    let mut account =
        Account::new(client_id, Amount::try_from("100.0").unwrap(), Amount::default(), false);
    let withdraw_amount = Amount::try_from("30.0").unwrap();

    account.withdraw(withdraw_amount.clone()).unwrap();

    assert_eq!(account.available, Amount::try_from("70.0").unwrap());
}

#[test]
fn test_hold() {
    let client_id = 1;
    let mut account =
        Account::new(client_id, Amount::try_from("100.0").unwrap(), Amount::default(), false);
    let hold_amount = Amount::try_from("20.0").unwrap();

    account.hold(hold_amount.clone()).unwrap();

    assert_eq!(account.held, hold_amount);
}

#[test]
fn test_release() {
    let client_id = 1;
    let mut account =
        Account::new(client_id, Amount::try_from("100.0").unwrap(), Amount::default(), false);
    let hold_amount = Amount::try_from("20.0").unwrap();

    account.hold(hold_amount.clone()).unwrap();
    account.release(hold_amount.clone()).unwrap();

    assert_eq!(account.held, Amount::default());
}

#[test]
fn test_chargeback() {
    let client_id = 1;
    let mut account = Account::new(
        client_id,
        Amount::try_from("100.0").unwrap(),
        Amount::try_from("20.0").unwrap(),
        false,
    );
    let chargeback_amount = Amount::try_from("20.0").unwrap();

    account.chargeback(chargeback_amount.clone()).unwrap();

    assert_eq!(account.held, Amount::default());
    assert!(account.locked);
}

#[test]
fn test_total() {
    let client_id = 1;
    let account = Account::new(
        client_id,
        Amount::try_from("100.0").unwrap(),
        Amount::try_from("20.0").unwrap(),
        false,
    );

    let total = account.total();

    assert_eq!(total, Amount::try_from("120.0").unwrap());
}

#[test]
fn test_locked() {
    let client_id = 1;
    let mut account = Account::new(
        client_id,
        Amount::try_from("100.0").unwrap(),
        Amount::try_from("20.0").unwrap(),
        true,
    );

    assert_eq!(account.deposit(Amount::try_from("10.0").unwrap()), Err(AccountError::AccountLocked));
    assert_eq!(account.withdraw(Amount::try_from("10.0").unwrap()), Err(AccountError::AccountLocked));
    assert_eq!(account.hold(Amount::try_from("10.0").unwrap()), Err(AccountError::AccountLocked));
    assert_eq!(account.release(Amount::try_from("10.0").unwrap()), Err(AccountError::AccountLocked));
    assert_eq!(
        account.chargeback(Amount::try_from("10.0").unwrap()),
        Err(AccountError::AccountLocked)
    );
}

#[test]
fn locked_account_keeps_its_balances() {
    let mut account = Account::new(1, amount("100.0"), amount("20.0"), true);
    let _ = account.deposit(amount("10"));
    let _ = account.withdraw(amount("10"));
    let _ = account.hold(amount("10"));
    let _ = account.release(amount("10"));
    let _ = account.chargeback(amount("10"));
    assert_eq!(account.available, amount("100"));
    assert_eq!(account.held, amount("20"));
    assert_eq!(account.total, amount("120"));
    assert!(account.locked);
    assert!(account.is_consistent());
}

#[test]
fn every_operation_keeps_the_recorded_total() {
    let mut account = Account::new(1, Amount::default(), Amount::default(), false);
    account.deposit(amount("10")).unwrap();
    assert_eq!(account.total, amount("10"));
    account.withdraw(amount("2.5")).unwrap();
    assert_eq!(account.total, amount("7.5"));
    account.hold(amount("3")).unwrap();
    assert_eq!(account.available, amount("4.5"));
    assert_eq!(account.held, amount("3"));
    assert_eq!(account.total, amount("7.5"));
    account.release(amount("1")).unwrap();
    assert_eq!(account.available, amount("5.5"));
    assert_eq!(account.held, amount("2"));
    assert_eq!(account.total, amount("7.5"));
    account.chargeback(amount("2")).unwrap();
    assert_eq!(account.available, amount("5.5"));
    assert_eq!(account.held, amount("0"));
    assert_eq!(account.total, amount("5.5"));
    assert_eq!(account.total(), account.total);
    assert!(account.locked);
    assert!(account.is_consistent());
}

#[test]
fn chargeback_of_nothing_still_locks() {
    let mut account = Account::new(1, amount("1"), Amount::default(), false);
    account.chargeback(Amount::default()).unwrap();
    assert!(account.locked);
    assert_eq!(account.total, amount("1"));
}

#[test]
fn withdrawal_beyond_what_is_available_changes_nothing() {
    let mut account = Account::new(1, amount("5"), amount("5"), false);
    assert_eq!(account.withdraw(amount("5.0001")), Err(AccountError::InsufficientFunds));
    assert_eq!(account.available, amount("5"));
    assert_eq!(account.held, amount("5"));
    assert_eq!(account.total, amount("10"));
    account.withdraw(amount("5")).unwrap();
    assert_eq!(account.available, Amount::default());
}

#[test]
fn hold_beyond_what_is_available_changes_nothing() {
    let mut account = Account::new(1, amount("5"), amount("1"), false);
    assert_eq!(account.hold(amount("6")), Err(AccountError::InsufficientFunds));
    assert_eq!(account.available, amount("5"));
    assert_eq!(account.held, amount("1"));
    assert_eq!(account.total, amount("6"));
    assert!(!account.locked);
}

#[test]
fn release_and_chargeback_beyond_what_is_held_change_nothing() {
    let mut account = Account::new(1, amount("5"), amount("1"), false);
    assert_eq!(account.release(amount("2")), Err(AccountError::InsufficientFunds));
    assert_eq!(account.chargeback(amount("2")), Err(AccountError::InsufficientFunds));
    assert_eq!(account.available, amount("5"));
    assert_eq!(account.held, amount("1"));
    assert_eq!(account.total, amount("6"));
    assert!(!account.locked);
}

#[test]
fn deposit_beyond_what_an_amount_holds_is_an_arithmetic_fault() {
    let most = Amount::from_decimal_parts(MAX_UNITS as i128, 4).unwrap();
    let mut account = Account::new(1, most, Amount::default(), false);
    assert_eq!(
        account.deposit(Amount::from_decimal_parts(1, 4).unwrap()),
        Err(AccountError::Arithmetic(AmountError::Overflow))
    );
    assert_eq!(account.available, most);
    assert_eq!(account.total, most);
    account.deposit(Amount::default()).unwrap();
}

#[test]
fn deposit_counts_what_is_held_against_the_limit() {
    let most = Amount::from_decimal_parts(MAX_UNITS as i128 - 1, 4).unwrap();
    let least = Amount::from_decimal_parts(1, 4).unwrap();
    let mut account = Account::new(1, least, most, false);
    assert_eq!(
        account.deposit(least),
        Err(AccountError::Arithmetic(AmountError::Overflow))
    );
}

#[test]
fn consistency_check_sees_a_wrong_total() {
    let mut account = Account::new(1, amount("1"), amount("2"), false);
    assert!(account.is_consistent());
    account.total = amount("4");
    assert!(!account.is_consistent());
}

#[test]
fn amount_errors_become_account_errors() {
    let one = amount("1");
    assert_eq!(
        AccountError::from(AmountError::SubtractToNegative(one, one)),
        AccountError::InsufficientFunds
    );
    assert_eq!(
        AccountError::from(AmountError::Overflow),
        AccountError::Arithmetic(AmountError::Overflow)
    );
    assert_eq!(
        AccountError::from(AmountError::NegativeValue(-1, 0)),
        AccountError::Arithmetic(AmountError::NegativeValue(-1, 0))
    );
}
