use tren::account::{Account, AccountOperationError, AccountStatus};
use tren::amount::Amount;

fn dec(mantissa: i128, scale: u32) -> Amount {
    Amount::new(mantissa, scale).expect("an amount in range")
}

#[test]
fn holding_funds_shall_keep_total_unchanged_test() {
    // with
    let total = dec(100, 0);

    let mut account = Account {
        client_id: 12,
        held_amount: dec(0, 0),
        amount: total,
        status: AccountStatus::Operational,
    };

    assert_eq!(account.total(), total);

    // when
    account.hold(dec(51, 0));

    // then
    assert_eq!(account.total(), total);
}

#[test]
fn holding_funds_shall_change_amounts_test() {
    // with
    let amount_to_hold = dec(51, 0);

    let mut account = Account {
        client_id: 12,
        held_amount: dec(0, 0),
        amount: dec(100, 0),
        status: AccountStatus::Operational,
    };

    // when
    account.hold(amount_to_hold);

    // then
    assert_eq!(account.held_amount, amount_to_hold);
    assert_eq!(account.amount, dec(49, 0));
}

#[test]
fn deposit_and_withdraw_operations() {
    // with
    let amount_to_deposit = dec(50, 0);
    let initial_amount = dec(100, 0);
    let amount_to_withdraw = dec(149, 0);

    let mut account = Account {
        client_id: 12,
        held_amount: dec(0, 0),
        amount: initial_amount,
        status: AccountStatus::Operational,
    };

    // when
    account.deposit(amount_to_deposit);

    // then
    assert_eq!(account.amount, dec(150, 0));

    // when
    account
        .withdraw(amount_to_withdraw)
        .expect("Expect to be withdrawable");

    // then
    assert_eq!(account.amount, dec(1, 0));

    // when
    let too_much_to_withdraw = dec(100000, 0);
    let prev_total = account.total();
    assert!(account.withdraw(too_much_to_withdraw).is_err());

    // then
    assert_eq!(account.total(), prev_total);
}

#[test]
fn new_account_is_empty_and_operational() {
    let account = Account::new(7);
    assert_eq!(account.client_id, 7);
    assert_eq!(account.amount, Amount::zero());
    assert_eq!(account.held_amount, Amount::zero());
    assert_eq!(account.status, AccountStatus::Operational);
    assert!(!account.frozen());
    assert_eq!(account.total(), dec(0, 0));
}

#[test]
fn deposit_adds_fractional_amounts_exactly() {
    let mut account = Account::new(1);
    account.deposit(dec(15, 1));
    account.deposit(dec(25, 2));
    assert_eq!(account.amount, dec(175, 2));
    assert_eq!(account.amount.mantissa(), 175);
    assert_eq!(account.amount.scale(), 2);
}

#[test]
fn withdraw_of_everything_leaves_zero() {
    let mut account = Account::new(1);
    account.deposit(dec(12345, 4));
    assert!(account.withdraw(dec(12345, 4)).is_ok());
    assert_eq!(account.amount, dec(0, 0));
}

#[test]
fn withdraw_beyond_available_reports_not_enough_funds() {
    let mut account = Account::new(1);
    account.deposit(dec(10, 0));
    let result = account.withdraw(dec(100001, 4));
    assert!(matches!(result, Err(AccountOperationError::NotEnoughFunds)));
    assert_eq!(account.amount, dec(10, 0));
    assert_eq!(
        AccountOperationError::NotEnoughFunds.message(),
        "Not enough funds for the operation"
    );
}

#[test]
fn hold_may_drive_available_below_zero() {
    let mut account = Account::new(1);
    account.deposit(dec(10, 0));
    account.hold(dec(25, 0));
    assert_eq!(account.amount, dec(-15, 0));
    assert_eq!(account.held_amount, dec(25, 0));
    assert_eq!(account.total(), dec(10, 0));
}

#[test]
fn release_is_the_inverse_of_hold() {
    let mut account = Account::new(1);
    account.deposit(dec(1000, 1));
    account.hold(dec(305, 1));
    account.release(dec(305, 1));
    assert_eq!(account.amount, dec(100, 0));
    assert_eq!(account.held_amount, dec(0, 0));
}

#[test]
fn chargeback_forfeits_held_funds_only() {
    let mut account = Account::new(1);
    account.deposit(dec(100, 0));
    account.hold(dec(40, 0));
    account.chargeback(dec(40, 0));
    assert_eq!(account.amount, dec(60, 0));
    assert_eq!(account.held_amount, dec(0, 0));
    assert_eq!(account.total(), dec(60, 0));
    assert!(!account.frozen());
}

#[test]
fn freeze_and_unfreeze_change_only_the_status() {
    let mut account = Account::new(3);
    account.deposit(dec(5, 0));
    account.freeze();
    assert!(account.frozen());
    assert_eq!(account.status, AccountStatus::Frozen);
    assert_eq!(account.amount, dec(5, 0));
    account.unfreeze();
    assert!(!account.frozen());
    assert_eq!(account.status, AccountStatus::Operational);
}

#[test]
fn total_is_available_plus_held() {
    let account = Account {
        client_id: 1,
        held_amount: dec(105, 1),
        amount: dec(-25, 1),
        status: AccountStatus::Operational,
    };
    assert_eq!(account.total(), dec(8, 0));
    assert_eq!(account.checked_total(), Some(dec(80, 1)));
}

#[test]
fn operations_that_cannot_be_held_leave_the_account_alone() {
    let largest = dec(79_228_162_514_264_337_593_543_950_335, 0);
    let mut account = Account::new(1);
    assert!(account.try_deposit(largest));
    assert!(!account.try_deposit(largest));
    assert_eq!(account.amount, largest);
    assert!(account.try_withdraw(dec(-1, 0)).is_none());
    assert_eq!(account.amount, largest);
    assert!(!account.try_release(dec(1, 0)));
    assert_eq!(account.amount, largest);
    assert_eq!(account.held_amount, dec(0, 0));

    let mut debtor = Account::new(2);
    assert!(debtor.try_hold(largest));
    assert_eq!(debtor.amount, dec(-79_228_162_514_264_337_593_543_950_335, 0));
    assert!(!debtor.try_hold(dec(1, 0)));
    assert_eq!(debtor.held_amount, largest);
    assert!(!debtor.try_chargeback(dec(-1, 0)));
    assert_eq!(debtor.held_amount, largest);
    assert!(debtor.checked_total().is_some());

    let full = Account {
        client_id: 3,
        held_amount: largest,
        amount: largest,
        status: AccountStatus::Operational,
    };
    assert!(full.checked_total().is_none());
}

#[test]
fn checked_operations_agree_with_the_plain_ones() {
    let mut plain = Account::new(1);
    let mut checked = Account::new(1);
    plain.deposit(dec(500, 1));
    assert!(checked.try_deposit(dec(500, 1)));
    plain.hold(dec(125, 1));
    assert!(checked.try_hold(dec(125, 1)));
    plain.release(dec(25, 1));
    assert!(checked.try_release(dec(25, 1)));
    plain.chargeback(dec(10, 0));
    assert!(checked.try_chargeback(dec(10, 0)));
    assert!(plain.withdraw(dec(5, 0)).is_ok());
    assert!(matches!(checked.try_withdraw(dec(5, 0)), Some(Ok(()))));
    assert!(matches!(
        checked.try_withdraw(dec(5000, 0)),
        Some(Err(AccountOperationError::NotEnoughFunds))
    ));
    assert_eq!(plain.amount, checked.amount);
    assert_eq!(plain.held_amount, checked.held_amount);
    assert_eq!(plain.amount, dec(35, 0));
    assert_eq!(plain.held_amount, dec(0, 0));
}
