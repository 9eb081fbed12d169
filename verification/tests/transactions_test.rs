use tren::amount::Amount;
use tren::transactions::{
    default_status, Transaction, TransactionError, TransactionStatus, TransactionType,
};

fn amount_of(mantissa: i128, scale: u32) -> Amount {
    Amount::new(mantissa, scale).expect("an amount in range")
}

#[test]
fn test_status_changes() {
    let mut transaction =
        Transaction::new(TransactionType::Withdrawal, 10, 32, Some(amount_of(1000, 1)));

    transaction.dispute();
    assert_eq!(transaction.status, TransactionStatus::Disputed);

    transaction.resolve();
    assert_eq!(transaction.status, TransactionStatus::Executed);

    transaction.chargeback();
    assert_eq!(transaction.status, TransactionStatus::ChargedBack);

    transaction.skipped();
    assert_eq!(transaction.status, TransactionStatus::Skipped);

    transaction.executed();
    assert_eq!(transaction.status, TransactionStatus::Executed);
}

#[test]
fn new_transaction_is_ready() {
    let transaction = Transaction::new(TransactionType::Deposit, 3, 9, Some(amount_of(5, 0)));
    assert_eq!(transaction.transaction_type, TransactionType::Deposit);
    assert_eq!(transaction.client_id, 3);
    assert_eq!(transaction.transaction_id, 9);
    assert_eq!(transaction.amount, Some(amount_of(5, 0)));
    assert_eq!(transaction.status, TransactionStatus::Ready);
    assert_eq!(default_status(), TransactionStatus::Ready);
}

#[test]
fn status_changes_keep_the_rest_of_the_transaction() {
    let original = Transaction::new(TransactionType::Deposit, 3, 9, Some(amount_of(5, 0)));
    let mut changed = original;
    changed.dispute();
    assert_eq!(changed.transaction_type, original.transaction_type);
    assert_eq!(changed.client_id, original.client_id);
    assert_eq!(changed.transaction_id, original.transaction_id);
    assert_eq!(changed.amount, original.amount);
    assert_ne!(changed, original);
}

#[test]
fn deposits_and_withdrawals_must_carry_an_amount() {
    let deposit = Transaction::new(TransactionType::Deposit, 1, 1, Some(amount_of(1, 0)));
    assert_eq!(deposit.validate().expect("valid"), deposit);
    let withdrawal = Transaction::new(TransactionType::Withdrawal, 1, 2, Some(amount_of(1, 0)));
    assert_eq!(withdrawal.validate().expect("valid"), withdrawal);
    assert!(Transaction::new(TransactionType::Deposit, 1, 1, None).validate().is_err());
    assert!(Transaction::new(TransactionType::Withdrawal, 1, 1, None).validate().is_err());
}

#[test]
fn disputes_resolutions_and_chargebacks_must_carry_no_amount() {
    for kind in [
        TransactionType::Dispute,
        TransactionType::Resolve,
        TransactionType::Chargeback,
    ] {
        let bare = Transaction::new(kind, 1, 1, None);
        assert_eq!(bare.validate().expect("valid"), bare);
        assert!(Transaction::new(kind, 1, 1, Some(amount_of(1, 0))).validate().is_err());
    }
}

#[test]
fn invalid_transaction_says_why() {
    let error = Transaction::new(TransactionType::Dispute, 1, 1, Some(amount_of(1, 0)))
        .validate()
        .expect_err("invalid");
    let TransactionError::InvalidTransaction(reason) = &error;
    assert_eq!(
        reason,
        "Amount is not correct for this transaction (only Deposit and Withrawal can have amounts)"
    );
    assert_eq!(
        error.message(),
        "Invalid transaction [Amount is not correct for this transaction (only Deposit and Withrawal can have amounts)]"
    );
}

#[test]
fn only_disputes_resolutions_and_chargebacks_are_disputing() {
    assert!(!Transaction::new(TransactionType::Deposit, 1, 1, None).is_disputing());
    assert!(!Transaction::new(TransactionType::Withdrawal, 1, 1, None).is_disputing());
    assert!(Transaction::new(TransactionType::Dispute, 1, 1, None).is_disputing());
    assert!(Transaction::new(TransactionType::Resolve, 1, 1, None).is_disputing());
    assert!(Transaction::new(TransactionType::Chargeback, 1, 1, None).is_disputing());
}

#[test]
fn transactions_compare_amounts_by_value() {
    let short = Transaction::new(TransactionType::Deposit, 1, 1, Some(amount_of(15, 1)));
    let long = Transaction::new(TransactionType::Deposit, 1, 1, Some(amount_of(150, 2)));
    assert_eq!(short, long);
}
