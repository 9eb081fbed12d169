use tren::account::{Account, AccountStatus};
use tren::amount::Amount;
use tren::output::csv_printer::CsvPrinter;

fn value(mantissa: i128, scale: u32) -> Amount {
    Amount::new(mantissa, scale).expect("an amount in range")
}

#[test]
fn header_names_the_columns() {
    assert_eq!(
        CsvPrinter::csv_header(),
        "client, available, held, total, locked"
    );
}

#[test]
fn client_identifiers_are_written_in_decimal() {
    assert_eq!(CsvPrinter::client_text(0), "0");
    assert_eq!(CsvPrinter::client_text(7), "7");
    assert_eq!(CsvPrinter::client_text(10), "10");
    assert_eq!(CsvPrinter::client_text(409), "409");
    assert_eq!(CsvPrinter::client_text(65535), "65535");
}

#[test]
fn amounts_are_rounded_to_four_places() {
    assert_eq!(CsvPrinter::amount_csv(value(100009, 5)), "1.0001");
    assert_eq!(CsvPrinter::amount_csv(value(100005, 5)), "1.0000");
    assert_eq!(CsvPrinter::amount_csv(value(100015, 5)), "1.0002");
    assert_eq!(CsvPrinter::amount_csv(value(15, 1)), "1.5000");
    assert_eq!(CsvPrinter::amount_csv(value(0, 0)), "0.0000");
    assert_eq!(CsvPrinter::amount_csv(value(-25, 1)), "-2.5000");
    assert_eq!(CsvPrinter::amount_csv(value(12, 0)), "12.0000");
}

#[test]
fn row_shows_client_balances_and_lock() {
    let account = Account {
        client_id: 12,
        held_amount: value(15, 1),
        amount: value(100009, 5),
        status: AccountStatus::Operational,
    };
    assert_eq!(
        CsvPrinter::account_csv(&account),
        "12, 1.0001, 1.5000, 2.5001, false"
    );
    let mut frozen = account;
    frozen.freeze();
    assert_eq!(
        CsvPrinter::try_account_csv(&frozen).expect("a row"),
        "12, 1.0001, 1.5000, 2.5001, true"
    );
}

#[test]
fn row_cannot_be_written_without_a_total() {
    let largest = value(79_228_162_514_264_337_593_543_950_335, 0);
    let account = Account {
        client_id: 1,
        held_amount: largest,
        amount: largest,
        status: AccountStatus::Operational,
    };
    assert!(CsvPrinter::try_account_csv(&account).is_none());
    let fine = Account::new(2);
    assert!(CsvPrinter::default().lines(&vec![&fine, &account]).is_none());
}

#[test]
fn report_has_a_header_and_a_row_for_each_account() {
    let first = Account::new(1);
    let mut second = Account::new(2);
    second.deposit(value(35, 1));
    let lines = CsvPrinter::default()
        .lines(&vec![&second, &first])
        .expect("a report");
    assert_eq!(
        lines,
        vec![
            "client, available, held, total, locked",
            "2, 3.5000, 0.0000, 3.5000, false",
            "1, 0.0000, 0.0000, 0.0000, false",
        ]
    );
    let empty = CsvPrinter::default().lines(&vec![]).expect("a report");
    assert_eq!(empty, vec!["client, available, held, total, locked"]);
}

#[test]
fn amounts_with_more_than_27_whole_digits_cannot_be_shown() {
    let widest = value(999_999_999_999_999_999_999_999_999, 0);
    assert_eq!(
        CsvPrinter::try_amount_csv(widest).expect("a text"),
        "999999999999999999999999999.0000"
    );
    assert!(CsvPrinter::try_amount_csv(value(1_000_000_000_000_000_000_000_000_000, 0)).is_none());
    assert!(CsvPrinter::try_amount_csv(value(-1_000_000_000_000_000_000_000_000_000, 0)).is_none());
    assert_eq!(
        CsvPrinter::try_amount_csv(value(-9_999_999_999_999_999_999_999_999_999, 1)).expect("a text"),
        "-999999999999999999999999999.9000"
    );
    assert!(CsvPrinter::try_amount_csv(value(10_000_000_000_000_000_000_000_000_000, 1)).is_none());
    assert_eq!(
        CsvPrinter::try_amount_csv(value(-79_228_162_514_264_337_593_543_950_335, 2)).expect("a text"),
        "-792281625142643375935439503.3500"
    );
    assert_eq!(
        CsvPrinter::try_amount_csv(value(79_228_162_514_264_337_593_543_950_335, 5)).expect("a text"),
        "792281625142643375935439.5034"
    );
    let account = Account {
        client_id: 1,
        held_amount: value(0, 0),
        amount: value(1_000_000_000_000_000_000_000_000_000, 0),
        status: AccountStatus::Operational,
    };
    assert!(CsvPrinter::try_account_csv(&account).is_none());
}
