use vstd::prelude::*;
use crate::account::Account;
use crate::amount::{amount_in_range, pow10, pow10_grows, Amount};
use crate::client::ClientId;
use crate::decimal::{decimal_text, printable, round_dp, rounded, to_text};

verus! {

/// The number of fractional digits that a report shows.
pub const REPORT_PLACES: u32 = 4;

/// The character for one decimal digit.
pub open spec fn digit_char(digit: nat) -> char {
    if digit == 0 {
        '0'
    } else if digit == 1 {
        '1'
    } else if digit == 2 {
        '2'
    } else if digit == 3 {
        '3'
    } else if digit == 4 {
        '4'
    } else if digit == 5 {
        '5'
    } else if digit == 6 {
        '6'
    } else if digit == 7 {
        '7'
    } else if digit == 8 {
        '8'
    } else {
        '9'
    }
}

/// A number in decimal digits, without leading zeros.
pub open spec fn decimal_digits(n: nat) -> Seq<char>
    decreases n,
{
    if n < 10 {
        seq![digit_char(n)]
    } else {
        decimal_digits(n / 10).push(digit_char(n % 10))
    }
}

/// An amount as a report shows it: rounded to four fractional digits, and printed
/// with four.
pub open spec fn amount_text(amount: Amount) -> Seq<char> {
    decimal_text(rounded(amount, REPORT_PLACES), 4)
}

/// Whether a report can show an amount: rounded to four fractional digits it has at
/// most 27 digits before the point.
pub open spec fn showable(amount: Amount) -> bool {
    printable(rounded(amount, REPORT_PLACES), 4)
}

/// Whether a report can show an account: its total can be held, and what is
/// available, what is held and the total can be shown.
pub open spec fn reportable(account: Account) -> bool {
    &&& showable(account.amount)
    &&& showable(account.held_amount)
    &&& match account.total_of() {
        Some(total) => showable(total),
        None => false,
    }
}

/// How a report shows whether an account is locked.
pub open spec fn locked_text(locked: bool) -> Seq<char> {
    if locked {
        "true"@
    } else {
        "false"@
    }
}

/// The row of a report for an account whose total is `total`.
pub open spec fn row_text(account: Account, total: Amount) -> Seq<char> {
    decimal_digits(account.client_id as nat) + ", "@ + amount_text(account.amount) + ", "@
        + amount_text(account.held_amount) + ", "@ + amount_text(total) + ", "@ + locked_text(
        account.is_frozen(),
    )
}

/// The rows of a report for the first `n` of `accounts`, in their order; `None`
/// where one of them cannot be shown.
pub open spec fn rows_text(accounts: Seq<Account>, n: nat) -> Option<Seq<Seq<char>>>
    decreases n,
{
    if n == 0 {
        Some(Seq::empty())
    } else {
        match rows_text(accounts, (n - 1) as nat) {
            Some(rows) => if reportable(accounts[n - 1]) {
                Some(rows.push(row_text(accounts[n - 1], accounts[n - 1].total_of()->0)))
            } else {
                None
            },
            None => None,
        }
    }
}

fn digit_text(digit: u16) -> (text: &'static str)
    requires
        digit < 10,
    ensures
        text@ == seq![digit_char(digit as nat)],
{
    proof {
        reveal_strlit("0");
        reveal_strlit("1");
        reveal_strlit("2");
        reveal_strlit("3");
        reveal_strlit("4");
        reveal_strlit("5");
        reveal_strlit("6");
        reveal_strlit("7");
        reveal_strlit("8");
        reveal_strlit("9");
    }
    let text = if digit == 0 {
        "0"
    } else if digit == 1 {
        "1"
    } else if digit == 2 {
        "2"
    } else if digit == 3 {
        "3"
    } else if digit == 4 {
        "4"
    } else if digit == 5 {
        "5"
    } else if digit == 6 {
        "6"
    } else if digit == 7 {
        "7"
    } else if digit == 8 {
        "8"
    } else {
        "9"
    };
    assert(text@ =~= seq![digit_char(digit as nat)]);
    text
}

/// Writes the rows of a report.
pub struct CsvPrinter {}

impl Default for CsvPrinter {
    fn default() -> (printer: CsvPrinter) {
        CsvPrinter {  }
    }
}

impl CsvPrinter {
    /// The first row of a report: the names of the columns.
    pub fn csv_header() -> (header: String)
        ensures
            header@ == "client, available, held, total, locked"@,
    {
        "client, available, held, total, locked".to_owned()
    }

    /// A client identifier in decimal digits.
    pub fn client_text(client_id: ClientId) -> (text: String)
        ensures
            text@ == decimal_digits(client_id as nat),
        decreases client_id,
    {
        if client_id < 10 {
            digit_text(client_id).to_owned()
        } else {
            Self::client_text(client_id / 10).concat(digit_text(client_id % 10))
        }
    }

    /// Whether an amount can be printed with four fractional digits.
    fn prints_in_four(amount: Amount) -> (prints: bool)
        ensures
            prints == printable(amount, 4),
    {
        proof {
            use_type_invariant(&amount);
            amount_in_range(amount);
            reveal_with_fuel(pow10, 30);
            assert(pow10(27) == 1_000_000_000_000_000_000_000_000_000);
            assert(pow10(28) == 10_000_000_000_000_000_000_000_000_000);
            assert(pow10(29) == 100_000_000_000_000_000_000_000_000_000);
            if amount.scale_of() >= 2 {
                pow10_grows(29, (27 + amount.scale_of()) as nat);
            }
        }
        let mantissa = amount.mantissa();
        if amount.scale() == 0 {
            -1_000_000_000_000_000_000_000_000_000 < mantissa && mantissa
                < 1_000_000_000_000_000_000_000_000_000
        } else if amount.scale() == 1 {
            -10_000_000_000_000_000_000_000_000_000 < mantissa && mantissa
                < 10_000_000_000_000_000_000_000_000_000
        } else {
            true
        }
    }

    /// An amount as a report shows it.
    pub fn amount_csv(amount: Amount) -> (text: String)
        requires
            showable(amount),
        ensures
            text@ == amount_text(amount),
    {
        to_text(round_dp(amount, REPORT_PLACES), 4)
    }

    /// An amount as a report shows it; `None` where it cannot be shown.
    pub fn try_amount_csv(amount: Amount) -> (text: Option<String>)
        ensures
            text is Some <==> showable(amount),
            text matches Some(shown) ==> shown@ == amount_text(amount),
    {
        if Self::prints_in_four(round_dp(amount, REPORT_PLACES)) {
            Some(Self::amount_csv(amount))
        } else {
            None
        }
    }

    /// The row of a report for an account.
    pub fn account_csv(account: &Account) -> (row: String)
        requires
            reportable(*account),
        ensures
            row@ == row_text(*account, account.total_of()->0),
    {
        let locked = if account.frozen() {
            "true"
        } else {
            "false"
        };
        let row = Self::client_text(account.client_id).concat(", ");
        let row = row.concat(Self::amount_csv(account.amount).as_str()).concat(", ");
        let row = row.concat(Self::amount_csv(account.held_amount).as_str()).concat(", ");
        let row = row.concat(Self::amount_csv(account.total()).as_str()).concat(", ");
        row.concat(locked)
    }

    /// The row of a report for an account; `None` where it cannot be shown.
    pub fn try_account_csv(account: &Account) -> (row: Option<String>)
        ensures
            row is Some <==> reportable(*account),
            row matches Some(shown) ==> shown@ == row_text(*account, account.total_of()->0),
    {
        let shows_total = match account.checked_total() {
            Some(total) => Self::prints_in_four(round_dp(total, REPORT_PLACES)),
            None => false,
        };
        if shows_total && Self::prints_in_four(round_dp(account.amount, REPORT_PLACES))
            && Self::prints_in_four(round_dp(account.held_amount, REPORT_PLACES)) {
            Some(Self::account_csv(account))
        } else {
            None
        }
    }

    /// A report: the names of the columns, then one row for each account, in the
    /// order given; `None` where an account cannot be shown.
    pub fn lines(&self, accounts: &Vec<&Account>) -> (report: Option<Vec<String>>)
        ensures
            match (report, rows_text(accounts@.unref(), accounts@.len())) {
                (Some(lines), Some(rows)) => {
                    &&& lines@.len() == rows.len() + 1
                    &&& lines@[0]@ == "client, available, held, total, locked"@
                    &&& forall|i: int| 0 <= i < rows.len() ==> (#[trigger] lines@[i + 1])@ == rows[i]
                },
                (None, None) => true,
                _ => false,
            },
    {
        let mut lines: Vec<String> = Vec::new();
        lines.push(Self::csv_header());
        let mut i: usize = 0;
        while i < accounts.len()
            invariant
                i <= accounts.len(),
                lines@.len() == i + 1,
                lines@[0]@ == "client, available, held, total, locked"@,
                match rows_text(accounts@.unref(), i as nat) {
                    Some(rows) => rows.len() == i && forall|j: int|
                        0 <= j < i ==> (#[trigger] lines@[j + 1])@ == rows[j],
                    None => false,
                },
            decreases accounts.len() - i,
        {
            match Self::try_account_csv(accounts[i]) {
                Some(row) => {
                    lines.push(row);
                },
                None => {
                    proof {
                        rows_text_stays_none(accounts@.unref(), (i + 1) as nat, accounts@.len());
                    }
                    return None;
                },
            }
            i = i + 1;
        }
        Some(lines)
    }
}

/// Once the rows of a report cannot be had, more accounts do not bring them back.
proof fn rows_text_stays_none(accounts: Seq<Account>, n: nat, m: nat)
    requires
        n <= m,
        rows_text(accounts, n) is None,
    ensures
        rows_text(accounts, m) is None,
    decreases m,
{
    if n < m {
        rows_text_stays_none(accounts, n, (m - 1) as nat);
    }
}

} // verus!
