use vstd::prelude::*;
use crate::engine::context::RunnerContext;
use crate::handlers::transaction_handler::TransactionHandler;
use crate::inputs::csv_streamer::CsvStreamerError;
use crate::storage::store::AccountsStorage;
use crate::transactions::{amount_mismatch_reason, Transaction, TransactionError};

verus! {

/// Why a run ended before its source did.
#[derive(Debug)]
pub enum RunnerError {
    /// A given path is not a file.
    FileDoesNotExists(String),
    /// A row could not be read as a transaction, or its amount does not fit its type.
    InvalidRow(String),
    /// The store could not be read or written.
    StorageError,
    /// The source failed while it was read.
    StreamFailure(String),
    /// A balance left the range of amounts that can be held.
    AmountOverflow,
}

impl RunnerError {
    /// The text of `message`.
    pub open spec fn message_text(&self) -> Seq<char> {
        match self {
            RunnerError::FileDoesNotExists(path) => "File ["@ + path@ + "] does not exist"@,
            RunnerError::InvalidRow(row) => "Row ["@ + row@ + "] could not be deserialized"@,
            RunnerError::StorageError => "Storage encountered an error"@,
            RunnerError::StreamFailure(reason) => "Stream failure ["@ + reason@ + "]"@,
            RunnerError::AmountOverflow => "Amount out of range"@,
        }
    }

    /// The text shown to a user for this error.
    pub fn message(&self) -> (text: String)
        ensures
            text@ == self.message_text(),
    {
        match self {
            RunnerError::FileDoesNotExists(path) => "File [".to_owned().concat(
                path.as_str(),
            ).concat("] does not exist"),
            RunnerError::InvalidRow(row) => "Row [".to_owned().concat(row.as_str()).concat(
                "] could not be deserialized",
            ),
            RunnerError::StorageError => "Storage encountered an error".to_owned(),
            RunnerError::StreamFailure(reason) => "Stream failure [".to_owned().concat(
                reason.as_str(),
            ).concat("]"),
            RunnerError::AmountOverflow => "Amount out of range".to_owned(),
        }
    }
}

/// What became of a transaction that was handled.
#[derive(Clone, Copy, PartialEq, Eq, Structural, Debug)]
pub enum RunnerOutcome {
    /// Its effect was applied.
    Success,
    /// It was recorded without effect.
    Skipped,
}

/// The text of the error for a row that could not be read as a transaction, where
/// `reason` says why.
pub open spec fn unreadable_row_text(reason: Seq<char>) -> Seq<char> {
    "Row could not be deserialized ["@ + reason + "]"@
}

/// The text of the error for a transaction whose amount does not fit its type.
pub open spec fn invalid_row_text() -> Seq<char> {
    "Invalid row [InvalidTransaction(\""@ + amount_mismatch_reason() + "\")]"@
}

/// Whether a runner with `handler` and `store` can be left with `new_handler` and
/// `new_store`, and with `result`, by one record of its source.
///
/// A record that could not be read, or whose amount does not fit its type, is
/// refused and nothing changes; any other is handed to the handler.
pub open spec fn processed<H: TransactionHandler<S>, S: AccountsStorage>(
    handler: H,
    store: S,
    record: Result<Transaction, String>,
    new_handler: H,
    new_store: S,
    result: Result<RunnerOutcome, RunnerError>,
) -> bool {
    match record {
        Ok(transaction) => if transaction.well_formed() {
            H::handles(handler, store, transaction, new_handler, new_store, result)
        } else {
            &&& new_handler == handler
            &&& new_store == store
            &&& match result {
                Err(RunnerError::InvalidRow(row)) => row@ == invalid_row_text(),
                _ => false,
            }
        },
        Err(reason) => {
            &&& new_handler == handler
            &&& new_store == store
            &&& match result {
                Err(RunnerError::InvalidRow(row)) => row@ == unreadable_row_text(reason@),
                _ => false,
            }
        },
    }
}

/// Whether a runner with `handler` and `store` can be left with `new_handler` and
/// `new_store` by the records of `records`, processed in order, none of them ending
/// in an error.
pub open spec fn ran<H: TransactionHandler<S>, S: AccountsStorage>(
    handler: H,
    store: S,
    records: Seq<Result<Transaction, String>>,
    new_handler: H,
    new_store: S,
) -> bool
    decreases records.len(),
{
    if records.len() == 0 {
        new_handler == handler && new_store == store
    } else {
        exists|mid_handler: H, mid_store: S, outcome: RunnerOutcome|
            ran(handler, store, records.drop_last(), mid_handler, mid_store) && #[trigger] processed(
                mid_handler,
                mid_store,
                records.last(),
                new_handler,
                new_store,
                Ok(outcome),
            )
    }
}

/// Feeds the transactions of a source to a handler, one at a time and in order,
/// over one store.
pub struct Runner<H, S> where H: TransactionHandler<S>, S: AccountsStorage {
    handler: H,
    accounts_store: S,
}

impl<H, S> Runner<H, S> where H: TransactionHandler<S>, S: AccountsStorage {
    /// The handler of the runner.
    pub closed spec fn handler_of(&self) -> H {
        self.handler
    }

    /// The store of the runner.
    pub closed spec fn store_of(&self) -> S {
        self.accounts_store
    }

    /// Creates a new runner.
    #[must_use]
    pub fn new(handler: H, accounts_storage: S) -> (runner: Self)
        ensures
            runner.handler_of() == handler,
            runner.store_of() == accounts_storage,
    {
        Runner { handler, accounts_store: accounts_storage }
    }

    /// A reference to the handler, for inspection.
    pub fn handler(&self) -> (handler: &H)
        ensures
            *handler == self.handler_of(),
    {
        &self.handler
    }

    /// The context of the run: the store, for the caller to read and change.
    pub fn context(&mut self) -> (context: RunnerContext<'_, S>)
        ensures
            *context.accounts_store == old(self).store_of(),
            final(self).store_of() == *final(context.accounts_store),
            final(self).handler_of() == old(self).handler_of(),
    {
        RunnerContext::new(&mut self.accounts_store)
    }

    /// Takes one record of the source: refuses it if it could not be read or if
    /// its amount does not fit its type, and hands it to the handler otherwise.
    pub fn process(&mut self, record: &Result<Transaction, String>) -> (r: Result<
        RunnerOutcome,
        RunnerError,
    >)
        ensures
            processed(
                old(self).handler_of(),
                old(self).store_of(),
                *record,
                final(self).handler_of(),
                final(self).store_of(),
                r,
            ),
    {
        match record {
            Ok(transaction) => match transaction.validate() {
                Ok(transaction) => {
                    let mut context = RunnerContext::new(&mut self.accounts_store);
                    self.handler.handle(transaction, &mut context)
                },
                Err(TransactionError::InvalidTransaction(reason)) => Err(
                    RunnerError::InvalidRow(
                        "Invalid row [InvalidTransaction(\"".to_owned().concat(
                            reason.as_str(),
                        ).concat("\")]"),
                    ),
                ),
            },
            Err(reason) => Err(
                RunnerError::InvalidRow(
                    "Row could not be deserialized [".to_owned().concat(reason.as_str()).concat(
                        "]",
                    ),
                ),
            ),
        }
    }

    /// Goes through the records in order and handles them, up to the first that
    /// ends in an error, which is returned. Where there is none, the context of
    /// the run is returned, with the store as the last record left it.
    pub fn run_transactions(&mut self, records: Vec<Result<Transaction, String>>) -> (r: Result<
        RunnerContext<'_, S>,
        RunnerError,
    >)
        ensures
            match r {
                Ok(context) => {
                    &&& ran(
                        old(self).handler_of(),
                        old(self).store_of(),
                        records@,
                        final(self).handler_of(),
                        *context.accounts_store,
                    )
                    &&& final(self).store_of() == *final(context.accounts_store)
                },
                Err(error) => exists|n: int, mid_handler: H, mid_store: S|
                    {
                        &&& 0 <= n < records.len()
                        &&& ran(
                            old(self).handler_of(),
                            old(self).store_of(),
                            records@.take(n),
                            mid_handler,
                            mid_store,
                        )
                        &&& #[trigger] processed(
                            mid_handler,
                            mid_store,
                            records[n],
                            final(self).handler_of(),
                            final(self).store_of(),
                            Err::<RunnerOutcome, RunnerError>(error),
                        )
                    },
            },
    {
        let mut i: usize = 0;
        while i < records.len()
            invariant
                i <= records.len(),
                ran(
                    old(self).handler_of(),
                    old(self).store_of(),
                    records@.take(i as int),
                    self.handler_of(),
                    self.store_of(),
                ),
            decreases records.len() - i,
        {
            let ghost mid_handler = self.handler_of();
            let ghost mid_store = self.store_of();
            match self.process(&records[i]) {
                Ok(outcome) => {
                    proof {
                        let done = records@.take(i + 1);
                        assert(done.drop_last() =~= records@.take(i as int));
                        assert(done.last() == records[i as int]);
                        assert(processed(
                            mid_handler,
                            mid_store,
                            done.last(),
                            self.handler_of(),
                            self.store_of(),
                            Ok::<RunnerOutcome, RunnerError>(outcome),
                        ));
                    }
                },
                Err(error) => {
                    return Err(error);
                },
            }
            i = i + 1;
        }
        proof {
            assert(records@.take(i as int) =~= records@);
        }
        Ok(self.context())
    }

    /// The error of a run for an error of its source.
    pub fn handle_csv_error(error: CsvStreamerError) -> (r: RunnerError)
        ensures
            r == (match error {
                CsvStreamerError::CsvReadError(reason) => RunnerError::FileDoesNotExists(reason),
                CsvStreamerError::DeserializeError(reason) => RunnerError::InvalidRow(reason),
            }),
    {
        match error {
            CsvStreamerError::CsvReadError(err) => RunnerError::FileDoesNotExists(err),
            CsvStreamerError::DeserializeError(err) => RunnerError::InvalidRow(err),
        }
    }
}

} // verus!
