use vstd::prelude::*;
use crate::engine::context::RunnerContext;
use crate::engine::runner::{RunnerError, RunnerOutcome};
use crate::storage::store::AccountsStorage;
use crate::transactions::Transaction;

verus! {

/// What is done with each transaction of a run.
pub trait TransactionHandler<S: AccountsStorage>: Sized {
    /// Whether handling `transaction` can turn the handler `before` and the store
    /// `store` into `after` and `new_store`, with `result`.
    spec fn handles(
        before: Self,
        store: S,
        transaction: Transaction,
        after: Self,
        new_store: S,
        result: Result<RunnerOutcome, RunnerError>,
    ) -> bool;

    /// Handles the transaction. The context keeps referring to the same store.
    fn handle(&mut self, transaction: Transaction, context: &mut RunnerContext<'_, S>) -> (r:
        Result<RunnerOutcome, RunnerError>)
        ensures
            Self::handles(
                *old(self),
                *old(context).accounts_store,
                transaction,
                *final(self),
                *final(context).accounts_store,
                r,
            ),
            *final(final(context).accounts_store) == *final(old(context).accounts_store),
    ;
}

} // verus!
