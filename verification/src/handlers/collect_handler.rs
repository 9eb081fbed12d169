use vstd::prelude::*;
use crate::engine::context::RunnerContext;
use crate::engine::runner::{RunnerError, RunnerOutcome};
use crate::handlers::transaction_handler::TransactionHandler;
use crate::storage::store::AccountsStorage;
use crate::transactions::Transaction;

verus! {

/// A handler that keeps every transaction it is given, in order, and touches no
/// store.
pub struct CollectHandler {
    pub transactions: Vec<Transaction>,
}

impl<S: AccountsStorage> TransactionHandler<S> for CollectHandler {
    open spec fn handles(
        before: Self,
        store: S,
        transaction: Transaction,
        after: Self,
        new_store: S,
        result: Result<RunnerOutcome, RunnerError>,
    ) -> bool {
        &&& after.transactions@ == before.transactions@.push(transaction)
        &&& new_store == store
        &&& result == Ok::<RunnerOutcome, RunnerError>(RunnerOutcome::Success)
    }

    fn handle(&mut self, transaction: Transaction, _context: &mut RunnerContext<'_, S>) -> (r:
        Result<RunnerOutcome, RunnerError>) {
        self.transactions.push(transaction);
        Ok(RunnerOutcome::Success)
    }
}

} // verus!
