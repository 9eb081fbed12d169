use vstd::prelude::*;
use crate::client::ClientId;
use crate::engine::runner::{processed, ran, RunnerError, RunnerOutcome};
use crate::handlers::collect_handler::CollectHandler;
use crate::handlers::execute_handler::{
    decide, executes, recorded_status, settle, verdict, ExecuteHandler, Verdict,
};
use crate::storage::store::{
    is_target, latest_target, latest_target_is_latest, AccountsStorage, Ledger,
};
use crate::transactions::{Transaction, TransactionId, TransactionStatus, TransactionType};

verus! {

/// The ledger after each of `transactions` in turn.
pub open spec fn settle_all(ledger: Ledger, transactions: Seq<Transaction>) -> Ledger
    decreases transactions.len(),
{
    if transactions.len() == 0 {
        ledger
    } else {
        settle(settle_all(ledger, transactions.drop_last()), transactions.last())
    }
}

/// Whether each of `transactions`, taken in turn from `ledger` on, was recorded.
pub open spec fn all_recorded(ledger: Ledger, transactions: Seq<Transaction>) -> bool
    decreases transactions.len(),
{
    transactions.len() == 0 || {
        &&& all_recorded(ledger, transactions.drop_last())
        &&& verdict(settle_all(ledger, transactions.drop_last()), transactions.last()) is Done
    }
}

/// Those of `transactions` that are of `client_id`, in their order.
pub open spec fn records_of(transactions: Seq<Transaction>, client_id: ClientId) -> Seq<
    Transaction,
>
    decreases transactions.len(),
{
    if transactions.len() == 0 {
        Seq::empty()
    } else if transactions.last().client_id == client_id {
        records_of(transactions.drop_last(), client_id).push(transactions.last())
    } else {
        records_of(transactions.drop_last(), client_id)
    }
}

/// Whether a later record can take a recorded transaction from the status `before`
/// to the status `after`: a dispute takes an executed transaction to `Disputed`, a
/// resolution takes a disputed one back to `Executed`, and a chargeback takes a
/// disputed one to `ChargedBack`.
pub open spec fn follows(before: TransactionStatus, after: TransactionStatus) -> bool {
    ||| before == TransactionStatus::Executed && after == TransactionStatus::Disputed
    ||| before == TransactionStatus::Disputed && after == TransactionStatus::Executed
    ||| before == TransactionStatus::Disputed && after == TransactionStatus::ChargedBack
}

/// A status that a transaction can have once it was processed.
pub open spec fn is_terminal(status: TransactionStatus) -> bool {
    status != TransactionStatus::Ready
}

/// Whether every transaction of every history was processed.
pub open spec fn all_terminal(ledger: Ledger) -> bool {
    forall|client_id: ClientId, i: int|
        0 <= i < ledger.history_of(client_id).len() ==> is_terminal(
            #[trigger] ledger.history_of(client_id)[i].status,
        )
}

/// The transactions that a source yields, where it yields only transactions.
pub open spec fn transactions_of(records: Seq<Result<Transaction, String>>) -> Seq<Transaction> {
    Seq::new(records.len(), |i: int| records[i]->Ok_0)
}

/// On a store that never fails, what executing a transaction returns and leaves is
/// decided by the ledger and the transaction alone: it succeeds exactly where the
/// transaction is recorded, and the store then holds the settled ledger.
pub proof fn reliable_store_decides<S: AccountsStorage>(
    store: S,
    transaction: Transaction,
    new_store: S,
    result: Result<RunnerOutcome, RunnerError>,
)
    requires
        store.reliable(),
        executes(store, transaction, new_store, result),
    ensures
        new_store@ == settle(store@, transaction),
        match verdict(store@, transaction) {
            Verdict::Done(outcome) => result == Ok::<RunnerOutcome, RunnerError>(outcome),
            Verdict::Invalid => result is Err && result->Err_0 is InvalidRow,
            Verdict::Misfiled => result is Err && result->Err_0 is StorageError,
            Verdict::Overflow => result is Err && result->Err_0 is AmountOverflow,
        },
{
}

/// A record leaves the account and the history of every other client as they were.
pub proof fn other_clients_are_untouched(ledger: Ledger, transaction: Transaction, other: ClientId)
    requires
        other != transaction.client_id,
    ensures
        settle(ledger, transaction).accounts.contains_key(other) == ledger.accounts.contains_key(
            other,
        ),
        settle(ledger, transaction).account_of(other) == ledger.account_of(other),
        settle(ledger, transaction).transactions.contains_key(other)
            == ledger.transactions.contains_key(other),
        settle(ledger, transaction).history_of(other) == ledger.history_of(other),
{
}

/// Once an account is frozen, no record changes it: neither what is available nor
/// what is held. A record of its own client that is recorded is skipped.
pub proof fn frozen_account_stays_as_it_is(
    ledger: Ledger,
    transaction: Transaction,
    client_id: ClientId,
)
    requires
        ledger.accounts.contains_key(client_id),
        ledger.accounts[client_id].is_frozen(),
    ensures
        settle(ledger, transaction).accounts.contains_key(client_id),
        settle(ledger, transaction).accounts[client_id] == ledger.accounts[client_id],
        transaction.client_id == client_id ==> match verdict(ledger, transaction) {
            Verdict::Done(outcome) => outcome == RunnerOutcome::Skipped,
            Verdict::Overflow => false,
            _ => true,
        },
{
}

/// Once an account is frozen, no sequence of records changes it.
pub proof fn frozen_account_stays_for_good(
    ledger: Ledger,
    transactions: Seq<Transaction>,
    client_id: ClientId,
)
    requires
        ledger.accounts.contains_key(client_id),
        ledger.accounts[client_id].is_frozen(),
    ensures
        settle_all(ledger, transactions).accounts.contains_key(client_id),
        settle_all(ledger, transactions).accounts[client_id] == ledger.accounts[client_id],
    decreases transactions.len(),
{
    if transactions.len() > 0 {
        frozen_account_stays_for_good(ledger, transactions.drop_last(), client_id);
        frozen_account_stays_as_it_is(
            settle_all(ledger, transactions.drop_last()),
            transactions.last(),
            client_id,
        );
    }
}

/// What a dispute, a resolution or a chargeback refers to depends on the
/// identifiers and the types of the transactions of a history, not on what was
/// done with them.
pub proof fn latest_target_ignores_status(
    history: Seq<Transaction>,
    marked: Seq<Transaction>,
    transaction_id: TransactionId,
)
    requires
        history.len() == marked.len(),
        forall|i: int| 0 <= i < history.len() ==> (#[trigger] marked[i]).same_record(history[i]),
    ensures
        latest_target(marked, transaction_id) == latest_target(history, transaction_id),
    decreases history.len(),
{
    if history.len() > 0 {
        assert(marked.last().same_record(history.last()));
        assert(is_target(marked.last(), transaction_id) == is_target(
            history.last(),
            transaction_id,
        ));
        assert forall|i: int| 0 <= i < history.drop_last().len() implies (
        #[trigger] marked.drop_last()[i]).same_record(history.drop_last()[i]) by {
            assert(marked[i].same_record(history[i]));
        }
        latest_target_ignores_status(history.drop_last(), marked.drop_last(), transaction_id);
    }
}

/// A recorded transaction is appended to the history of its client, once, with the
/// status `Executed` or `Skipped`. The transactions before it stay in their places;
/// at most one of them gets another status, and only one that `follows` from the
/// status it had.
pub proof fn record_is_appended_once(ledger: Ledger, transaction: Transaction)
    requires
        verdict(ledger, transaction) is Done,
    ensures
        ({
            let before = ledger.history_of(transaction.client_id);
            let after = settle(ledger, transaction).history_of(transaction.client_id);
            &&& after.len() == before.len() + 1
            &&& after.last() == transaction.with_status(
                recorded_status(verdict(ledger, transaction)->Done_0),
            )
            &&& forall|i: int|
                0 <= i < before.len() ==> {
                    &&& (#[trigger] after[i]).same_record(before[i])
                    &&& after[i].status == before[i].status || follows(
                        before[i].status,
                        after[i].status,
                    )
                }
            &&& forall|i: int, j: int|
                0 <= i < j < before.len() ==> #[trigger] after[i] == before[i] || #[trigger] after[j]
                    == before[j]
        }),
{
    let before = ledger.history_of(transaction.client_id);
    let account = ledger.account_of(transaction.client_id);
    latest_target_is_latest(before, transaction.transaction_id);
    let decision = decide(account, before, transaction);
    let after = settle(ledger, transaction).history_of(transaction.client_id);
    assert(after.len() == before.len() + 1);
}

/// A transaction that was skipped or charged back stays as it is, whatever is
/// recorded after it.
pub proof fn closed_records_never_change(ledger: Ledger, transaction: Transaction, i: int)
    requires
        0 <= i < ledger.history_of(transaction.client_id).len(),
        ledger.history_of(transaction.client_id)[i].status == TransactionStatus::Skipped
            || ledger.history_of(transaction.client_id)[i].status == TransactionStatus::ChargedBack,
    ensures
        i < settle(ledger, transaction).history_of(transaction.client_id).len(),
        settle(ledger, transaction).history_of(transaction.client_id)[i] == ledger.history_of(
            transaction.client_id,
        )[i],
{
    if verdict(ledger, transaction) is Done {
        record_is_appended_once(ledger, transaction);
        let before = ledger.history_of(transaction.client_id);
        let after = settle(ledger, transaction).history_of(transaction.client_id);
        assert(after[i].same_record(before[i]));
    }
}

/// Only a chargeback freezes an account: where a record leaves the account of its
/// client frozen that was not frozen before, the record is a chargeback and it
/// succeeded.
pub proof fn only_a_chargeback_freezes(ledger: Ledger, transaction: Transaction)
    requires
        !ledger.account_of(transaction.client_id).is_frozen(),
        settle(ledger, transaction).account_of(transaction.client_id).is_frozen(),
    ensures
        transaction.transaction_type == TransactionType::Chargeback,
        verdict(ledger, transaction) == Verdict::Done(RunnerOutcome::Success),
{
}

/// Settling a recorded transaction keeps every history free of unprocessed
/// transactions.
pub proof fn histories_stay_terminal(ledger: Ledger, transaction: Transaction)
    requires
        all_terminal(ledger),
    ensures
        all_terminal(settle(ledger, transaction)),
{
    let settled = settle(ledger, transaction);
    assert forall|client_id: ClientId, i: int|
        0 <= i < settled.history_of(client_id).len() implies is_terminal(
        #[trigger] settled.history_of(client_id)[i].status,
    ) by {
        if client_id == transaction.client_id && verdict(ledger, transaction) is Done {
            record_is_appended_once(ledger, transaction);
            let before = ledger.history_of(client_id);
            if i < before.len() {
                assert(is_terminal(ledger.history_of(client_id)[i].status));
                assert(settled.history_of(client_id)[i].same_record(before[i]));
            }
        } else {
            assert(settled.history_of(client_id) == ledger.history_of(client_id));
            assert(is_terminal(ledger.history_of(client_id)[i].status));
        }
    }
}

/// Every processed record appears exactly once in the history of its client, with a
/// status that shows it was processed: after a run from an empty ledger in which
/// every record was recorded, the history of each client holds the records of that
/// client, in their order and nothing else.
pub proof fn history_holds_each_record_once(transactions: Seq<Transaction>, client_id: ClientId)
    requires
        all_recorded(Ledger::empty(), transactions),
    ensures
        ({
            let history = settle_all(Ledger::empty(), transactions).history_of(client_id);
            let records = records_of(transactions, client_id);
            &&& history.len() == records.len()
            &&& forall|i: int|
                0 <= i < history.len() ==> {
                    &&& (#[trigger] history[i]).same_record(records[i])
                    &&& is_terminal(history[i].status)
                }
        }),
    decreases transactions.len(),
{
    if transactions.len() > 0 {
        let front = transactions.drop_last();
        let last = transactions.last();
        let ledger = settle_all(Ledger::empty(), front);
        history_holds_each_record_once(front, client_id);
        let before = ledger.history_of(client_id);
        let history = settle(ledger, last).history_of(client_id);
        let records = records_of(transactions, client_id);
        if last.client_id == client_id {
            record_is_appended_once(ledger, last);
            assert forall|i: int| 0 <= i < history.len() implies {
                &&& (#[trigger] history[i]).same_record(records[i])
                &&& is_terminal(history[i].status)
            } by {
                if i < before.len() {
                    assert(history[i].same_record(before[i]));
                    assert(before[i].same_record(records_of(front, client_id)[i]));
                    assert(is_terminal(before[i].status));
                }
            }
        } else {
            other_clients_are_untouched(ledger, last, client_id);
        }
    }
}

/// Settling a transaction keeps every account under the client it belongs to.
pub proof fn accounts_stay_well_keyed(ledger: Ledger, transaction: Transaction)
    requires
        ledger.well_keyed(),
    ensures
        settle(ledger, transaction).well_keyed(),
        !(verdict(ledger, transaction) is Misfiled),
{
}

/// A dispute, a resolution or a chargeback that refers to nothing is skipped: where
/// no deposit and no withdrawal of the client carries its identifier, it is recorded
/// as skipped and the account stays as it is.
pub proof fn reference_to_nothing_is_skipped(ledger: Ledger, transaction: Transaction)
    requires
        ledger.well_keyed(),
        transaction.well_formed(),
        transaction.disputing(),
        latest_target(ledger.history_of(transaction.client_id), transaction.transaction_id) is None,
    ensures
        verdict(ledger, transaction) == Verdict::Done(RunnerOutcome::Skipped),
        settle(ledger, transaction).account_of(transaction.client_id) == ledger.account_of(
            transaction.client_id,
        ),
        settle(ledger, transaction).history_of(transaction.client_id) == ledger.history_of(
            transaction.client_id,
        ).push(transaction.with_status(TransactionStatus::Skipped)),
{
}

/// A withdrawal of more than is available is skipped: it is recorded as skipped and
/// the account stays as it is.
pub proof fn withdrawal_beyond_available_is_skipped(ledger: Ledger, transaction: Transaction)
    requires
        ledger.well_keyed(),
        transaction.transaction_type == TransactionType::Withdrawal,
        transaction.amount is Some,
        !ledger.account_of(transaction.client_id).covers(transaction.amount->0),
    ensures
        verdict(ledger, transaction) == Verdict::Done(RunnerOutcome::Skipped),
        settle(ledger, transaction).account_of(transaction.client_id) == ledger.account_of(
            transaction.client_id,
        ),
        settle(ledger, transaction).history_of(transaction.client_id) == ledger.history_of(
            transaction.client_id,
        ).push(transaction.with_status(TransactionStatus::Skipped)),
{
}

/// Disputing the same transaction twice: the second dispute is skipped, whatever
/// became of the first, as long as the first was recorded.
pub proof fn second_dispute_is_skipped(ledger: Ledger, first: Transaction, second: Transaction)
    requires
        first.transaction_type == TransactionType::Dispute,
        second.transaction_type == TransactionType::Dispute,
        second.client_id == first.client_id,
        second.transaction_id == first.transaction_id,
        second.well_formed(),
        verdict(ledger, first) is Done,
    ensures
        verdict(settle(ledger, first), second) == Verdict::Done(RunnerOutcome::Skipped),
{
    let client_id = first.client_id;
    let before = ledger.history_of(client_id);
    let after = settle(ledger, first).history_of(client_id);
    record_is_appended_once(ledger, first);
    latest_target_is_latest(before, first.transaction_id);
    let marked = after.drop_last();
    assert forall|i: int| 0 <= i < before.len() implies (#[trigger] marked[i]).same_record(
        before[i],
    ) by {
        assert(after[i].same_record(before[i]));
    }
    latest_target_ignores_status(before, marked, first.transaction_id);
    assert(latest_target(after, first.transaction_id) == latest_target(
        marked,
        first.transaction_id,
    ));
}

/// A run of the executing handler that ends without an error has recorded every
/// record of its source, and leaves the store with the ledger settled by each of
/// them in turn.
pub proof fn run_settles_every_record<S: AccountsStorage>(
    handler: ExecuteHandler,
    store: S,
    records: Seq<Result<Transaction, String>>,
    new_handler: ExecuteHandler,
    new_store: S,
)
    requires
        ran(handler, store, records, new_handler, new_store),
    ensures
        forall|i: int| 0 <= i < records.len() ==> (#[trigger] records[i]) is Ok,
        all_recorded(store@, transactions_of(records)),
        new_store@ == settle_all(store@, transactions_of(records)),
        new_store.reliable() == store.reliable(),
    decreases records.len(),
{
    if records.len() > 0 {
        let front = records.drop_last();
        let (mid_handler, mid_store, outcome) = choose|
            mid_handler: ExecuteHandler,
            mid_store: S,
            outcome: RunnerOutcome,
        |
            ran(handler, store, front, mid_handler, mid_store) && #[trigger] processed(
                mid_handler,
                mid_store,
                records.last(),
                new_handler,
                new_store,
                Ok(outcome),
            );
        run_settles_every_record(handler, store, front, mid_handler, mid_store);
        assert(transactions_of(records).drop_last() =~= transactions_of(front));
        assert(transactions_of(records).last() == records.last()->Ok_0);
        assert forall|i: int| 0 <= i < records.len() implies (#[trigger] records[i]) is Ok by {
            if i < front.len() {
                assert(front[i] is Ok);
            }
        }
    } else {
        assert(transactions_of(records) =~= Seq::empty());
    }
}

/// A run of the collecting handler keeps every record of its source, in order,
/// behind those it had, and leaves the store as it was.
pub proof fn collecting_run_keeps_every_record<S: AccountsStorage>(
    handler: CollectHandler,
    store: S,
    records: Seq<Result<Transaction, String>>,
    new_handler: CollectHandler,
    new_store: S,
)
    requires
        ran(handler, store, records, new_handler, new_store),
    ensures
        forall|i: int| 0 <= i < records.len() ==> (#[trigger] records[i]) is Ok,
        new_handler.transactions@ == handler.transactions@ + transactions_of(records),
        new_store == store,
    decreases records.len(),
{
    if records.len() > 0 {
        let front = records.drop_last();
        let (mid_handler, mid_store, outcome) = choose|
            mid_handler: CollectHandler,
            mid_store: S,
            outcome: RunnerOutcome,
        |
            ran(handler, store, front, mid_handler, mid_store) && #[trigger] processed(
                mid_handler,
                mid_store,
                records.last(),
                new_handler,
                new_store,
                Ok(outcome),
            );
        collecting_run_keeps_every_record(handler, store, front, mid_handler, mid_store);
        assert(transactions_of(records).drop_last() =~= transactions_of(front));
        assert(new_handler.transactions@ =~= handler.transactions@ + transactions_of(records));
        assert forall|i: int| 0 <= i < records.len() implies (#[trigger] records[i]) is Ok by {
            if i < front.len() {
                assert(front[i] is Ok);
            }
        }
    } else {
        assert(handler.transactions@ + transactions_of(records) =~= handler.transactions@);
    }
}

} // verus!
