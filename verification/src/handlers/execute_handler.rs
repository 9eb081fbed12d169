use vstd::prelude::*;
use crate::account::{Account, AccountStatus};
use crate::amount::Amount;
use crate::client::ClientId;
use crate::engine::context::RunnerContext;
use crate::engine::runner::{RunnerError, RunnerOutcome};
use crate::handlers::transaction_handler::TransactionHandler;
use crate::storage::store::{latest_target, latest_target_is_latest, AccountsStorage, Ledger};
use crate::transactions::{
    invalid_transaction_text, Transaction, TransactionId, TransactionStatus, TransactionType,
};

verus! {

/// What a transaction does to the account of its client and to the transaction it
/// refers to.
pub enum Decision {
    /// A balance would leave the range of amounts that can be held.
    Overflow,
    /// Nothing changes.
    Skip,
    /// The account is replaced, and the transaction at the given place of the
    /// client's history, if any, gets the given status.
    Commit { account: Account, marked: Option<(int, TransactionStatus)> },
}

/// What became of a transaction, as far as the rules decide it.
pub enum Verdict {
    /// The amount of the transaction does not fit its type.
    Invalid,
    /// The store keeps, for the client of the transaction, the account of another.
    Misfiled,
    /// A balance would leave the range of amounts that can be held.
    Overflow,
    /// The transaction was recorded, with this outcome.
    Done(RunnerOutcome),
}

/// The transaction that a dispute, a resolution or a chargeback with
/// `transaction_id` refers to, provided it is in the state `status`: its place in
/// `history` and its amount.
pub open spec fn referenced(
    history: Seq<Transaction>,
    transaction_id: TransactionId,
    status: TransactionStatus,
) -> Option<(int, Amount)> {
    match latest_target(history, transaction_id) {
        Some(i) => if history[i].status == status {
            match history[i].amount {
                Some(amount) => Some((i, amount)),
                None => None,
            }
        } else {
            None
        },
        None => None,
    }
}

/// A change of the account, where there is one, together with the mark it leaves on
/// the history.
pub open spec fn commit(account: Option<Account>, marked: Option<(int, TransactionStatus)>)
    -> Decision {
    match account {
        Some(account) => Decision::Commit { account, marked },
        None => Decision::Overflow,
    }
}

/// What a deposit does.
pub open spec fn decide_deposit(account: Account, transaction: Transaction) -> Decision {
    match transaction.amount {
        Some(amount) => commit(account.after_deposit(amount), None),
        None => Decision::Skip,
    }
}

/// What a withdrawal does: nothing, where the available funds do not cover it.
pub open spec fn decide_withdrawal(account: Account, transaction: Transaction) -> Decision {
    match transaction.amount {
        Some(amount) => if account.covers(amount) {
            commit(account.after_withdrawal(amount), None)
        } else {
            Decision::Skip
        },
        None => Decision::Skip,
    }
}

/// What a dispute does: it holds the amount of an executed transaction, which
/// becomes disputed.
pub open spec fn decide_dispute(
    account: Account,
    history: Seq<Transaction>,
    transaction_id: TransactionId,
) -> Decision {
    match referenced(history, transaction_id, TransactionStatus::Executed) {
        Some((i, amount)) => commit(
            account.after_hold(amount),
            Some((i, TransactionStatus::Disputed)),
        ),
        None => Decision::Skip,
    }
}

/// What a resolution does: it releases the amount of a disputed transaction, which
/// is executed again.
pub open spec fn decide_resolve(
    account: Account,
    history: Seq<Transaction>,
    transaction_id: TransactionId,
) -> Decision {
    match referenced(history, transaction_id, TransactionStatus::Disputed) {
        Some((i, amount)) => commit(
            account.after_release(amount),
            Some((i, TransactionStatus::Executed)),
        ),
        None => Decision::Skip,
    }
}

/// The account after `amount` was charged back: the held funds go down and the
/// account is frozen.
pub open spec fn after_chargeback_and_freeze(account: Account, amount: Amount) -> Option<Account> {
    match account.after_chargeback(amount) {
        Some(charged) => Some(Account { status: AccountStatus::Frozen, ..charged }),
        None => None,
    }
}

/// What a chargeback does: it forfeits the amount of a disputed transaction, which
/// becomes charged back, and freezes the account.
pub open spec fn decide_chargeback(
    account: Account,
    history: Seq<Transaction>,
    transaction_id: TransactionId,
) -> Decision {
    match referenced(history, transaction_id, TransactionStatus::Disputed) {
        Some((i, amount)) => commit(
            after_chargeback_and_freeze(account, amount),
            Some((i, TransactionStatus::ChargedBack)),
        ),
        None => Decision::Skip,
    }
}

/// What `transaction` does to `account`, given the history of the client. A frozen
/// account takes nothing.
pub open spec fn decide(account: Account, history: Seq<Transaction>, transaction: Transaction)
    -> Decision {
    if account.is_frozen() {
        Decision::Skip
    } else {
        match transaction.transaction_type {
            TransactionType::Deposit => decide_deposit(account, transaction),
            TransactionType::Withdrawal => decide_withdrawal(account, transaction),
            TransactionType::Dispute => decide_dispute(account, history, transaction.transaction_id),
            TransactionType::Resolve => decide_resolve(account, history, transaction.transaction_id),
            TransactionType::Chargeback => decide_chargeback(
                account,
                history,
                transaction.transaction_id,
            ),
        }
    }
}

/// The outcome that goes with a decision other than `Overflow`.
pub open spec fn outcome_of(decision: Decision) -> RunnerOutcome {
    match decision {
        Decision::Commit { .. } => RunnerOutcome::Success,
        _ => RunnerOutcome::Skipped,
    }
}

/// The status a transaction is recorded with.
pub open spec fn recorded_status(outcome: RunnerOutcome) -> TransactionStatus {
    match outcome {
        RunnerOutcome::Success => TransactionStatus::Executed,
        RunnerOutcome::Skipped => TransactionStatus::Skipped,
    }
}

/// The history with the mark of a decision on it.
pub open spec fn marked_history(history: Seq<Transaction>, decision: Decision) -> Seq<Transaction> {
    match decision {
        Decision::Commit { marked: Some((i, status)), .. } => history.update(
            i,
            history[i].with_status(status),
        ),
        _ => history,
    }
}

/// The account that a decision leaves.
pub open spec fn decided_account(account: Account, decision: Decision) -> Account {
    match decision {
        Decision::Commit { account: changed, .. } => changed,
        _ => account,
    }
}

/// The ledger once the account of `client_id` was looked up, and created if there
/// was none.
pub open spec fn opened(ledger: Ledger, client_id: ClientId) -> Ledger {
    Ledger { accounts: ledger.accounts.insert(client_id, ledger.account_of(client_id)), ..ledger }
}

/// What becomes of `transaction` on `ledger`.
pub open spec fn verdict(ledger: Ledger, transaction: Transaction) -> Verdict {
    let account = ledger.account_of(transaction.client_id);
    let history = ledger.history_of(transaction.client_id);
    if !transaction.well_formed() {
        Verdict::Invalid
    } else if account.client_id != transaction.client_id {
        Verdict::Misfiled
    } else {
        match decide(account, history, transaction) {
            Decision::Overflow => Verdict::Overflow,
            decision => Verdict::Done(outcome_of(decision)),
        }
    }
}

/// The history of the client of `transaction` once it was recorded.
pub open spec fn recorded_history(ledger: Ledger, transaction: Transaction) -> Seq<Transaction> {
    let account = ledger.account_of(transaction.client_id);
    let history = ledger.history_of(transaction.client_id);
    let decision = decide(account, history, transaction);
    marked_history(history, decision).push(
        transaction.with_status(recorded_status(outcome_of(decision))),
    )
}

/// The ledger after `transaction`. An invalid transaction leaves it as it is; one
/// that is refused after the account was looked up leaves only that account
/// behind; any other is appended to the history of its client, with what it did to
/// the account and to the transaction it refers to.
pub open spec fn settle(ledger: Ledger, transaction: Transaction) -> Ledger {
    let client_id = transaction.client_id;
    let account = ledger.account_of(client_id);
    let history = ledger.history_of(client_id);
    match verdict(ledger, transaction) {
        Verdict::Invalid => ledger,
        Verdict::Misfiled | Verdict::Overflow => opened(ledger, client_id),
        Verdict::Done(_) => Ledger {
            accounts: ledger.accounts.insert(
                client_id,
                decided_account(account, decide(account, history, transaction)),
            ),
            transactions: ledger.transactions.insert(
                client_id,
                recorded_history(ledger, transaction),
            ),
        },
    }
}

/// The ledger where `transaction` was recorded and the write of the account then
/// failed.
pub open spec fn recorded_only(ledger: Ledger, transaction: Transaction) -> Ledger {
    Ledger {
        accounts: opened(ledger, transaction.client_id).accounts,
        transactions: settle(ledger, transaction).transactions,
    }
}

/// Whether executing `transaction` can turn `store` into `new_store`, with `result`.
///
/// On a reliable store the result and the new store are decided by `verdict` and
/// `settle`. A store that is not reliable may also fail, before anything was done
/// or after the transaction was recorded.
pub open spec fn executes<S: AccountsStorage>(
    store: S,
    transaction: Transaction,
    new_store: S,
    result: Result<RunnerOutcome, RunnerError>,
) -> bool {
    let settled = new_store@ == settle(store@, transaction);
    &&& new_store.reliable() == store.reliable()
    &&& match result {
        Ok(outcome) => settled && verdict(store@, transaction) == Verdict::Done(outcome),
        Err(RunnerError::InvalidRow(row)) => {
            &&& settled
            &&& verdict(store@, transaction) is Invalid
            &&& row@ == invalid_transaction_text()
        },
        Err(RunnerError::AmountOverflow) => settled && verdict(store@, transaction) is Overflow,
        Err(RunnerError::StorageError) => {
            ||| settled && verdict(store@, transaction) is Misfiled
            ||| {
                &&& !store.reliable()
                &&& !(verdict(store@, transaction) is Invalid)
                &&& new_store@ == store@
            }
            ||| {
                &&& !store.reliable()
                &&& verdict(store@, transaction) is Done
                &&& new_store@ == recorded_only(store@, transaction)
            }
        },
        Err(_) => false,
    }
}

/// A history that is looked up and put back as it was leaves the ledger as it was.
proof fn history_put_back(ledger: Ledger, client_id: ClientId, transaction_id: TransactionId)
    ensures
        match latest_target(ledger.history_of(client_id), transaction_id) {
            Some(i) => {
                let history = ledger.history_of(client_id);
                &&& 0 <= i < history.len()
                &&& ledger.with_history(client_id, history.update(i, history[i])) == ledger
            },
            None => true,
        },
{
    let history = ledger.history_of(client_id);
    latest_target_is_latest(history, transaction_id);
    match latest_target(history, transaction_id) {
        Some(i) => {
            assert(history.update(i, history[i]) =~= history);
            assert(ledger.transactions.insert(client_id, history) =~= ledger.transactions);
        },
        None => {},
    }
}

/// The handler that applies transactions to the accounts of a store.
pub struct ExecuteHandler {}

impl<S: AccountsStorage> TransactionHandler<S> for ExecuteHandler {
    open spec fn handles(
        before: Self,
        store: S,
        transaction: Transaction,
        after: Self,
        new_store: S,
        result: Result<RunnerOutcome, RunnerError>,
    ) -> bool {
        executes(store, transaction, new_store, result)
    }

    fn handle(&mut self, transaction: Transaction, context: &mut RunnerContext<'_, S>) -> (r:
        Result<RunnerOutcome, RunnerError>) {
        let ghost before = context.accounts_store@;
        let transaction = match transaction.validate() {
            Ok(transaction) => transaction,
            Err(error) => {
                return Err(RunnerError::InvalidRow(error.message()));
            },
        };
        let mut account = match context.accounts_store.get_or_create(transaction.client_id) {
            Ok(account) => *account,
            Err(_) => {
                return Err(RunnerError::StorageError);
            },
        };
        if account.client_id != transaction.client_id {
            return Err(RunnerError::StorageError);
        }
        // A frozen account ignores the operation, which is still recorded.
        let decided = if account.frozen() {
            Some(RunnerOutcome::Skipped)
        } else {
            match transaction.transaction_type {
                TransactionType::Deposit => Self::handle_deposit(&mut account, &transaction),
                TransactionType::Withdrawal => Self::handle_withdrawal(&mut account, &transaction),
                TransactionType::Dispute => Self::handle_dispute(
                    &mut account,
                    &transaction,
                    context,
                ),
                TransactionType::Resolve => Self::handle_resolve(
                    &mut account,
                    &transaction,
                    context,
                ),
                TransactionType::Chargeback => Self::handle_chargeback(
                    &mut account,
                    &transaction,
                    context,
                ),
            }
        };
        let outcome = match decided {
            Some(outcome) => outcome,
            None => {
                return Err(RunnerError::AmountOverflow);
            },
        };
        let mut new_transaction = transaction;
        Self::update_transaction(&mut new_transaction, &outcome);
        // Add the transaction to the client's history, then write the account back.
        context.accounts_store.push_transaction(account.client_id, new_transaction);
        proof {
            let recorded = context.accounts_store@;
            let settled = settle(before, transaction);
            assert(recorded.transactions =~= settled.transactions);
            assert(recorded.accounts.insert(account.client_id, account) =~= settled.accounts);
        }
        match context.accounts_store.put(account) {
            Ok(_) => Ok(outcome),
            Err(_) => Err(RunnerError::StorageError),
        }
    }
}

/// Whether `account`, a store and `result` are what `decision` asks for, starting
/// from a store that holds `ledger`: `None` and no change for `Overflow`, else the
/// outcome, the decided account and the marked history of `client_id`.
pub open spec fn carried_out<S: AccountsStorage>(
    decision: Decision,
    before: Account,
    ledger: Ledger,
    client_id: ClientId,
    account: Account,
    new_store: S,
    result: Option<RunnerOutcome>,
) -> bool {
    &&& account == decided_account(before, decision)
    &&& new_store@.accounts == ledger.accounts
    &&& match decision {
        Decision::Overflow => result is None && new_store@ == ledger,
        Decision::Skip => result == Some(RunnerOutcome::Skipped) && new_store@ == ledger,
        Decision::Commit { marked: None, .. } => result == Some(RunnerOutcome::Success)
            && new_store@ == ledger,
        Decision::Commit { marked: Some(_), .. } => result == Some(RunnerOutcome::Success)
            && new_store@ == ledger.with_history(
            client_id,
            marked_history(ledger.history_of(client_id), decision),
        ),
    }
}

impl ExecuteHandler {
    fn update_transaction(transaction: &mut Transaction, outcome: &RunnerOutcome)
        ensures
            *final(transaction) == old(transaction).with_status(recorded_status(*outcome)),
    {
        match outcome {
            RunnerOutcome::Skipped => transaction.skipped(),
            RunnerOutcome::Success => transaction.executed(),
        }
    }

    fn handle_deposit(account: &mut Account, transaction: &Transaction) -> (r: Option<
        RunnerOutcome,
    >)
        ensures
            *final(account) == decided_account(*old(account), decide_deposit(*old(account), *transaction)),
            match decide_deposit(*old(account), *transaction) {
                Decision::Overflow => r is None,
                decision => r == Some(outcome_of(decision)),
            },
    {
        match transaction.amount {
            Some(amount) => if account.try_deposit(amount) {
                Some(RunnerOutcome::Success)
            } else {
                None
            },
            None => Some(RunnerOutcome::Skipped),
        }
    }

    fn handle_withdrawal(account: &mut Account, transaction: &Transaction) -> (r: Option<
        RunnerOutcome,
    >)
        ensures
            *final(account) == decided_account(
                *old(account),
                decide_withdrawal(*old(account), *transaction),
            ),
            match decide_withdrawal(*old(account), *transaction) {
                Decision::Overflow => r is None,
                decision => r == Some(outcome_of(decision)),
            },
    {
        match transaction.amount {
            Some(amount_to_withdraw) => match account.try_withdraw(amount_to_withdraw) {
                Some(Ok(_)) => Some(RunnerOutcome::Success),
                Some(Err(_)) => Some(RunnerOutcome::Skipped),
                None => None,
            },
            None => Some(RunnerOutcome::Skipped),
        }
    }

    /// An earlier transaction is disputed: its funds are held. Only an executed
    /// transaction can be disputed.
    fn handle_dispute<S: AccountsStorage>(
        account: &mut Account,
        transaction: &Transaction,
        context: &mut RunnerContext<'_, S>,
    ) -> (r: Option<RunnerOutcome>)
        ensures
            carried_out(
                decide_dispute(
                    *old(account),
                    old(context).accounts_store@.history_of(transaction.client_id),
                    transaction.transaction_id,
                ),
                *old(account),
                old(context).accounts_store@,
                transaction.client_id,
                *final(account),
                *final(context).accounts_store,
                r,
            ),
            final(context).accounts_store.reliable() == old(context).accounts_store.reliable(),
            *final(final(context).accounts_store) == *final(old(context).accounts_store),
    {
        proof {
            history_put_back(
                context.accounts_store@,
                transaction.client_id,
                transaction.transaction_id,
            );
        }
        match context.accounts_store.find_non_disputing_transaction_mut(
            transaction.client_id,
            transaction.transaction_id,
        ) {
            Some(referred) => {
                match (referred.status, referred.amount) {
                    (TransactionStatus::Executed, Some(amount)) => {
                        if account.try_hold(amount) {
                            referred.dispute();
                            Some(RunnerOutcome::Success)
                        } else {
                            None
                        }
                    },
                    _ => {
                        // The transaction referred to is not in a state to be disputed.
                        Some(RunnerOutcome::Skipped)
                    },
                }
            },
            None => {
                // The transaction does not exist.
                Some(RunnerOutcome::Skipped)
            },
        }
    }

    /// A dispute is resolved: the held funds are released.
    fn handle_resolve<S: AccountsStorage>(
        account: &mut Account,
        transaction: &Transaction,
        context: &mut RunnerContext<'_, S>,
    ) -> (r: Option<RunnerOutcome>)
        ensures
            carried_out(
                decide_resolve(
                    *old(account),
                    old(context).accounts_store@.history_of(transaction.client_id),
                    transaction.transaction_id,
                ),
                *old(account),
                old(context).accounts_store@,
                transaction.client_id,
                *final(account),
                *final(context).accounts_store,
                r,
            ),
            final(context).accounts_store.reliable() == old(context).accounts_store.reliable(),
            *final(final(context).accounts_store) == *final(old(context).accounts_store),
    {
        proof {
            history_put_back(
                context.accounts_store@,
                transaction.client_id,
                transaction.transaction_id,
            );
        }
        match context.accounts_store.find_non_disputing_transaction_mut(
            transaction.client_id,
            transaction.transaction_id,
        ) {
            Some(referred) => {
                match (referred.status, referred.amount) {
                    (TransactionStatus::Disputed, Some(amount)) => {
                        if account.try_release(amount) {
                            referred.resolve();
                            Some(RunnerOutcome::Success)
                        } else {
                            None
                        }
                    },
                    _ => {
                        // The transaction referred to is not disputed.
                        Some(RunnerOutcome::Skipped)
                    },
                }
            },
            None => {
                // The transaction does not exist.
                Some(RunnerOutcome::Skipped)
            },
        }
    }

    /// A dispute ends in a chargeback: the held funds are lost for good and the
    /// account is frozen.
    fn handle_chargeback<S: AccountsStorage>(
        account: &mut Account,
        transaction: &Transaction,
        context: &mut RunnerContext<'_, S>,
    ) -> (r: Option<RunnerOutcome>)
        ensures
            carried_out(
                decide_chargeback(
                    *old(account),
                    old(context).accounts_store@.history_of(transaction.client_id),
                    transaction.transaction_id,
                ),
                *old(account),
                old(context).accounts_store@,
                transaction.client_id,
                *final(account),
                *final(context).accounts_store,
                r,
            ),
            final(context).accounts_store.reliable() == old(context).accounts_store.reliable(),
            *final(final(context).accounts_store) == *final(old(context).accounts_store),
    {
        proof {
            history_put_back(
                context.accounts_store@,
                transaction.client_id,
                transaction.transaction_id,
            );
        }
        match context.accounts_store.find_non_disputing_transaction_mut(
            transaction.client_id,
            transaction.transaction_id,
        ) {
            Some(referred) => {
                match (referred.status, referred.amount) {
                    (TransactionStatus::Disputed, Some(amount)) => {
                        if account.try_chargeback(amount) {
                            referred.chargeback();
                            account.freeze();
                            Some(RunnerOutcome::Success)
                        } else {
                            None
                        }
                    },
                    _ => {
                        // The transaction referred to is not disputed.
                        Some(RunnerOutcome::Skipped)
                    },
                }
            },
            None => {
                // The transaction does not exist.
                Some(RunnerOutcome::Skipped)
            },
        }
    }
}

} // verus!
