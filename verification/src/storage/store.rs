use vstd::prelude::*;
use crate::account::Account;
use crate::client::ClientId;
use crate::transactions::{Transaction, TransactionId};

verus! {

/// Why a store did not do what it was asked.
#[derive(Debug)]
pub enum StoreError {
    /// The store could not be written.
    WriteError,
    /// The store could not be read.
    ReadError,
}

impl StoreError {
    /// The text shown to a user for this error.
    pub fn message(&self) -> (text: String)
        ensures
            text@ == (match self {
                StoreError::WriteError => "Storage write error"@,
                StoreError::ReadError => "Storage read error"@,
            }),
    {
        match self {
            StoreError::WriteError => "Storage write error".to_owned(),
            StoreError::ReadError => "Storage read error".to_owned(),
        }
    }
}

/// What a store holds: the account of each client that has one, and for each client
/// the transactions processed for it, oldest first.
pub struct Ledger {
    pub accounts: Map<ClientId, Account>,
    pub transactions: Map<ClientId, Seq<Transaction>>,
}

impl Ledger {
    /// The ledger before anything was processed.
    pub open spec fn empty() -> Ledger {
        Ledger { accounts: Map::empty(), transactions: Map::empty() }
    }

    /// The account of a client, or the one it would start with.
    pub open spec fn account_of(self, client_id: ClientId) -> Account {
        if self.accounts.contains_key(client_id) {
            self.accounts[client_id]
        } else {
            Account::fresh(client_id)
        }
    }

    /// The transactions processed for a client, oldest first; none if nothing was.
    pub open spec fn history_of(self, client_id: ClientId) -> Seq<Transaction> {
        if self.transactions.contains_key(client_id) {
            self.transactions[client_id]
        } else {
            Seq::empty()
        }
    }

    /// Whether every account is kept under the client it belongs to.
    pub open spec fn well_keyed(self) -> bool {
        forall|client_id: ClientId|
            self.accounts.contains_key(client_id) ==> (#[trigger] self.accounts[client_id]).client_id
                == client_id
    }

    /// The ledger with the account of a client set.
    pub open spec fn with_account(self, account: Account) -> Ledger {
        Ledger { accounts: self.accounts.insert(account.client_id, account), ..self }
    }

    /// The ledger with the history of a client set.
    pub open spec fn with_history(self, client_id: ClientId, history: Seq<Transaction>) -> Ledger {
        Ledger { transactions: self.transactions.insert(client_id, history), ..self }
    }
}

/// Whether a dispute, a resolution or a chargeback that carries `transaction_id` can
/// refer to `transaction`: it has that identifier and moved funds of its own.
pub open spec fn is_target(transaction: Transaction, transaction_id: TransactionId) -> bool {
    transaction.transaction_id == transaction_id && !transaction.disputing()
}

/// The place in `history` of the latest transaction that `transaction_id` can refer
/// to, if there is one.
pub open spec fn latest_target(history: Seq<Transaction>, transaction_id: TransactionId) -> Option<
    int,
>
    decreases history.len(),
{
    if history.len() == 0 {
        None
    } else if is_target(history.last(), transaction_id) {
        Some(history.len() - 1)
    } else {
        latest_target(history.drop_last(), transaction_id)
    }
}

/// `latest_target` finds a transaction that the identifier can refer to, and none
/// that it can refer to comes after it; it finds nothing only where there is none.
pub proof fn latest_target_is_latest(history: Seq<Transaction>, transaction_id: TransactionId)
    ensures
        match latest_target(history, transaction_id) {
            Some(i) => {
                &&& 0 <= i < history.len()
                &&& is_target(history[i], transaction_id)
                &&& forall|j: int| i < j < history.len() ==> !is_target(history[j], transaction_id)
            },
            None => forall|j: int| 0 <= j < history.len() ==> !is_target(history[j], transaction_id),
        },
    decreases history.len(),
{
    if history.len() > 0 && !is_target(history.last(), transaction_id) {
        let front = history.drop_last();
        latest_target_is_latest(front, transaction_id);
        assert forall|j: int| 0 <= j < front.len() implies front[j] == history[j] by {}
        match latest_target(front, transaction_id) {
            Some(i) => {
                assert forall|j: int| i < j < history.len() implies !is_target(
                    history[j],
                    transaction_id,
                ) by {
                    if j < front.len() {
                        assert(front[j] == history[j]);
                    }
                }
            },
            None => {
                assert forall|j: int| 0 <= j < history.len() implies !is_target(
                    history[j],
                    transaction_id,
                ) by {
                    if j < front.len() {
                        assert(front[j] == history[j]);
                    }
                }
            },
        }
    }
}

/// Where accounts and their transaction histories are kept.
///
/// A store may fail to read or write unless it is `reliable`; an operation that
/// fails leaves the store as it was.
pub trait AccountsStorage: Sized {
    /// What the store holds.
    spec fn view(&self) -> Ledger;

    /// Whether reading and writing this store never fails.
    spec fn reliable(&self) -> bool;

    /// Counts the accounts.
    fn count_accounts(&self) -> (count: usize)
        ensures
            self@.accounts.dom().finite(),
            count == self@.accounts.len(),
    ;

    /// Returns a mutable reference to the account of `client_id`. If there is none,
    /// one is created for `client_id` with nothing in it.
    fn get_or_create(&mut self, client_id: ClientId) -> (r: Result<&mut Account, StoreError>)
        ensures
            old(self).reliable() ==> r is Ok,
            final(self).reliable() == old(self).reliable(),
            match r {
                Ok(account) => {
                    &&& *account == old(self)@.account_of(client_id)
                    &&& final(self)@ == (Ledger {
                        accounts: old(self)@.accounts.insert(client_id, *final(account)),
                        ..old(self)@
                    })
                },
                Err(_) => final(self)@ == old(self)@,
            },
    ;

    /// Gets a reference to the account of `client_id`, if there is one.
    fn get(&self, client_id: ClientId) -> (r: Result<Option<&Account>, StoreError>)
        ensures
            self.reliable() ==> r is Ok,
            match r {
                Ok(Some(account)) => self@.accounts.contains_key(client_id) && *account
                    == self@.accounts[client_id],
                Ok(None) => !self@.accounts.contains_key(client_id),
                Err(_) => true,
            },
    ;

    /// Inserts an account, in place of the one its client had.
    fn put(&mut self, account: Account) -> (r: Result<(), StoreError>)
        ensures
            old(self).reliable() ==> r is Ok,
            final(self).reliable() == old(self).reliable(),
            match r {
                Ok(_) => final(self)@ == old(self)@.with_account(account),
                Err(_) => final(self)@ == old(self)@,
            },
    ;

    /// Returns references to all the accounts, in no particular order.
    fn list(&self) -> (accounts: Vec<&Account>)
        ensures
            accounts@.len() == self@.accounts.len(),
            accounts@.unref().to_set() == self@.accounts.values(),
    ;

    /// Appends a transaction to the history of `client_id`.
    fn push_transaction(&mut self, client_id: ClientId, transaction: Transaction)
        ensures
            final(self).reliable() == old(self).reliable(),
            final(self)@ == old(self)@.with_history(
                client_id,
                old(self)@.history_of(client_id).push(transaction),
            ),
    ;

    /// The history of `client_id`, if anything was pushed to it.
    fn get_transactions(&self, client_id: ClientId) -> (r: Option<&Vec<Transaction>>)
        ensures
            match r {
                Some(history) => self@.transactions.contains_key(client_id) && history@
                    == self@.transactions[client_id],
                None => !self@.transactions.contains_key(client_id),
            },
    ;

    /// The history of `client_id` for the caller to change, if anything was pushed
    /// to it.
    fn get_transactions_mut(&mut self, client_id: ClientId) -> (r: Option<&mut Vec<Transaction>>)
        ensures
            final(self).reliable() == old(self).reliable(),
            match r {
                Some(history) => {
                    &&& old(self)@.transactions.contains_key(client_id)
                    &&& history@ == old(self)@.transactions[client_id]
                    &&& final(self)@ == old(self)@.with_history(client_id, final(history)@)
                },
                None => !old(self)@.transactions.contains_key(client_id) && final(self)@ == old(
                    self,
                )@,
            },
    ;

    /// Finds the latest deposit or withdrawal of `client_id` that has the identifier
    /// `transaction_id`.
    fn find_non_disputing_transaction(
        &self,
        client_id: ClientId,
        transaction_id: TransactionId,
    ) -> (r: Option<&Transaction>)
        ensures
            match (r, latest_target(self@.history_of(client_id), transaction_id)) {
                (Some(transaction), Some(i)) => *transaction == self@.history_of(client_id)[i],
                (None, None) => true,
                _ => false,
            },
    ;

    /// Like `find_non_disputing_transaction`, for the caller to change what was
    /// found.
    fn find_non_disputing_transaction_mut(
        &mut self,
        client_id: ClientId,
        transaction_id: TransactionId,
    ) -> (r: Option<&mut Transaction>)
        ensures
            final(self).reliable() == old(self).reliable(),
            match (r, latest_target(old(self)@.history_of(client_id), transaction_id)) {
                (Some(transaction), Some(i)) => {
                    &&& *transaction == old(self)@.history_of(client_id)[i]
                    &&& final(self)@ == old(self)@.with_history(
                        client_id,
                        old(self)@.history_of(client_id).update(i, *final(transaction)),
                    )
                },
                (None, None) => final(self)@ == old(self)@,
                _ => false,
            },
    ;
}

} // verus!
