use vstd::prelude::*;
use vstd::std_specs::iter::IteratorSpec;
use std::collections::hash_map::Entry;
use std::collections::HashMap;
use crate::account::Account;
use crate::client::ClientId;
use crate::storage::store::{latest_target, AccountsStorage, Ledger, StoreError};
use crate::transactions::{Transaction, TransactionId};

verus! {

broadcast use vstd::std_specs::hash::group_hash_axioms;

/// A store that keeps everything in memory. It never fails.
pub struct InMemoryAccountsStorage {
    accounts: HashMap<ClientId, Account>,
    accounts_transactions: HashMap<ClientId, Vec<Transaction>>,
}

impl Default for InMemoryAccountsStorage {
    fn default() -> (store: InMemoryAccountsStorage)
        ensures
            store@ == Ledger::empty(),
    {
        let store = InMemoryAccountsStorage {
            accounts: HashMap::new(),
            accounts_transactions: HashMap::new(),
        };
        assert(histories(store.accounts_transactions@) =~= Map::empty());
        store
    }
}

/// The histories that a map of vectors holds.
spec fn histories(m: Map<ClientId, Vec<Transaction>>) -> Map<ClientId, Seq<Transaction>> {
    Map::new(|c: ClientId| m.contains_key(c), |c: ClientId| m[c]@)
}

broadcast proof fn histories_after_insert(
    m: Map<ClientId, Vec<Transaction>>,
    client_id: ClientId,
    history: Vec<Transaction>,
)
    ensures
        #[trigger] histories(m.insert(client_id, history)) == histories(m).insert(
            client_id,
            history@,
        ),
{
    assert(histories(m.insert(client_id, history)) =~= histories(m).insert(client_id, history@));
}

broadcast proof fn histories_after_remove(m: Map<ClientId, Vec<Transaction>>, client_id: ClientId)
    ensures
        #[trigger] histories(m.remove(client_id)) == histories(m).remove(client_id),
        !m.contains_key(client_id) ==> m.remove(client_id) == m,
{
    assert(histories(m.remove(client_id)) =~= histories(m).remove(client_id));
    if !m.contains_key(client_id) {
        assert(m.remove(client_id) =~= m);
    }
}

/// The place of the latest transaction in `history` that `transaction_id` can refer
/// to, if there is one.
fn find_latest(history: &Vec<Transaction>, transaction_id: TransactionId) -> (r: Option<usize>)
    ensures
        match r {
            Some(i) => i < history.len() && latest_target(history@, transaction_id) == Some(
                i as int,
            ),
            None => latest_target(history@, transaction_id) is None,
        },
{
    let mut n: usize = history.len();
    proof {
        assert(history@.take(n as int) =~= history@);
    }
    while n > 0
        invariant
            n <= history.len(),
            latest_target(history@, transaction_id) == latest_target(
                history@.take(n as int),
                transaction_id,
            ),
        decreases n,
    {
        let candidate = &history[n - 1];
        proof {
            assert(history@.take(n as int).last() == history@[n - 1]);
            assert(history@.take(n as int).drop_last() =~= history@.take(n - 1));
        }
        if candidate.transaction_id == transaction_id && !candidate.is_disputing() {
            return Some(n - 1);
        }
        n = n - 1;
    }
    proof {
        assert(history@.take(0).len() == 0);
    }
    None
}

impl AccountsStorage for InMemoryAccountsStorage {
    closed spec fn view(&self) -> Ledger {
        Ledger { accounts: self.accounts@, transactions: histories(self.accounts_transactions@) }
    }

    open spec fn reliable(&self) -> bool {
        true
    }

    fn count_accounts(&self) -> (count: usize) {
        self.accounts.len()
    }

    fn get_or_create(&mut self, client_id: ClientId) -> (r: Result<&mut Account, StoreError>) {
        let account = self.accounts.entry(client_id).or_insert(Account::new(client_id));
        Ok(account)
    }

    fn get(&self, client_id: ClientId) -> (r: Result<Option<&Account>, StoreError>) {
        let maybe_account = self.accounts.get(&client_id);
        Ok(maybe_account)
    }

    fn put(&mut self, account: Account) -> (r: Result<(), StoreError>) {
        self.accounts.insert(account.client_id, account);
        Ok(())
    }

    fn list(&self) -> (accounts: Vec<&Account>) {
        let mut accounts: Vec<&Account> = Vec::new();
        let ghost all = vstd::std_specs::hash::spec_values_iter(&self.accounts).remaining();
        for account in it: self.accounts.values()
            invariant
                it.seq() == all,
                accounts@ == it.seq().take(it.index()),
        {
            accounts.push(account);
            assert(accounts@ =~= it.seq().take(it.index() + 1));
        }
        assert(accounts@ =~= all);
        accounts
    }

    fn push_transaction(&mut self, client_id: ClientId, transaction: Transaction) {
        broadcast use histories_after_insert;
        let history = self.accounts_transactions.entry(client_id).or_insert(Vec::new());
        history.push(transaction);
    }

    fn get_transactions(&self, client_id: ClientId) -> (r: Option<&Vec<Transaction>>) {
        self.accounts_transactions.get(&client_id)
    }

    fn get_transactions_mut(&mut self, client_id: ClientId) -> (r: Option<&mut Vec<Transaction>>) {
        broadcast use histories_after_insert, histories_after_remove;
        match self.accounts_transactions.entry(client_id) {
            Entry::Occupied(entry) => Some(entry.into_mut()),
            Entry::Vacant(_) => None,
        }
    }

    fn find_non_disputing_transaction(
        &self,
        client_id: ClientId,
        transaction_id: TransactionId,
    ) -> (r: Option<&Transaction>) {
        let history = self.accounts_transactions.get(&client_id)?;
        match find_latest(history, transaction_id) {
            Some(i) => Some(&history[i]),
            None => None,
        }
    }

    fn find_non_disputing_transaction_mut(
        &mut self,
        client_id: ClientId,
        transaction_id: TransactionId,
    ) -> (r: Option<&mut Transaction>) {
        match self.get_transactions_mut(client_id) {
            Some(history) => match find_latest(history, transaction_id) {
                Some(i) => Some(&mut history[i]),
                None => {
                    assert(old(self)@.transactions.insert(client_id, history@) =~= old(
                        self,
                    )@.transactions);
                    None
                },
            },
            None => None,
        }
    }
}

} // verus!
