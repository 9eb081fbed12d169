use vstd::prelude::*;
use crate::storage::store::AccountsStorage;

verus! {

/// What a handler works on while a run lasts: the store of the run.
pub struct RunnerContext<'a, S: AccountsStorage> {
    pub accounts_store: &'a mut S,
}

impl<'a, S: AccountsStorage> RunnerContext<'a, S> {
    /// A context over `accounts_store`, which it refers to until it is dropped.
    pub fn new(accounts_store: &'a mut S) -> (context: Self)
        ensures
            *context.accounts_store == *old(accounts_store),
            *final(context.accounts_store) == *final(accounts_store),
    {
        RunnerContext { accounts_store }
    }
}

} // verus!
