use vstd::prelude::*;
use crate::amount::Amount;
use crate::client::ClientId;
use crate::decimal::{checked_add, checked_sub, decimal_difference, decimal_sum, less_than};

verus! {

/// Why an operation on an account was not carried out.
#[derive(Debug)]
pub enum AccountOperationError {
    NotEnoughFunds,
}

impl AccountOperationError {
    /// The text shown to a user for this error.
    pub fn message(&self) -> (text: String)
        ensures
            text@ == "Not enough funds for the operation"@,
    {
        "Not enough funds for the operation".to_owned()
    }
}

/// Whether an account takes transactions.
#[derive(Clone, Copy, PartialEq, Eq, Structural, Debug)]
pub enum AccountStatus {
    /// The account is operational.
    Operational,
    /// The account has been frozen and no operation shall be performed on it.
    Frozen,
}

/// The balance of one client.
#[derive(Clone, Copy, Debug)]
pub struct Account {
    pub client_id: ClientId,
    /// Funds on hold until a dispute is settled.
    pub held_amount: Amount,
    /// Funds available to the client.
    pub amount: Amount,
    pub status: AccountStatus,
}

impl Account {
    /// The account a client starts with: nothing available, nothing held, operational.
    pub open spec fn fresh(client_id: ClientId) -> Account {
        Account {
            client_id,
            held_amount: Amount::zero_amount(),
            amount: Amount::zero_amount(),
            status: AccountStatus::Operational,
        }
    }

    /// Whether the account is frozen.
    pub open spec fn is_frozen(self) -> bool {
        self.status == AccountStatus::Frozen
    }

    /// Available plus held; `None` where the sum cannot be held.
    pub open spec fn total_of(self) -> Option<Amount> {
        decimal_sum(self.amount, self.held_amount)
    }

    /// The account after `amount` was added to the available funds; `None` where the
    /// sum cannot be held.
    pub open spec fn after_deposit(self, amount: Amount) -> Option<Account> {
        match decimal_sum(self.amount, amount) {
            Some(available) => Some(Account { amount: available, ..self }),
            None => None,
        }
    }

    /// Whether the available funds cover `amount`.
    pub open spec fn covers(self, amount: Amount) -> bool {
        self.amount.units() >= amount.units()
    }

    /// The account after `amount` was taken from the available funds; `None` where
    /// the difference cannot be held.
    pub open spec fn after_withdrawal(self, amount: Amount) -> Option<Account> {
        match decimal_difference(self.amount, amount) {
            Some(available) => Some(Account { amount: available, ..self }),
            None => None,
        }
    }

    /// The account after `amount` was moved from available to held; `None` where one
    /// of the two results cannot be held.
    pub open spec fn after_hold(self, amount: Amount) -> Option<Account> {
        match (decimal_difference(self.amount, amount), decimal_sum(self.held_amount, amount)) {
            (Some(available), Some(held)) => Some(
                Account { amount: available, held_amount: held, ..self },
            ),
            _ => None,
        }
    }

    /// The account after `amount` was moved from held back to available; `None` where
    /// one of the two results cannot be held.
    pub open spec fn after_release(self, amount: Amount) -> Option<Account> {
        match (decimal_sum(self.amount, amount), decimal_difference(self.held_amount, amount)) {
            (Some(available), Some(held)) => Some(
                Account { amount: available, held_amount: held, ..self },
            ),
            _ => None,
        }
    }

    /// The account after `amount` was taken from the held funds for good; `None`
    /// where the difference cannot be held.
    pub open spec fn after_chargeback(self, amount: Amount) -> Option<Account> {
        match decimal_difference(self.held_amount, amount) {
            Some(held) => Some(Account { held_amount: held, ..self }),
            None => None,
        }
    }

    /// The account a client starts with.
    #[must_use]
    pub fn new(client_id: ClientId) -> (account: Account)
        ensures
            account == Account::fresh(client_id),
    {
        Account {
            client_id,
            held_amount: Amount::zero(),
            amount: Amount::zero(),
            status: AccountStatus::Operational,
        }
    }

    /// Deposit funds.
    pub fn deposit(&mut self, amount: Amount)
        requires
            old(self).after_deposit(amount) is Some,
        ensures
            Some(*final(self)) == old(self).after_deposit(amount),
    {
        self.amount = checked_add(self.amount, amount).unwrap();
    }

    /// Deposit funds where the sum can be held; leave the account as it is, and say
    /// so, where it cannot.
    pub fn try_deposit(&mut self, amount: Amount) -> (done: bool)
        ensures
            done == old(self).after_deposit(amount) is Some,
            done ==> Some(*final(self)) == old(self).after_deposit(amount),
            !done ==> *final(self) == *old(self),
    {
        if checked_add(self.amount, amount).is_some() {
            self.deposit(amount);
            true
        } else {
            false
        }
    }

    /// Withdraw funds, unless the available funds do not cover them.
    pub fn withdraw(&mut self, amount: Amount) -> (r: Result<(), AccountOperationError>)
        requires
            old(self).covers(amount) ==> old(self).after_withdrawal(amount) is Some,
        ensures
            r is Ok <==> old(self).covers(amount),
            r is Ok ==> Some(*final(self)) == old(self).after_withdrawal(amount),
            r is Err ==> *final(self) == *old(self),
    {
        if less_than(self.amount, amount) {
            return Err(AccountOperationError::NotEnoughFunds);
        }
        self.amount = checked_sub(self.amount, amount).unwrap();
        Ok(())
    }

    /// Withdraw funds as `withdraw` does where the difference can be held; return
    /// `None`, and leave the account as it is, where it cannot.
    pub fn try_withdraw(&mut self, amount: Amount) -> (r: Option<
        Result<(), AccountOperationError>,
    >)
        ensures
            r is None <==> old(self).covers(amount) && old(self).after_withdrawal(amount) is None,
            r matches Some(Ok(_)) <==> old(self).covers(amount) && old(self).after_withdrawal(
                amount,
            ) is Some,
            r matches Some(Ok(_)) ==> Some(*final(self)) == old(self).after_withdrawal(amount),
            !(r matches Some(Ok(_))) ==> *final(self) == *old(self),
    {
        if less_than(self.amount, amount) || checked_sub(self.amount, amount).is_some() {
            Some(self.withdraw(amount))
        } else {
            None
        }
    }

    /// Total of the available funds plus the funds on hold for disputes.
    #[must_use]
    pub fn total(&self) -> (total: Amount)
        requires
            self.total_of() is Some,
        ensures
            Some(total) == self.total_of(),
    {
        checked_add(self.amount, self.held_amount).unwrap()
    }

    /// The total where it can be held, `None` where it cannot.
    #[must_use]
    pub fn checked_total(&self) -> (total: Option<Amount>)
        ensures
            total == self.total_of(),
    {
        if checked_add(self.amount, self.held_amount).is_some() {
            Some(self.total())
        } else {
            None
        }
    }

    /// Hold some funds: the available funds go down by what is held. They may go
    /// below zero, where a deposit is disputed after its funds were withdrawn.
    pub fn hold(&mut self, amount_to_hold: Amount)
        requires
            old(self).after_hold(amount_to_hold) is Some,
        ensures
            Some(*final(self)) == old(self).after_hold(amount_to_hold),
    {
        self.amount = checked_sub(self.amount, amount_to_hold).unwrap();
        self.held_amount = checked_add(self.held_amount, amount_to_hold).unwrap();
    }

    /// Hold funds where both results can be held; leave the account as it is, and
    /// say so, where one cannot.
    pub fn try_hold(&mut self, amount_to_hold: Amount) -> (done: bool)
        ensures
            done == old(self).after_hold(amount_to_hold) is Some,
            done ==> Some(*final(self)) == old(self).after_hold(amount_to_hold),
            !done ==> *final(self) == *old(self),
    {
        if checked_sub(self.amount, amount_to_hold).is_some() && checked_add(
            self.held_amount,
            amount_to_hold,
        ).is_some() {
            self.hold(amount_to_hold);
            true
        } else {
            false
        }
    }

    /// Release some held funds: the available funds go up by what is released.
    pub fn release(&mut self, amount_to_release: Amount)
        requires
            old(self).after_release(amount_to_release) is Some,
        ensures
            Some(*final(self)) == old(self).after_release(amount_to_release),
    {
        self.amount = checked_add(self.amount, amount_to_release).unwrap();
        self.held_amount = checked_sub(self.held_amount, amount_to_release).unwrap();
    }

    /// Release funds where both results can be held; leave the account as it is, and
    /// say so, where one cannot.
    pub fn try_release(&mut self, amount_to_release: Amount) -> (done: bool)
        ensures
            done == old(self).after_release(amount_to_release) is Some,
            done ==> Some(*final(self)) == old(self).after_release(amount_to_release),
            !done ==> *final(self) == *old(self),
    {
        if checked_add(self.amount, amount_to_release).is_some() && checked_sub(
            self.held_amount,
            amount_to_release,
        ).is_some() {
            self.release(amount_to_release);
            true
        } else {
            false
        }
    }

    /// Forget some held funds: they leave the account for good.
    pub fn chargeback(&mut self, amount_to_chargeback: Amount)
        requires
            old(self).after_chargeback(amount_to_chargeback) is Some,
        ensures
            Some(*final(self)) == old(self).after_chargeback(amount_to_chargeback),
    {
        self.held_amount = checked_sub(self.held_amount, amount_to_chargeback).unwrap();
    }

    /// Charge funds back where the difference can be held; leave the account as it
    /// is, and say so, where it cannot.
    pub fn try_chargeback(&mut self, amount_to_chargeback: Amount) -> (done: bool)
        ensures
            done == old(self).after_chargeback(amount_to_chargeback) is Some,
            done ==> Some(*final(self)) == old(self).after_chargeback(amount_to_chargeback),
            !done ==> *final(self) == *old(self),
    {
        if checked_sub(self.held_amount, amount_to_chargeback).is_some() {
            self.chargeback(amount_to_chargeback);
            true
        } else {
            false
        }
    }

    /// Set the status of the account to `Frozen`.
    pub fn freeze(&mut self)
        ensures
            *final(self) == (Account { status: AccountStatus::Frozen, ..*old(self) }),
    {
        self.status = AccountStatus::Frozen;
    }

    /// Set the status of the account to `Operational`.
    pub fn unfreeze(&mut self)
        ensures
            *final(self) == (Account { status: AccountStatus::Operational, ..*old(self) }),
    {
        self.status = AccountStatus::Operational;
    }

    /// Is the account frozen?
    #[must_use]
    pub fn frozen(&self) -> (frozen: bool)
        ensures
            frozen == self.is_frozen(),
    {
        self.status == AccountStatus::Frozen
    }
}

} // verus!
