use vstd::prelude::*;
use crate::amount::Amount;
use crate::client::ClientId;

verus! {

/// Identifies a transaction. Disputes, resolutions and chargebacks carry the
/// identifier of the transaction they refer to.
pub type TransactionId = u32;

/// Why a transaction is refused before it is processed.
#[derive(Debug)]
pub enum TransactionError {
    InvalidTransaction(String),
}

impl TransactionError {
    /// The text shown to a user for this error.
    pub fn message(&self) -> (text: String)
        ensures
            text@ == self.message_text(),
    {
        match self {
            TransactionError::InvalidTransaction(reason) => {
                "Invalid transaction [".to_owned().concat(reason.as_str()).concat("]")
            },
        }
    }

    /// The text of `message`.
    pub open spec fn message_text(&self) -> Seq<char> {
        match self {
            TransactionError::InvalidTransaction(reason) => "Invalid transaction ["@ + reason@
                + "]"@,
        }
    }
}

/// What a transaction asks for.
#[derive(Clone, Copy, PartialEq, Eq, Structural, Debug)]
pub enum TransactionType {
    /// An amount is added to the funds.
    Deposit,
    /// An amount is taken from the funds.
    Withdrawal,
    /// An earlier transaction is disputed.
    Dispute,
    /// A dispute is settled in the client's favour.
    Resolve,
    /// A dispute is settled against the client.
    Chargeback,
}

/// What became of a transaction.
#[derive(Clone, Copy, PartialEq, Eq, Structural, Debug)]
pub enum TransactionStatus {
    /// It was not processed yet.
    Ready,
    /// Its effect was applied, and is not disputed.
    Executed,
    /// Its funds are held until the dispute is settled.
    Disputed,
    /// Its funds were forfeited.
    ChargedBack,
    /// It was recorded without effect.
    Skipped,
}

/// The status a transaction has before it is processed.
pub fn default_status() -> (status: TransactionStatus)
    ensures
        status == TransactionStatus::Ready,
{
    TransactionStatus::Ready
}

/// One record of the source: a deposit or a withdrawal with its amount, or a
/// dispute, a resolution or a chargeback with the identifier of the transaction it
/// refers to.
#[derive(Clone, Copy, PartialEq, Debug)]
pub struct Transaction {
    pub transaction_type: TransactionType,
    pub client_id: ClientId,
    pub transaction_id: TransactionId,
    pub amount: Option<Amount>,
    pub status: TransactionStatus,
}

/// The reason given for a transaction whose amount does not fit its type.
pub open spec fn amount_mismatch_reason() -> Seq<char> {
    "Amount is not correct for this transaction (only Deposit and Withrawal can have amounts)"@
}

/// The text of the error for a transaction whose amount does not fit its type.
pub open spec fn invalid_transaction_text() -> Seq<char> {
    "Invalid transaction ["@ + amount_mismatch_reason() + "]"@
}

impl Transaction {
    /// Whether the transaction refers to an earlier one, and so moves no funds of
    /// its own.
    pub open spec fn disputing(self) -> bool {
        match self.transaction_type {
            TransactionType::Chargeback | TransactionType::Dispute | TransactionType::Resolve => true,
            TransactionType::Deposit | TransactionType::Withdrawal => false,
        }
    }

    /// A deposit or a withdrawal carries an amount; a dispute, a resolution or a
    /// chargeback carries none.
    pub open spec fn well_formed(self) -> bool {
        self.disputing() <==> self.amount is None
    }

    /// The same transaction with another status.
    pub open spec fn with_status(self, status: TransactionStatus) -> Transaction {
        Transaction { status, ..self }
    }

    /// Whether two transactions are one record, whatever was done with it since.
    pub open spec fn same_record(self, other: Transaction) -> bool {
        self.with_status(TransactionStatus::Ready) == other.with_status(TransactionStatus::Ready)
    }

    /// A transaction that was not processed yet.
    #[must_use]
    pub fn new(
        transaction_type: TransactionType,
        client_id: ClientId,
        transaction_id: TransactionId,
        amount: Option<Amount>,
    ) -> (transaction: Transaction)
        ensures
            transaction == (Transaction {
                transaction_type,
                client_id,
                transaction_id,
                amount,
                status: TransactionStatus::Ready,
            }),
    {
        Transaction { transaction_type, client_id, transaction_id, amount, status: default_status() }
    }

    /// Hands the transaction back if its amount fits its type, and says why not
    /// otherwise.
    pub fn validate(self) -> (r: Result<Transaction, TransactionError>)
        ensures
            r is Ok <==> self.well_formed(),
            r matches Ok(transaction) ==> transaction == self,
            r matches Err(TransactionError::InvalidTransaction(reason)) ==> reason@
                == amount_mismatch_reason(),
    {
        let fits = match self.transaction_type {
            TransactionType::Deposit | TransactionType::Withdrawal => self.amount.is_some(),
            TransactionType::Chargeback
            | TransactionType::Dispute
            | TransactionType::Resolve => self.amount.is_none(),
        };
        if fits {
            Ok(self)
        } else {
            Err(
                TransactionError::InvalidTransaction(
                    "Amount is not correct for this transaction (only Deposit and Withrawal can have amounts)".to_owned(),
                ),
            )
        }
    }

    /// Checks whether the transaction refers to an earlier one.
    #[must_use]
    pub fn is_disputing(&self) -> (disputing: bool)
        ensures
            disputing == self.disputing(),
    {
        match self.transaction_type {
            TransactionType::Chargeback | TransactionType::Dispute | TransactionType::Resolve => true,
            TransactionType::Deposit | TransactionType::Withdrawal => false,
        }
    }

    /// Marks the transaction as disputed.
    pub fn dispute(&mut self)
        ensures
            *final(self) == old(self).with_status(TransactionStatus::Disputed),
    {
        self.status = TransactionStatus::Disputed;
    }

    /// Marks the transaction as executed again, its dispute being resolved.
    pub fn resolve(&mut self)
        ensures
            *final(self) == old(self).with_status(TransactionStatus::Executed),
    {
        self.status = TransactionStatus::Executed;
    }

    /// Marks the transaction as charged back.
    pub fn chargeback(&mut self)
        ensures
            *final(self) == old(self).with_status(TransactionStatus::ChargedBack),
    {
        self.status = TransactionStatus::ChargedBack;
    }

    /// Marks the transaction as recorded without effect.
    pub fn skipped(&mut self)
        ensures
            *final(self) == old(self).with_status(TransactionStatus::Skipped),
    {
        self.status = TransactionStatus::Skipped;
    }

    /// Marks the transaction as executed.
    pub fn executed(&mut self)
        ensures
            *final(self) == old(self).with_status(TransactionStatus::Executed),
    {
        self.status = TransactionStatus::Executed;
    }
}

} // verus!
