use vstd::prelude::*;

verus! {

/// Why a single command was rejected. Every variant rejects exactly one
/// command; none of them aborts the run.
#[derive(Clone, Copy, Debug, PartialEq, Eq, Structural)]
pub enum TxError {
    /// The literal amount of a deposit or withdrawal was zero or negative.
    AmountNotPositive,
    /// The literal amount was malformed or carried more than four
    /// fractional digits.
    DecimalFormatError,
    /// The account was locked by an earlier chargeback.
    LockedAccount,
    /// The available (or held) balance was too low for the transition.
    InsufficientFunds,
    /// A deposit or withdrawal named a transaction id that is already
    /// registered.
    TransactionAlreadyExists,
    /// A dispute named a transaction that is already in dispute.
    TransactionAlreadyInDispute,
    /// A dispute named a transaction that is not a deposit.
    ReferenceTransactionTypeIncorrect,
    /// A dispute, resolve or chargeback named an unknown transaction id.
    ReferenceTransactionNotFound,
    /// A dispute named a transaction owned by another client.
    ReferenceTransactionIncorrect,
    /// A resolve or chargeback named a transaction that is not in dispute.
    ReferenceTransactionStateIncorrect,
    /// The command kind was not recognised, or a deposit or withdrawal
    /// came without an amount.
    UnknownTransactionType,
}

impl TxError {
    /// A short description, for reporting a rejected command.
    pub fn message(&self) -> (r: &'static str)
    {
        match self {
            TxError::AmountNotPositive => "amount is not positive",
            TxError::DecimalFormatError => "amount is malformed or too precise",
            TxError::LockedAccount => "account is locked",
            TxError::InsufficientFunds => "insufficient funds for the operation",
            TxError::TransactionAlreadyExists => "transaction id already exists",
            TxError::TransactionAlreadyInDispute => "transaction is already in dispute",
            TxError::ReferenceTransactionTypeIncorrect => "referenced transaction is not a deposit",
            TxError::ReferenceTransactionNotFound => "referenced transaction not found",
            TxError::ReferenceTransactionIncorrect => "referenced transaction belongs to another client",
            TxError::ReferenceTransactionStateIncorrect => "referenced transaction is not in dispute",
            TxError::UnknownTransactionType => "unknown transaction type",
        }
    }
}

} // verus!
