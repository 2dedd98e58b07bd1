//! The errors that the library reports.
use vstd::prelude::*;
use crate::transaction::TransactionType;

verus! {

/// What went wrong.
#[derive(Debug)]
pub enum Error {
    /// A stored currency code names no standard currency.
    InvalidCurrencyCode(String),
    /// A stored number names no transaction type.
    InvalidTransactionType(i64),
    /// A transfer or payment has no recipient.
    MissingRecipient(TransactionType),
    /// A deposit or withdrawal names a recipient.
    UnexpectedRecipient(TransactionType),
    /// The password does not match the account's password hash.
    PasswordMismatch,
    /// The password hash could not be checked.
    PasswordCheck,
    /// The password could not be hashed.
    PasswordHash,
    /// No random bytes could be had for a salt.
    RandomSource,
    /// A balance does not fit in 64 bits.
    BalanceOverflow,
    /// Decrypted bytes hold no serialized account.
    UnreadableAccount,
}

/// The abstract value of an error: the same variants, with text as a
/// sequence of characters.
pub enum ErrorView {
    InvalidCurrencyCode(Seq<char>),
    InvalidTransactionType(int),
    MissingRecipient(TransactionType),
    UnexpectedRecipient(TransactionType),
    PasswordMismatch,
    PasswordCheck,
    PasswordHash,
    RandomSource,
    BalanceOverflow,
    UnreadableAccount,
}

impl View for Error {
    type V = ErrorView;

    open spec fn view(&self) -> ErrorView {
        match self {
            Error::InvalidCurrencyCode(s) => ErrorView::InvalidCurrencyCode(s@),
            Error::InvalidTransactionType(v) => ErrorView::InvalidTransactionType(*v as int),
            Error::MissingRecipient(t) => ErrorView::MissingRecipient(*t),
            Error::UnexpectedRecipient(t) => ErrorView::UnexpectedRecipient(*t),
            Error::PasswordMismatch => ErrorView::PasswordMismatch,
            Error::PasswordCheck => ErrorView::PasswordCheck,
            Error::PasswordHash => ErrorView::PasswordHash,
            Error::RandomSource => ErrorView::RandomSource,
            Error::BalanceOverflow => ErrorView::BalanceOverflow,
            Error::UnreadableAccount => ErrorView::UnreadableAccount,
        }
    }
}

} // verus!
