//! Transactions as the machine keeps them: each names its accounts and an
//! amount of money directly.
use vstd::prelude::*;
use crate::currency::Money;
use crate::transaction::{EntryView, TransactionType, entry_change};
use crate::clock::now_micros;

verus! {

/// A transaction between accounts, dated in microseconds since the Unix
/// epoch, UTC.
#[derive(Debug)]
pub enum Transaction {
    Transfer { sender: u128, recipient: u128, amount: Money, date: i64 },
    Deposit { from: u128, amount: Money, date: i64 },
    Withdrawal { to: u128, amount: Money, date: i64 },
    Payment { sender: u128, recipient: u128, amount: Money, date: i64 },
}

impl View for Transaction {
    type V = EntryView;

    open spec fn view(&self) -> EntryView {
        match self {
            Transaction::Transfer { sender, recipient, amount, date } => EntryView {
                kind: TransactionType::Transfer,
                sender: *sender,
                recipient: Some(*recipient),
                amount: amount@,
                date: *date,
            },
            Transaction::Deposit { from, amount, date } => EntryView {
                kind: TransactionType::Deposit,
                sender: *from,
                recipient: None,
                amount: amount@,
                date: *date,
            },
            Transaction::Withdrawal { to, amount, date } => EntryView {
                kind: TransactionType::Withdrawal,
                sender: *to,
                recipient: None,
                amount: amount@,
                date: *date,
            },
            Transaction::Payment { sender, recipient, amount, date } => EntryView {
                kind: TransactionType::Payment,
                sender: *sender,
                recipient: Some(*recipient),
                amount: amount@,
                date: *date,
            },
        }
    }
}

/// Whether reading the entry for account `id` negates its amount.
pub open spec fn entry_negates(e: EntryView, id: u128) -> bool {
    e.sender == id && e.kind != TransactionType::Deposit
}

impl Transaction {
    /// As account `id`, how much does this transaction change my balance?
    pub fn get_change(&self, id: &u128) -> (r: Option<Money>)
        requires
            entry_negates(self@, *id) ==> self@.amount.1 != i64::MIN,
        ensures
            match (r, entry_change(self@, *id)) {
                (Some(m), Some(v)) => m@ == v,
                (None, None) => true,
                _ => false,
            },
    {
        match self {
            Transaction::Deposit { from, amount, date: _ } => {
                if *from == *id {
                    return Some(amount.duplicate());
                }
                None
            },
            Transaction::Transfer { sender, recipient, amount, date: _ }
            | Transaction::Payment { sender, recipient, amount, date: _ } => {
                if *sender == *id {
                    return amount.duplicate().checked_neg();
                }
                if *recipient == *id {
                    return Some(amount.duplicate());
                }
                None
            },
            Transaction::Withdrawal { to, amount, date: _ } => {
                if *to == *id {
                    return amount.duplicate().checked_neg();
                }
                None
            },
        }
    }

    /// A deposit of `money` into account `from`, dated now.
    pub fn deposit(from: u128, money: Money) -> (r: Transaction)
        ensures
            r@ == (EntryView {
                kind: TransactionType::Deposit,
                sender: from,
                recipient: None,
                amount: money@,
                date: r@.date,
            }),
            r@.date >= 0,
    {
        Transaction::Deposit { from, amount: money, date: now_micros() }
    }

    /// A withdrawal of `money` from account `to`, dated now.
    pub fn withdrawal(to: u128, money: Money) -> (r: Transaction)
        ensures
            r@ == (EntryView {
                kind: TransactionType::Withdrawal,
                sender: to,
                recipient: None,
                amount: money@,
                date: r@.date,
            }),
            r@.date >= 0,
    {
        Transaction::Withdrawal { to, amount: money, date: now_micros() }
    }

    /// A transfer of `money` from `sender` to `recipient`, dated now.
    pub fn transfer(sender: u128, recipient: u128, money: Money) -> (r: Transaction)
        ensures
            r@ == (EntryView {
                kind: TransactionType::Transfer,
                sender,
                recipient: Some(recipient),
                amount: money@,
                date: r@.date,
            }),
            r@.date >= 0,
    {
        Transaction::Transfer { sender, recipient, amount: money, date: now_micros() }
    }

    /// A payment of `money` from `sender` to `recipient`, dated now.
    pub fn payment(sender: u128, recipient: u128, money: Money) -> (r: Transaction)
        ensures
            r@ == (EntryView {
                kind: TransactionType::Payment,
                sender,
                recipient: Some(recipient),
                amount: money@,
                date: r@.date,
            }),
            r@.date >= 0,
    {
        Transaction::Payment { sender, recipient, amount: money, date: now_micros() }
    }
}

/// Where a transaction stands in its handling.
#[derive(Clone, Copy, Debug, PartialEq, Eq, Structural)]
pub enum TransactionStatus {
    Pending,
    Completed,
    Declined,
}

/// A transaction together with where it stands: when it was sent and, once
/// answered, when.
#[derive(Debug)]
pub struct PendingTransaction {
    pub transaction: Transaction,
    pub status: TransactionStatus,
    pub sent: i64,
    pub responded: Option<i64>,
}

} // verus!
