//! Transactions between accounts.
//!
//! A transaction is stored as a row: a type, a sender, an optional recipient,
//! an amount in minor units and the code of its currency. For a deposit the
//! sender is the account that receives the money; for a withdrawal it is the
//! account that gives it; deposits and withdrawals name no recipient, while
//! transfers and payments must. `TransactionE` is the same transaction with
//! its currency resolved and its shape checked.
//!
//! Account ids are 128-bit UUID values; dates are microseconds since the Unix
//! epoch, UTC.
use vstd::prelude::*;
use crate::currency::{Currency, Money, MoneyView, CurrencyView, iso_currency_with_code, with_code, is_standard};
use crate::error::{Error, ErrorView};
use crate::clock::now_micros;

verus! {

/// The kind of a transaction.
#[derive(Clone, Copy, Debug, PartialEq, Eq, Structural)]
pub enum TransactionType {
    Transfer,
    Deposit,
    Withdrawal,
    Payment,
}

/// The number under which a transaction type is stored.
pub open spec fn type_code(t: TransactionType) -> int {
    match t {
        TransactionType::Transfer => 1,
        TransactionType::Deposit => 2,
        TransactionType::Withdrawal => 3,
        TransactionType::Payment => 4,
    }
}

/// The transaction type stored under the number `v`, if any.
pub open spec fn type_of_code(v: int) -> Option<TransactionType> {
    if v == 1 {
        Some(TransactionType::Transfer)
    } else if v == 2 {
        Some(TransactionType::Deposit)
    } else if v == 3 {
        Some(TransactionType::Withdrawal)
    } else if v == 4 {
        Some(TransactionType::Payment)
    } else {
        None
    }
}

/// Whether a transaction of this type moves money between two accounts and
/// so must name a recipient.
pub open spec fn has_recipient(t: TransactionType) -> bool {
    t == TransactionType::Transfer || t == TransactionType::Payment
}

impl TransactionType {
    /// The number under which this type is stored.
    pub fn as_expression(&self) -> (r: i16)
        ensures
            r == type_code(*self),
    {
        match self {
            TransactionType::Transfer => 1,
            TransactionType::Deposit => 2,
            TransactionType::Withdrawal => 3,
            TransactionType::Payment => 4,
        }
    }

    /// Reads a transaction type from the number it is stored under.
    pub fn build_from_row(v: i16) -> (r: Result<TransactionType, Error>)
        ensures
            type_of_code(v as int) matches Some(t) ==> r == Ok::<TransactionType, Error>(t),
            type_of_code(v as int) is None ==> (r matches Err(e) && e@ == ErrorView::InvalidTransactionType(v as int)),
    {
        match TransactionType::from_i32(v as i32) {
            Some(t) => Ok(t),
            None => Err(Error::InvalidTransactionType(v as i64)),
        }
    }

    /// The transaction type numbered `v`, if any.
    pub fn from_i32(v: i32) -> (r: Option<TransactionType>)
        ensures
            r == type_of_code(v as int),
    {
        if v == 1 {
            Some(TransactionType::Transfer)
        } else if v == 2 {
            Some(TransactionType::Deposit)
        } else if v == 3 {
            Some(TransactionType::Withdrawal)
        } else if v == 4 {
            Some(TransactionType::Payment)
        } else {
            None
        }
    }
}

/// The abstract value of a stored transaction row.
pub struct RowView {
    pub kind: TransactionType,
    pub sender: u128,
    pub recipient: Option<u128>,
    pub amount: i64,
    pub currency: Seq<char>,
    pub date: i64,
}

/// The abstract value of a transaction with its currency resolved.
pub struct EntryView {
    pub kind: TransactionType,
    pub sender: u128,
    pub recipient: Option<u128>,
    pub amount: MoneyView,
    pub date: i64,
}

/// Whether an entry has the shape of its type: a recipient exactly for
/// transfers and payments.
pub open spec fn entry_well_shaped(e: EntryView) -> bool {
    has_recipient(e.kind) == e.recipient is Some
}

/// The row that stores an entry.
pub open spec fn row_of_entry(e: EntryView) -> RowView {
    RowView {
        kind: e.kind,
        sender: e.sender,
        recipient: e.recipient,
        amount: e.amount.1 as i64,
        currency: e.amount.0.0,
        date: e.date,
    }
}

/// The entry that a row stores, or why it stores none: its currency code must
/// name a standard currency, and it must name a recipient exactly when it is
/// a transfer or a payment.
pub open spec fn entry_of_row(row: RowView) -> Result<EntryView, ErrorView> {
    match iso_currency_with_code(row.currency) {
        None => Err(ErrorView::InvalidCurrencyCode(row.currency)),
        Some(c) => entry_of_row_in(row, c),
    }
}

/// The entry that a row stores once its currency is known to be `c`.
pub open spec fn entry_of_row_in(row: RowView, c: CurrencyView) -> Result<EntryView, ErrorView> {
    if has_recipient(row.kind) && row.recipient is None {
        Err(ErrorView::MissingRecipient(row.kind))
    } else if !has_recipient(row.kind) && row.recipient is Some {
        Err(ErrorView::UnexpectedRecipient(row.kind))
    } else {
        Ok(
            EntryView {
                kind: row.kind,
                sender: row.sender,
                recipient: row.recipient,
                amount: (c, row.amount as int),
                date: row.date,
            },
        )
    }
}

/// How much an entry changes the balance of account `id`: a deposit adds its
/// amount to the account it names, a withdrawal takes it from the account it
/// names, and a transfer or payment takes it from the sender and gives it to
/// the recipient. `None` when the entry does not concern the account.
pub open spec fn entry_change(e: EntryView, id: u128) -> Option<MoneyView> {
    match e.kind {
        TransactionType::Deposit => if e.sender == id {
            Some(e.amount)
        } else {
            None
        },
        TransactionType::Withdrawal => if e.sender == id {
            Some((e.amount.0, -e.amount.1))
        } else {
            None
        },
        _ => if e.sender == id {
            Some((e.amount.0, -e.amount.1))
        } else if e.recipient == Some(id) {
            Some(e.amount)
        } else {
            None
        },
    }
}

/// How much a stored row changes the balance of account `id`, once its
/// currency is known to be `c`. A transfer or payment without recipient is
/// refused; the row is otherwise read as `entry_change` reads an entry.
pub open spec fn row_change_in(row: RowView, c: CurrencyView, id: u128) -> Result<
    Option<MoneyView>,
    ErrorView,
> {
    match row.kind {
        TransactionType::Deposit => if row.sender == id {
            Ok(Some((c, row.amount as int)))
        } else {
            Ok(None)
        },
        TransactionType::Withdrawal => if row.sender == id {
            Ok(Some((c, -row.amount)))
        } else {
            Ok(None)
        },
        _ => match row.recipient {
            None => Err(ErrorView::MissingRecipient(row.kind)),
            Some(rcp) => if row.sender == id {
                Ok(Some((c, -row.amount)))
            } else if rcp == id {
                Ok(Some((c, row.amount as int)))
            } else {
                Ok(None)
            },
        },
    }
}

/// How much a stored row changes the balance of account `id`.
pub open spec fn row_change(row: RowView, id: u128) -> Result<Option<MoneyView>, ErrorView> {
    match iso_currency_with_code(row.currency) {
        None => Err(ErrorView::InvalidCurrencyCode(row.currency)),
        Some(c) => row_change_in(row, c, id),
    }
}

/// Whether reading the row for account `id` negates its amount.
pub open spec fn row_negates(row: RowView, id: u128) -> bool {
    row.sender == id && (row.kind == TransactionType::Withdrawal || (has_recipient(row.kind)
        && row.recipient is Some))
}

/// A transaction about to be stored.
#[derive(Debug)]
pub struct NewTransaction {
    pub sender: u128,
    pub recipient: Option<u128>,
    pub trans_type: TransactionType,
    pub amount: i64,
    pub currency: String,
    pub date: i64,
}

impl View for NewTransaction {
    type V = RowView;

    open spec fn view(&self) -> RowView {
        RowView {
            kind: self.trans_type,
            sender: self.sender,
            recipient: self.recipient,
            amount: self.amount,
            currency: self.currency@,
            date: self.date,
        }
    }
}

/// A stored transaction, with the serial number that the store gave it.
#[derive(Debug)]
pub struct Transaction {
    pub serial: i32,
    pub sender: u128,
    pub recipient: Option<u128>,
    pub trans_type: TransactionType,
    pub amount: i64,
    pub currency: String,
    pub date: i64,
}

impl View for Transaction {
    type V = RowView;

    open spec fn view(&self) -> RowView {
        RowView {
            kind: self.trans_type,
            sender: self.sender,
            recipient: self.recipient,
            amount: self.amount,
            currency: self.currency@,
            date: self.date,
        }
    }
}

/// A transaction with its currency resolved and its shape checked.
#[derive(Debug)]
pub enum TransactionE {
    Transfer { sender: u128, recipient: u128, amount: Money, date: i64 },
    Deposit { from: u128, amount: Money, date: i64 },
    Withdrawal { to: u128, amount: Money, date: i64 },
    Payment { sender: u128, recipient: u128, amount: Money, date: i64 },
}

impl View for TransactionE {
    type V = EntryView;

    open spec fn view(&self) -> EntryView {
        match self {
            TransactionE::Transfer { sender, recipient, amount, date } => EntryView {
                kind: TransactionType::Transfer,
                sender: *sender,
                recipient: Some(*recipient),
                amount: amount@,
                date: *date,
            },
            TransactionE::Deposit { from, amount, date } => EntryView {
                kind: TransactionType::Deposit,
                sender: *from,
                recipient: None,
                amount: amount@,
                date: *date,
            },
            TransactionE::Withdrawal { to, amount, date } => EntryView {
                kind: TransactionType::Withdrawal,
                sender: *to,
                recipient: None,
                amount: amount@,
                date: *date,
            },
            TransactionE::Payment { sender, recipient, amount, date } => EntryView {
                kind: TransactionType::Payment,
                sender: *sender,
                recipient: Some(*recipient),
                amount: amount@,
                date: *date,
            },
        }
    }
}

impl TransactionE {
    /// Every transaction has the shape of its type.
    pub proof fn lemma_well_shaped(&self)
        ensures
            entry_well_shaped(self@),
    {
    }

    /// Reads a stored transaction: resolves its currency code and checks that
    /// it names a recipient exactly when it is a transfer or a payment.
    pub fn try_from(ts: Transaction) -> (r: Result<TransactionE, Error>)
        ensures
            match (r, entry_of_row(ts@)) {
                (Ok(e), Ok(v)) => e@ == v,
                (Err(e), Err(v)) => e@ == v,
                _ => false,
            },
    {
        match with_code(ts.currency.as_str()) {
            None => Err(Error::InvalidCurrencyCode(ts.currency)),
            Some(c) => TransactionE::try_from_in(ts, c),
        }
    }

    /// Reads a stored transaction whose currency is known to be `c`: checks
    /// that it names a recipient exactly when it is a transfer or a payment.
    pub fn try_from_in(ts: Transaction, c: Currency) -> (r: Result<TransactionE, Error>)
        ensures
            match (r, entry_of_row_in(ts@, c@)) {
                (Ok(e), Ok(v)) => e@ == v,
                (Err(e), Err(v)) => e@ == v,
                _ => false,
            },
    {
        let amount = Money::of_minor(c, ts.amount);
        match ts.trans_type {
            TransactionType::Transfer => match ts.recipient {
                Some(recipient) => Ok(
                    TransactionE::Transfer { sender: ts.sender, recipient, amount, date: ts.date },
                ),
                None => Err(Error::MissingRecipient(TransactionType::Transfer)),
            },
            TransactionType::Deposit => {
                if ts.recipient.is_some() {
                    return Err(Error::UnexpectedRecipient(TransactionType::Deposit));
                }
                Ok(TransactionE::Deposit { from: ts.sender, amount, date: ts.date })
            },
            TransactionType::Withdrawal => {
                if ts.recipient.is_some() {
                    return Err(Error::UnexpectedRecipient(TransactionType::Withdrawal));
                }
                Ok(TransactionE::Withdrawal { to: ts.sender, amount, date: ts.date })
            },
            TransactionType::Payment => match ts.recipient {
                Some(recipient) => Ok(
                    TransactionE::Payment { sender: ts.sender, recipient, amount, date: ts.date },
                ),
                None => Err(Error::MissingRecipient(TransactionType::Payment)),
            },
        }
    }
}

impl NewTransaction {
    /// The row that stores a transaction.
    pub fn from(ts: TransactionE) -> (r: NewTransaction)
        ensures
            r@ == row_of_entry(ts@),
    {
        let (sender, recipient, date, money, ty) = match ts {
            TransactionE::Deposit { from, amount, date } => {
                (from, None, date, amount, TransactionType::Deposit)
            },
            TransactionE::Transfer { sender, recipient, amount, date } => {
                (sender, Some(recipient), date, amount, TransactionType::Transfer)
            },
            TransactionE::Payment { sender, recipient, amount, date } => {
                (sender, Some(recipient), date, amount, TransactionType::Payment)
            },
            TransactionE::Withdrawal { to, amount, date } => {
                (to, None, date, amount, TransactionType::Withdrawal)
            },
        };
        NewTransaction {
            sender,
            recipient,
            trans_type: ty,
            amount: money.minor_amount(),
            currency: money.currency.code(),
            date,
        }
    }

    /// A deposit of `money` into account `from`, dated now.
    pub fn deposit(from: u128, money: Money) -> (r: NewTransaction)
        ensures
            r@ == row_of_entry(
                EntryView {
                    kind: TransactionType::Deposit,
                    sender: from,
                    recipient: None,
                    amount: money@,
                    date: r.date,
                },
            ),
            r.date >= 0,
    {
        let date = now_micros();
        NewTransaction::from(TransactionE::Deposit { from, amount: money, date })
    }

    /// A withdrawal of `money` from account `to`, dated now.
    pub fn withdrawal(to: u128, money: Money) -> (r: NewTransaction)
        ensures
            r@ == row_of_entry(
                EntryView {
                    kind: TransactionType::Withdrawal,
                    sender: to,
                    recipient: None,
                    amount: money@,
                    date: r.date,
                },
            ),
            r.date >= 0,
    {
        let date = now_micros();
        NewTransaction::from(TransactionE::Withdrawal { to, amount: money, date })
    }

    /// A transfer of `money` from `sender` to `recipient`, dated now.
    pub fn transfer(sender: u128, recipient: u128, money: Money) -> (r: NewTransaction)
        ensures
            r@ == row_of_entry(
                EntryView {
                    kind: TransactionType::Transfer,
                    sender,
                    recipient: Some(recipient),
                    amount: money@,
                    date: r.date,
                },
            ),
            r.date >= 0,
    {
        let date = now_micros();
        NewTransaction::from(TransactionE::Transfer { sender, recipient, amount: money, date })
    }

    /// A payment of `money` from `sender` to `recipient`, dated now.
    pub fn payment(sender: u128, recipient: u128, money: Money) -> (r: NewTransaction)
        ensures
            r@ == row_of_entry(
                EntryView {
                    kind: TransactionType::Payment,
                    sender,
                    recipient: Some(recipient),
                    amount: money@,
                    date: r.date,
                },
            ),
            r.date >= 0,
    {
        let date = now_micros();
        NewTransaction::from(TransactionE::Payment { sender, recipient, amount: money, date })
    }
}

impl Transaction {
    /// The row that the store holds for `new` once it has given it the serial
    /// number `serial`.
    pub fn stored(serial: i32, new: NewTransaction) -> (r: Transaction)
        ensures
            r@ == new@,
            r.serial == serial,
    {
        Transaction {
            serial,
            sender: new.sender,
            recipient: new.recipient,
            trans_type: new.trans_type,
            amount: new.amount,
            currency: new.currency,
            date: new.date,
        }
    }

    /// The serial number that the store gave this transaction.
    pub fn serial(&self) -> (r: i32)
        ensures
            r == self.serial,
    {
        self.serial
    }

    /// The amount of this transaction in its currency.
    pub fn amount_as_money(&self) -> (r: Result<Money, Error>)
        ensures
            match (r, iso_currency_with_code(self@.currency)) {
                (Ok(m), Some(c)) => m@ == (c, self.amount as int),
                (Err(e), None) => e@ == ErrorView::InvalidCurrencyCode(self@.currency),
                _ => false,
            },
    {
        match with_code(self.currency.as_str()) {
            None => Err(Error::InvalidCurrencyCode(self.currency.clone())),
            Some(c) => Ok(Money::of_minor(c, self.amount)),
        }
    }

    /// As account `id`, how much does this transaction change my balance?
    pub fn get_change(&self, id: &u128) -> (r: Result<Option<Money>, Error>)
        requires
            row_negates(self@, *id) ==> self.amount != i64::MIN,
        ensures
            match (r, row_change(self@, *id)) {
                (Ok(Some(m)), Ok(Some(v))) => m@ == v,
                (Ok(None), Ok(None)) => true,
                (Err(e), Err(v)) => e@ == v,
                _ => false,
            },
    {
        match with_code(self.currency.as_str()) {
            None => Err(Error::InvalidCurrencyCode(self.currency.clone())),
            Some(c) => self.get_change_in(c, id),
        }
    }

    /// As account `id`, how much does this transaction change my balance,
    /// given that its currency is `c`?
    pub fn get_change_in(&self, c: Currency, id: &u128) -> (r: Result<Option<Money>, Error>)
        requires
            row_negates(self@, *id) ==> self.amount != i64::MIN,
        ensures
            match (r, row_change_in(self@, c@, *id)) {
                (Ok(Some(m)), Ok(Some(v))) => m@ == v,
                (Ok(None), Ok(None)) => true,
                (Err(e), Err(v)) => e@ == v,
                _ => false,
            },
    {
        let amount = Money::of_minor(c, self.amount);
        match self.trans_type {
            TransactionType::Deposit => {
                if self.sender == *id {
                    return Ok(Some(amount));
                }
                Ok(None)
            },
            TransactionType::Transfer | TransactionType::Payment => {
                match self.recipient {
                    None => Err(Error::MissingRecipient(self.trans_type)),
                    Some(recipient) => {
                        if self.sender == *id {
                            return Ok(amount.checked_neg());
                        }
                        if recipient == *id {
                            return Ok(Some(amount));
                        }
                        Ok(None)
                    },
                }
            },
            TransactionType::Withdrawal => {
                if self.sender == *id {
                    return Ok(amount.checked_neg());
                }
                Ok(None)
            },
        }
    }
}

/// Where a transaction stands in its handling.
#[derive(Clone, Copy, Debug, PartialEq, Eq, Structural)]
pub enum TransactionStatus {
    Pending,
    Completed,
    Declined,
}

/// A transaction together with where it stands: when it was sent and, once
/// answered, when.
#[derive(Debug)]
pub struct PendingTransaction {
    pub transaction: Transaction,
    pub status: TransactionStatus,
    pub sent: i64,
    pub responded: Option<i64>,
}

/// Reading a row gives the change of the entry it stores: for every row that
/// stores an entry, the row's change for any account is that entry's change.
pub proof fn lemma_row_change_is_entry_change(row: RowView, id: u128)
    requires
        entry_of_row(row) is Ok,
    ensures
        row_change(row, id) == Ok::<Option<MoneyView>, ErrorView>(
            entry_change(entry_of_row(row)->Ok_0, id),
        ),
{
}

/// Storing an entry and reading the row back gives the entry again, when its
/// currency is a standard one.
pub proof fn lemma_store_then_read(e: EntryView)
    requires
        entry_well_shaped(e),
        is_standard(e.amount.0),
        i64::MIN <= e.amount.1 <= i64::MAX,
    ensures
        entry_of_row(row_of_entry(e)) == Ok::<EntryView, ErrorView>(e),
{
}

/// A transfer or payment moves money: what the sender loses, the recipient
/// gains, in the same currency.
pub proof fn lemma_transfer_conserves(e: EntryView)
    requires
        has_recipient(e.kind),
        e.recipient matches Some(r) && r != e.sender,
    ensures
        entry_change(e, e.sender) == Some((e.amount.0, -e.amount.1)),
        entry_change(e, e.recipient->Some_0) == Some(e.amount),
        entry_change(e, e.sender)->Some_0.1 + entry_change(e, e.recipient->Some_0)->Some_0.1 == 0,
{
}

/// Reading back the number under which a transaction type is stored gives
/// the type again.
pub proof fn lemma_type_code_round_trip(t: TransactionType)
    ensures
        type_of_code(type_code(t)) == Some(t),
{
}

} // verus!
