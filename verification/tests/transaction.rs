use atm::currency::{with_code, Money};
use atm::error::Error;
use atm::transaction::{NewTransaction, Transaction, TransactionE, TransactionType};

fn row(kind: TransactionType, sender: u128, recipient: Option<u128>, amount: i64, currency: &str) -> Transaction {
    Transaction { serial: 7, sender, recipient, trans_type: kind, amount, currency: currency.to_string(), date: 1234 }
}

#[test]
fn type_codes_round_trip() {
    for t in [TransactionType::Transfer, TransactionType::Deposit, TransactionType::Withdrawal, TransactionType::Payment] {
        let code = t.as_expression();
        assert_eq!(TransactionType::build_from_row(code).unwrap(), t);
        assert_eq!(TransactionType::from_i32(code as i32), Some(t));
    }
    assert_eq!(TransactionType::Transfer.as_expression(), 1);
    assert_eq!(TransactionType::Deposit.as_expression(), 2);
    assert_eq!(TransactionType::Withdrawal.as_expression(), 3);
    assert_eq!(TransactionType::Payment.as_expression(), 4);
}

#[test]
fn unknown_type_code_is_refused() {
    assert!(matches!(TransactionType::build_from_row(0), Err(Error::InvalidTransactionType(0))));
    assert!(matches!(TransactionType::build_from_row(5), Err(Error::InvalidTransactionType(5))));
    assert_eq!(TransactionType::from_i32(-1), None);
}

#[test]
fn deposit_changes_only_its_account() {
    let r = row(TransactionType::Deposit, 1, None, 250, "USD");
    let m = r.get_change(&1).unwrap().unwrap();
    assert_eq!(m.minor_amount(), 250);
    assert_eq!(m.currency.code(), "USD");
    assert!(r.get_change(&2).unwrap().is_none());
}

#[test]
fn withdrawal_takes_from_its_account() {
    let r = row(TransactionType::Withdrawal, 1, None, 250, "EUR");
    assert_eq!(r.get_change(&1).unwrap().unwrap().minor_amount(), -250);
    assert!(r.get_change(&3).unwrap().is_none());
}

#[test]
fn transfer_moves_from_sender_to_recipient() {
    for kind in [TransactionType::Transfer, TransactionType::Payment] {
        let r = row(kind, 1, Some(2), 99, "GBP");
        assert_eq!(r.get_change(&1).unwrap().unwrap().minor_amount(), -99);
        assert_eq!(r.get_change(&2).unwrap().unwrap().minor_amount(), 99);
        assert!(r.get_change(&3).unwrap().is_none());
    }
}

#[test]
fn transfer_without_recipient_is_refused() {
    let r = row(TransactionType::Transfer, 1, None, 99, "GBP");
    assert!(matches!(r.get_change(&1), Err(Error::MissingRecipient(TransactionType::Transfer))));
    let p = row(TransactionType::Payment, 1, None, 99, "GBP");
    assert!(matches!(TransactionE::try_from(p), Err(Error::MissingRecipient(TransactionType::Payment))));
}

#[test]
fn unknown_currency_is_refused() {
    let r = row(TransactionType::Deposit, 1, None, 5, "ABC");
    assert!(matches!(r.get_change(&1), Err(Error::InvalidCurrencyCode(ref c)) if c == "ABC"));
    assert!(matches!(r.amount_as_money(), Err(Error::InvalidCurrencyCode(_))));
    assert!(matches!(TransactionE::try_from(r), Err(Error::InvalidCurrencyCode(_))));
}

#[test]
fn deposit_with_recipient_is_refused() {
    let r = row(TransactionType::Deposit, 1, Some(2), 5, "USD");
    assert!(matches!(TransactionE::try_from(r), Err(Error::UnexpectedRecipient(TransactionType::Deposit))));
    let w = row(TransactionType::Withdrawal, 1, Some(2), 5, "USD");
    assert!(matches!(TransactionE::try_from(w), Err(Error::UnexpectedRecipient(TransactionType::Withdrawal))));
}

#[test]
fn stored_entry_reads_back() {
    let usd = with_code("USD").unwrap();
    let entries = vec![
        TransactionE::Transfer { sender: 1, recipient: 2, amount: Money::of_minor(usd.duplicate(), 10), date: 5 },
        TransactionE::Deposit { from: 3, amount: Money::of_minor(usd.duplicate(), -4), date: 6 },
        TransactionE::Withdrawal { to: 4, amount: Money::of_minor(usd.duplicate(), 8), date: 7 },
        TransactionE::Payment { sender: 5, recipient: 6, amount: Money::of_minor(usd, 9), date: 8 },
    ];
    for e in entries {
        let expected = format!("{:?}", e);
        let new = NewTransaction::from(e);
        let stored = Transaction::stored(11, new);
        assert_eq!(stored.serial(), 11);
        let back = TransactionE::try_from(stored).unwrap();
        assert_eq!(format!("{:?}", back), expected);
    }
}

#[test]
fn new_transaction_rows() {
    let usd = with_code("USD").unwrap();
    let d = NewTransaction::deposit(1, Money::of_minor(usd.duplicate(), 3));
    assert_eq!((d.sender, d.recipient, d.trans_type, d.amount, d.currency.as_str()), (1, None, TransactionType::Deposit, 3, "USD"));
    let w = NewTransaction::withdrawal(1, Money::of_minor(usd.duplicate(), 3));
    assert_eq!((w.sender, w.recipient, w.trans_type), (1, None, TransactionType::Withdrawal));
    let t = NewTransaction::transfer(1, 2, Money::of_minor(usd.duplicate(), 3));
    assert_eq!((t.sender, t.recipient, t.trans_type), (1, Some(2), TransactionType::Transfer));
    let p = NewTransaction::payment(1, 2, Money::of_minor(usd, 3));
    assert_eq!((p.sender, p.recipient, p.trans_type), (1, Some(2), TransactionType::Payment));
}

#[test]
fn amount_as_money_uses_currency_table() {
    let r = row(TransactionType::Deposit, 1, None, 1234, "JPY");
    let m = r.amount_as_money().unwrap();
    assert_eq!(m.currency.code(), "JPY");
    assert_eq!(m.currency.numeric_code(), 392);
    assert_eq!(m.currency.decimal_places(), 0);
    assert_eq!(m.minor_amount(), 1234);
}
