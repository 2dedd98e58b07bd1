use atm::account::{Account, NewAccount, Owner};
use atm::currency::{with_code, Money};
use atm::error::Error;
use atm::transaction::{NewTransaction, Transaction, TransactionType};
use atm::web::{
    admin_login, connection_outcome, create_datetime_from_pg, pg_epoch, user_transactions, AccountContext,
    AdminUser, NewTransactionFromForm, Outcome, TransactionOfUser, EARLIEST_MICROS, LATEST_MICROS,
};

#[test]
fn admin_session_decisions() {
    assert!(matches!(AdminUser::from_request(Outcome::Success(()), Some("1")), Outcome::Success(AdminUser)));
    assert!(matches!(AdminUser::from_request(Outcome::Success(()), None), Outcome::Forward));
    assert!(matches!(
        AdminUser::from_request(Outcome::Success(()), Some("0")),
        Outcome::Failure(401, "User is not authorized to access this page.")
    ));
    assert!(matches!(
        AdminUser::from_request(Outcome::Failure(503, ()), Some("1")),
        Outcome::Failure(404, "Unable to get a connection to database")
    ));
    assert!(matches!(AdminUser::from_request(Outcome::Forward, Some("1")), Outcome::Forward));
}

#[test]
fn connection_decisions() {
    assert!(matches!(connection_outcome(Outcome::Success(()), true), Outcome::Success(())));
    assert!(matches!(connection_outcome(Outcome::Success(()), false), Outcome::Failure(503, ())));
    assert!(matches!(connection_outcome(Outcome::Failure(500, ()), true), Outcome::Failure(500, ())));
    assert!(matches!(connection_outcome(Outcome::Forward, true), Outcome::Forward));
}

#[test]
fn admin_login_decisions() {
    assert!(admin_login("admin", "hunter1"));
    assert!(!admin_login("admin", "hunter2"));
    assert!(!admin_login("root", "hunter1"));
    assert!(!admin_login("", ""));
}

#[test]
fn postgres_epoch() {
    assert_eq!(pg_epoch(), 946_684_800_000_000);
    assert_eq!(create_datetime_from_pg(0), 946_684_800_000_000);
    assert_eq!(create_datetime_from_pg(-946_684_800_000_000), 0);
    assert_eq!(create_datetime_from_pg(1_000_000), 946_684_801_000_000);
    assert_eq!(create_datetime_from_pg(LATEST_MICROS - 946_684_800_000_000), LATEST_MICROS);
    assert_eq!(create_datetime_from_pg(EARLIEST_MICROS - 946_684_800_000_000), EARLIEST_MICROS);
}

#[test]
fn form_becomes_transaction() {
    let form = NewTransactionFromForm {
        sender: 1,
        recipient: Some(2),
        trans_type: 4,
        amount: 500,
        currency: "USD".to_string(),
        date: Some(60_000_000),
    };
    let t = NewTransaction::from_form(form);
    assert_eq!(t.sender, 1);
    assert_eq!(t.recipient, Some(2));
    assert_eq!(t.trans_type, TransactionType::Payment);
    assert_eq!(t.amount, 500);
    assert_eq!(t.currency, "USD");
    assert_eq!(t.date, 946_684_860_000_000);
    let undated = NewTransaction::from_form(NewTransactionFromForm {
        sender: 1,
        recipient: None,
        trans_type: 2,
        amount: 5,
        currency: "EUR".to_string(),
        date: None,
    });
    assert_eq!(undated.trans_type, TransactionType::Deposit);
    assert!(undated.date > 946_684_800_000_000);
}

fn row(serial: i32, kind: TransactionType, sender: u128, recipient: Option<u128>, amount: i64, currency: &str) -> Transaction {
    Transaction { serial, sender, recipient, trans_type: kind, amount, currency: currency.to_string(), date: 0 }
}

#[test]
fn transactions_shown_skip_unknown_currencies() {
    let rows = vec![
        row(1, TransactionType::Deposit, 1, None, 123456, "GBP"),
        row(2, TransactionType::Deposit, 1, None, 5, "QQQ"),
        row(3, TransactionType::Transfer, 1, Some(2), 700, "JPY"),
    ];
    let shown = user_transactions(&rows);
    assert_eq!(shown.len(), 2);
    assert_eq!(shown[0].serial, 1);
    assert_eq!(shown[0].amount, "1,234.56\u{a0}GBP");
    assert_eq!(shown[1].serial, 3);
    assert_eq!(shown[1].trans_type, TransactionType::Transfer);
    assert_eq!(shown[1].recipient, Some(2));
    assert!(matches!(TransactionOfUser::from_transaction(&rows[1]), Err(Error::InvalidCurrencyCode(_))));
}

#[test]
fn account_page_shows_funds() {
    let owner = Owner::stored(&Owner::new("Joe John"));
    let account = Account::stored(NewAccount::new(&owner, None, "hunter1").unwrap());
    let id = account.id;
    let sek = with_code("SEK").unwrap();
    let rows = vec![
        Transaction::stored(1, NewTransaction::deposit(id, Money::of_major(sek.duplicate(), 100))),
        Transaction::stored(2, NewTransaction::withdrawal(id, Money::of_major(sek, 30))),
    ];
    let ctx = AccountContext::new(account, owner, &rows).unwrap();
    assert_eq!(ctx.funds, vec!["70.00\u{a0}SEK".to_string()]);
    assert_eq!(ctx.transactions.len(), 2);
    assert_eq!(ctx.account.id, id);
    assert_eq!(ctx.owner.name, "Joe John");
}

#[test]
fn account_page_fails_on_bad_rows() {
    let owner = Owner::stored(&Owner::new("Joe John"));
    let account = Account::stored(NewAccount::new(&owner, None, "hunter1").unwrap());
    let rows = vec![row(1, TransactionType::Payment, account.id, None, 5, "USD")];
    assert!(matches!(AccountContext::new(account, owner, &rows), Err(Error::MissingRecipient(TransactionType::Payment))));
}
