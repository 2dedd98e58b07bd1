use atm::account::{Account, NewAccount, Owner};
use atm::currency::{with_code, Money};
use atm::error::Error;
use atm::transaction::{NewTransaction, Transaction, TransactionType};

fn stored_row(serial: i32, new: NewTransaction) -> Transaction {
    Transaction::stored(serial, new)
}

fn stored_owner(name: &str) -> Owner {
    let new = Owner::new(name);
    Owner::stored(&new)
}

fn balance_of(funds: &[(atm::currency::Currency, i64)], code: &str) -> Option<i64> {
    funds.iter().find(|(c, _)| c.code() == code).map(|(_, a)| *a)
}

#[test]
fn account_secure_account_and_decrypt() {
    let owner = stored_owner("John Doe");
    let sek = with_code("SEK").unwrap();
    let new = NewAccount::new(&owner, Some(Money::of_major(sek, 100)), "hunter1").unwrap();
    let mut sec_account = Account::stored(new);
    println!("{:#?}", sec_account);
    sec_account.open("hunter1").unwrap();
}

#[test]
#[should_panic]
fn open_with_wrong_password() {
    let owner = stored_owner("John Doe");
    let new = NewAccount::new(&owner, None, "hunter1").unwrap();
    let mut sec_account = Account::stored(new);
    sec_account.open("wrongpass").expect("Fail means success");
}

#[test]
fn check_funds() {
    let owner = stored_owner("John Doe");
    let sek = with_code("SEK").unwrap();
    let jpy = with_code("JPY").unwrap();
    let isk = with_code("ISK").unwrap();
    let usd = with_code("USD").unwrap();
    let new_sec = NewAccount::new(&owner, Some(Money::of_major(sek.duplicate(), 100)), "hunter1").unwrap();
    let other_owner = stored_owner("Jane Doe");
    let new_other = NewAccount::new(&other_owner, Some(Money::of_major(jpy, 100)), "password").unwrap();
    let mut transactions = Vec::new();
    let mut other_transactions = Vec::new();
    transactions.push(stored_row(1, new_sec.opening_deposit().unwrap()));
    other_transactions.push(stored_row(2, new_other.opening_deposit().unwrap()));
    let sec_account = Account::stored(new_sec);
    let other_sec_account = Account::stored(new_other);
    transactions.push(stored_row(3, NewTransaction::deposit(sec_account.id, Money::of_major(sek, 100))));
    transactions.push(stored_row(4, NewTransaction::withdrawal(sec_account.id, Money::of_major(isk, 40))));
    transactions.push(stored_row(
        5,
        NewTransaction::payment(other_sec_account.id, sec_account.id, Money::of_major(usd.duplicate(), 30)),
    ));
    other_transactions.push(stored_row(
        5,
        NewTransaction::payment(other_sec_account.id, sec_account.id, Money::of_major(usd, 30)),
    ));
    let funds = sec_account.funds(&transactions).unwrap();
    let checks = [("SEK", 20000i64), ("ISK", -40), ("USD", 3000)];
    assert_eq!(funds.len(), checks.len());
    for (code, amount) in checks.iter() {
        assert_eq!(balance_of(&funds, code), Some(*amount));
    }
    let other_funds = other_sec_account.funds(&other_transactions).unwrap();
    assert_eq!(other_funds.len(), 2);
    assert_eq!(balance_of(&other_funds, "JPY"), Some(100));
    assert_eq!(balance_of(&other_funds, "USD"), Some(-3000));
}

#[test]
fn opening_deposit_records_opening_funds() {
    let owner = stored_owner("Ann");
    let sek = with_code("SEK").unwrap();
    let new = NewAccount::new(&owner, Some(Money::of_major(sek, 100)), "pw").unwrap();
    let d = new.opening_deposit().unwrap();
    assert_eq!(d.sender, new.id);
    assert_eq!(d.recipient, None);
    assert_eq!(d.trans_type, TransactionType::Deposit);
    assert_eq!(d.amount, 10000);
    assert_eq!(d.currency, "SEK");
    assert_eq!(d.date, new.created);
    let none = NewAccount::new(&owner, None, "pw").unwrap();
    assert!(none.opening_deposit().is_none());
}

#[test]
fn funds_keep_first_appearance_order() {
    let owner = stored_owner("Ann");
    let acc = Account::stored(NewAccount::new(&owner, None, "pw").unwrap());
    let eur = with_code("EUR").unwrap();
    let gbp = with_code("GBP").unwrap();
    let rows = vec![
        stored_row(1, NewTransaction::deposit(acc.id, Money::of_minor(eur.duplicate(), 500))),
        stored_row(2, NewTransaction::deposit(acc.id, Money::of_minor(gbp, 7))),
        stored_row(3, NewTransaction::withdrawal(acc.id, Money::of_minor(eur, 200))),
        stored_row(4, NewTransaction::deposit(acc.id + 1, Money::of_minor(with_code("USD").unwrap(), 9))),
    ];
    let funds = acc.funds(&rows).unwrap();
    assert_eq!(funds.len(), 2);
    assert_eq!(funds[0].0.code(), "EUR");
    assert_eq!(funds[0].1, 300);
    assert_eq!(funds[1].0.code(), "GBP");
    assert_eq!(funds[1].1, 7);
}

#[test]
fn funds_of_no_transactions_are_empty() {
    let owner = stored_owner("Ann");
    let acc = Account::stored(NewAccount::new(&owner, None, "pw").unwrap());
    assert!(acc.funds(&Vec::new()).unwrap().is_empty());
}

#[test]
fn funds_refuse_unknown_currency() {
    let owner = stored_owner("Ann");
    let acc = Account::stored(NewAccount::new(&owner, None, "pw").unwrap());
    let row = Transaction {
        serial: 1,
        sender: acc.id,
        recipient: None,
        trans_type: TransactionType::Deposit,
        amount: 10,
        currency: "XXQ".to_string(),
        date: 0,
    };
    match acc.funds(&vec![row]) {
        Err(Error::InvalidCurrencyCode(c)) => assert_eq!(c, "XXQ"),
        other => panic!("unexpected {:?}", other),
    }
}

#[test]
fn funds_refuse_overflowing_balance() {
    let owner = stored_owner("Ann");
    let acc = Account::stored(NewAccount::new(&owner, None, "pw").unwrap());
    let usd = with_code("USD").unwrap();
    let rows = vec![
        stored_row(1, NewTransaction::deposit(acc.id, Money::of_minor(usd.duplicate(), i64::MAX))),
        stored_row(2, NewTransaction::deposit(acc.id, Money::of_minor(usd, 1))),
    ];
    assert!(matches!(acc.funds(&rows), Err(Error::BalanceOverflow)));
}

#[test]
fn transfer_conserves_money() {
    let a = Account::stored(NewAccount::new(&stored_owner("A"), None, "a").unwrap());
    let b = Account::stored(NewAccount::new(&stored_owner("B"), None, "b").unwrap());
    let usd = with_code("USD").unwrap();
    let row = stored_row(9, a.transfer(&b, Money::of_major(usd, 12)));
    let rows = vec![row];
    let fa = a.funds(&rows).unwrap();
    let fb = b.funds(&rows).unwrap();
    assert_eq!(fa[0].1, -1200);
    assert_eq!(fb[0].1, 1200);
    assert_eq!(fa[0].1 + fb[0].1, 0);
}

#[test]
fn new_account_belongs_to_owner() {
    let owner = stored_owner("Ann");
    let new = NewAccount::new(&owner, None, "pw").unwrap();
    assert_eq!(new.owner_id, owner.id());
    assert_eq!(new.created, new.last_updated);
    assert_ne!(new.pw_hash, "pw");
    assert!(new.pw_hash.starts_with("$argon2id$"));
    let again = NewAccount::new(&owner, None, "pw").unwrap();
    assert_ne!(new.pw_hash, again.pw_hash);
    assert_ne!(new.id(), again.id());
    let id = new.id();
    let acc = Account::stored(new);
    assert_eq!(acc.id(), id);
}

#[test]
fn with_salt_without_salt_is_random_source_error() {
    let owner = stored_owner("Ann");
    let r = NewAccount::with_salt(&owner, None, "pw", 5, None, 0);
    assert!(matches!(r, Err(Error::RandomSource)));
}

#[test]
fn with_salt_is_deterministic() {
    let owner = stored_owner("Ann");
    let a = NewAccount::with_salt(&owner, None, "pw", 5, Some(vec![7u8; 16]), 42).unwrap();
    let b = NewAccount::with_salt(&owner, None, "pw", 5, Some(vec![7u8; 16]), 42).unwrap();
    assert_eq!(a.pw_hash, b.pw_hash);
    assert_eq!(a.id, 5);
    assert_eq!(a.created, 42);
    let c = NewAccount::with_salt(&owner, None, "other", 5, Some(vec![7u8; 16]), 42).unwrap();
    assert_ne!(a.pw_hash, c.pw_hash);
}

#[test]
fn open_with_unreadable_hash_fails_check() {
    let owner = stored_owner("Ann");
    let mut acc = Account::stored(NewAccount::new(&owner, None, "pw").unwrap());
    acc.pw_hash = "not a hash".to_string();
    assert!(matches!(acc.open("pw"), Err(Error::PasswordCheck)));
}

#[test]
fn password_outcome_cases() {
    assert!(Account::password_outcome(Some(true)).is_ok());
    assert!(matches!(Account::password_outcome(Some(false)), Err(Error::PasswordMismatch)));
    assert!(matches!(Account::password_outcome(None), Err(Error::PasswordCheck)));
}

#[test]
fn owner_builders_set_fields() {
    let new = Owner::new("Joe John")
        .set_email(Some("junk@gmail.com"))
        .set_phone_number(Some("123"))
        .set_date_of_birth(Some(496_972_800_000_000));
    assert_eq!(new.name, "Joe John");
    assert_eq!(new.email, Some("junk@gmail.com"));
    assert_eq!(new.phone_number, Some("123"));
    assert_eq!(new.date_of_birth, Some(496_972_800_000_000));
    let owner = Owner::stored(&new);
    assert_eq!(owner.id(), new.id());
    assert_eq!(owner.email.as_deref(), Some("junk@gmail.com"));
    let cleared = new.set_email(None);
    assert_eq!(cleared.email, None);
}

#[test]
fn owners_get_distinct_ids() {
    assert_ne!(Owner::new("a").id(), Owner::new("a").id());
}

#[test]
fn random_salts_have_sixteen_bytes() {
    let a = atm::password::random_salt().unwrap();
    let b = atm::password::random_salt().unwrap();
    assert_eq!(a.len(), 16);
    assert_eq!(b.len(), 16);
    assert_ne!(a, b);
}

#[test]
fn appended_transfer_moves_balances() {
    let a = Account::stored(NewAccount::new(&stored_owner("A"), None, "a").unwrap());
    let b = Account::stored(NewAccount::new(&stored_owner("B"), None, "b").unwrap());
    let usd = with_code("USD").unwrap();
    let eur = with_code("EUR").unwrap();
    let mut rows = vec![
        stored_row(1, NewTransaction::deposit(a.id, Money::of_minor(usd.duplicate(), 1000))),
        stored_row(2, NewTransaction::deposit(b.id, Money::of_minor(eur.duplicate(), 50))),
    ];
    let fa0 = a.funds(&rows).unwrap();
    let fb0 = b.funds(&rows).unwrap();
    rows.push(stored_row(3, a.transfer(&b, Money::of_minor(usd, 300))));
    let fa1 = a.funds(&rows).unwrap();
    let fb1 = b.funds(&rows).unwrap();
    assert_eq!(balance_of(&fa1, "USD"), Some(balance_of(&fa0, "USD").unwrap() - 300));
    assert_eq!(balance_of(&fb1, "USD"), Some(300));
    assert_eq!(balance_of(&fb0, "USD"), None);
    assert_eq!(balance_of(&fb1, "EUR"), balance_of(&fb0, "EUR"));
    assert_eq!(fa1.len(), 1);
    assert_eq!(fb1.len(), 2);
}
