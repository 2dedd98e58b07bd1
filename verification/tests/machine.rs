use atm::currency::{with_code, Money};
use atm::error::Error;
use atm::machine::bank::{Account, Owner, Scrypt, StoredAccount};
use atm::machine::term::{Key, TermKey};
use atm::machine::transaction::Transaction;
use atm::transaction::{NewTransaction, Transaction as Row, TransactionE};

fn same_account(a: &Account, b: &Account) -> bool {
    a.owner.id == b.owner.id
        && a.owner.name == b.owner.name
        && a.id == b.id
        && a.created == b.created
        && a.funds.currency.same(&b.funds.currency)
        && a.funds.minor_amount() == b.funds.minor_amount()
}

fn copy(a: &Account) -> Account {
    Account {
        owner: a.owner.duplicate(),
        id: a.id,
        created: a.created,
        funds: a.funds.duplicate(),
    }
}

#[test]
fn bank_secure_account_and_decrypt() {
    let owner = Owner::new("John Doe");
    let account = Account::new(owner, Money::of_major(with_code("SEK").unwrap(), 100));
    let kept = copy(&account);
    let mut sec_account = StoredAccount::store_new("hunter1", account).unwrap();
    assert_eq!(sec_account.account_u8.len(), 256);
    assert_eq!(sec_account.iv.len(), 16);
    let deser_account = sec_account.decrypt("hunter1").unwrap();
    assert!(same_account(&kept, &deser_account));
    assert_eq!(deser_account.funds.minor_amount(), 10000);
    assert_eq!(deser_account.funds.currency.code(), "SEK");
    assert_eq!(sec_account.owner.id, kept.owner.id);
    assert_eq!(sec_account.owner.name, "John Doe");
    assert_eq!(sec_account.id, kept.id);
}

#[test]
fn decrypt_with_wrong_password_does_not_give_the_account() {
    let account = Account::new(Owner::new("Jane"), Money::of_major(with_code("USD").unwrap(), 5));
    let kept = copy(&account);
    let mut sec_account = StoredAccount::store_new("right", account).unwrap();
    match sec_account.decrypt("wrong") {
        Ok(a) => assert!(!same_account(&kept, &a)),
        Err(e) => assert!(matches!(e, Error::UnreadableAccount | Error::InvalidCurrencyCode(_))),
    }
}

#[test]
fn store_with_needs_iv_and_hash() {
    let usd = with_code("USD").unwrap();
    let make = || Account::new(Owner::new("Jane"), Money::of_minor(usd.duplicate(), 5));
    assert!(StoredAccount::store_with(make(), None, Some("$rscrypt$0$DggB$YWJjZA==$aGFzaA==$".to_string())).is_none());
    assert!(StoredAccount::store_with(make(), Some(vec![0u8; 16]), None).is_none());
    // a hash of 4 bytes is no AES-256 key
    assert!(StoredAccount::store_with(make(), Some(vec![0u8; 16]), Some("$rscrypt$0$DggB$YWJjZA==$aGFzaA==$".to_string())).is_none());
    // 32 bytes of 'k' in Base64
    let key = "a2tra2tra2tra2tra2tra2tra2tra2tra2tra2tra2s=";
    let hashed = format!("$rscrypt$0$DggB$YWJjZA==${}$", key);
    let account = make();
    let kept = copy(&account);
    let stored = StoredAccount::store_with(account, Some(vec![7u8; 16]), Some(hashed)).unwrap();
    assert_eq!(stored.salt, b"abcd".to_vec());
    assert_eq!(stored.iv, vec![7u8; 16]);
    assert_eq!(stored.id, kept.id);
    assert_eq!(stored.account_u8.len(), 256);
}

#[test]
fn scrypt_format_reads_back_base64_fields() {
    let salt: Vec<u8> = (0u8..16).collect();
    let hash: Vec<u8> = (100u8..132).collect();
    let text = format!(
        "$rscrypt$0$DggB${}${}$",
        base64::Engine::encode(&base64::engine::general_purpose::STANDARD, &salt),
        base64::Engine::encode(&base64::engine::general_purpose::STANDARD, &hash)
    );
    let s = Scrypt::new(&text).unwrap();
    assert_eq!(s.salt, salt);
    assert_eq!(s.hash, hash);
}

#[test]
fn scrypt_format_is_read() {
    // salt "abcd" and hash "hash" in Base64
    let s = Scrypt::new("$rscrypt$0$DggB$YWJjZA==$aGFzaA==$").unwrap();
    assert_eq!(s.salt, b"abcd".to_vec());
    assert_eq!(s.hash, b"hash".to_vec());
}

#[test]
fn scrypt_format_errors() {
    assert_eq!(Scrypt::new("rscrypt$0$x$YQ==$YQ==$").err(), Some("Hash is not in Rust Scrypt format."));
    assert_eq!(Scrypt::new("$scrypt$0$x$YQ==$YQ==$").err(), Some("Hash is not in Rust Scrypt format."));
    assert_eq!(Scrypt::new("").err(), Some("Hash is not in Rust Scrypt format."));
    assert_eq!(Scrypt::new("$").err(), Some("Hash is not in Rust Scrypt format."));
}

#[test]
fn scrypt_try_new_reports_unreadable_fields() {
    assert!(Scrypt::try_new("$rscrypt$0$x").is_none());
    assert!(Scrypt::try_new("$rscrypt$0$x$!!$YQ==$").is_none());
    assert!(matches!(Scrypt::try_new("$other$"), Some(Err(_))));
    let ok = Scrypt::try_new("$rscrypt$0$DggB$YWJjZA==$aGFzaA==$").unwrap().unwrap();
    assert_eq!(ok.salt, b"abcd".to_vec());
}

#[test]
fn arrow_keys_are_read() {
    assert_eq!(Key::from_term_key(Some(TermKey::Up)), Some(Key::Up));
    assert_eq!(Key::from_term_key(Some(TermKey::Down)), Some(Key::Down));
    assert_eq!(Key::from_term_key(Some(TermKey::Left)), Some(Key::Left));
    assert_eq!(Key::from_term_key(Some(TermKey::Right)), Some(Key::Right));
    assert_eq!(Key::from_term_key(Some(TermKey::Char('q'))), None);
    assert_eq!(Key::from_term_key(Some(TermKey::Esc)), None);
    assert_eq!(Key::from_term_key(None), None);
}

#[test]
fn machine_transactions_change_balances() {
    let usd = with_code("USD").unwrap();
    let d = Transaction::deposit(1, Money::of_minor(usd.duplicate(), 100));
    assert_eq!(d.get_change(&1).unwrap().minor_amount(), 100);
    assert!(d.get_change(&2).is_none());
    let w = Transaction::withdrawal(1, Money::of_minor(usd.duplicate(), 100));
    assert_eq!(w.get_change(&1).unwrap().minor_amount(), -100);
    let t = Transaction::transfer(1, 2, Money::of_minor(usd.duplicate(), 30));
    assert_eq!(t.get_change(&1).unwrap().minor_amount(), -30);
    assert_eq!(t.get_change(&2).unwrap().minor_amount(), 30);
    assert!(t.get_change(&3).is_none());
    let p = Transaction::payment(2, 1, Money::of_minor(usd, 30));
    assert_eq!(p.get_change(&1).unwrap().minor_amount(), 30);
    assert_eq!(p.get_change(&2).unwrap().minor_amount(), -30);
}

fn round_trip_of_length(len: usize) {
    // the serialized account takes 64 bytes, the owner's name and the
    // three letters of the currency code
    let name: String = std::iter::repeat('n').take(len - 67).collect();
    let account = Account::new(Owner::new(&name), Money::of_major(with_code("USD").unwrap(), 5));
    let kept = copy(&account);
    let mut sec_account = StoredAccount::store_new("pw", account).unwrap();
    let read = sec_account.decrypt("pw").unwrap();
    assert!(same_account(&kept, &read));
    assert_eq!(read.owner.name.len(), len - 67);
}

#[test]
fn account_of_240_bytes_decrypts_whole() {
    round_trip_of_length(240);
}

#[test]
fn account_of_255_bytes_decrypts_whole() {
    round_trip_of_length(255);
}

#[test]
fn account_with_multibyte_name_decrypts_whole() {
    let account = Account::new(Owner::new("Åsa Öberg"), Money::of_minor(with_code("SEK").unwrap(), -250));
    let kept = copy(&account);
    let mut sec_account = StoredAccount::store_new("lösenord", account).unwrap();
    let read = sec_account.decrypt("lösenord").unwrap();
    assert!(same_account(&kept, &read));
    assert_eq!(read.owner.name, "Åsa Öberg");
}

#[test]
fn stored_bytes_are_encrypted() {
    let account = Account::new(Owner::new("Jane"), Money::of_major(with_code("USD").unwrap(), 5));
    let sec_account = StoredAccount::store_new("pw", account).unwrap();
    // the stored bytes do not start with the owner's id as bincode writes it
    assert_ne!(&sec_account.account_u8[..16], &sec_account.owner.id.to_le_bytes()[..]);
    assert_eq!(sec_account.salt.len(), 16);
}

#[test]
fn row_and_machine_transaction_agree() {
    let usd = with_code("USD").unwrap();
    let machine = Transaction::payment(4, 9, Money::of_minor(usd.duplicate(), 77));
    let entry = TransactionE::Payment { sender: 4, recipient: 9, amount: Money::of_minor(usd, 77), date: 0 };
    let row = Row::stored(1, NewTransaction::from(entry));
    for id in [4u128, 9, 10] {
        let a = machine.get_change(&id).map(|m| m.minor_amount());
        let b = row.get_change(&id).unwrap().map(|m| m.minor_amount());
        assert_eq!(a, b);
    }
}
