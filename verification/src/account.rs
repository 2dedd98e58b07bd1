//! Owners, accounts and their balances.
use vstd::prelude::*;
use crate::currency::{Currency, CurrencyView, Money, MoneyView};
use crate::error::{Error, ErrorView};
use crate::transaction::{NewTransaction, Transaction, TransactionE, RowView, row_change, row_negates, row_of_entry, EntryView, TransactionType, has_recipient};
use crate::currency::iso_currency_with_code;
use crate::password::{argon2_verify, argon2_hash, argon2id_prefix, hash_password, verify_password, random_salt, SALT_LEN};
use crate::clock::now_micros;
use crate::ids::{new_id, try_new_id};

verus! {

/// An end-user of the bank, as stored.
#[derive(Debug)]
pub struct Owner {
    pub id: u128,
    pub name: String,
    pub registered: i64,
    pub email: Option<String>,
    pub phone_number: Option<String>,
    pub date_of_birth: Option<i64>,
}

/// An end-user of the bank, about to be stored.
#[derive(Debug)]
pub struct NewOwner<'a> {
    pub id: u128,
    pub name: &'a str,
    pub registered: i64,
    pub email: Option<&'a str>,
    pub phone_number: Option<&'a str>,
    pub date_of_birth: Option<i64>,
}

impl Owner {
    /// A new owner called `name`, with a fresh id, registered now, with no
    /// email, phone number or date of birth.
    pub fn new<'a>(name: &'a str) -> (r: NewOwner<'a>)
        ensures
            r.name@ == name@,
            r.email is None,
            r.phone_number is None,
            r.date_of_birth is None,
            r.registered >= 0,
    {
        NewOwner {
            id: new_id(),
            name,
            registered: now_micros(),
            email: None,
            phone_number: None,
            date_of_birth: None,
        }
    }

    /// The owner's id.
    pub fn id(&self) -> (r: u128)
        ensures
            r == self.id,
    {
        self.id
    }

    /// The owner that the store holds for `new`.
    pub fn stored(new: &NewOwner) -> (r: Owner)
        ensures
            r.id == new.id,
            r.name@ == new.name@,
            r.registered == new.registered,
            r.email.is_some() == new.email.is_some(),
            r.email matches Some(e) ==> e@ == new.email->Some_0@,
            r.phone_number.is_some() == new.phone_number.is_some(),
            r.phone_number matches Some(p) ==> p@ == new.phone_number->Some_0@,
            r.date_of_birth == new.date_of_birth,
    {
        let email = match new.email {
            Some(e) => Some(e.to_owned()),
            None => None,
        };
        let phone_number = match new.phone_number {
            Some(p) => Some(p.to_owned()),
            None => None,
        };
        Owner {
            id: new.id,
            name: new.name.to_owned(),
            registered: new.registered,
            email,
            phone_number,
            date_of_birth: new.date_of_birth,
        }
    }
}

impl<'a> NewOwner<'a> {
    /// The owner's id.
    pub fn id(&self) -> (r: u128)
        ensures
            r == self.id,
    {
        self.id
    }

    /// The same owner with the given email address.
    pub fn set_email(self, email: Option<&'a str>) -> (r: NewOwner<'a>)
        ensures
            r == (NewOwner { email, ..self }),
    {
        NewOwner { email, ..self }
    }

    /// The same owner with the given phone number.
    pub fn set_phone_number(self, phone_number: Option<&'a str>) -> (r: NewOwner<'a>)
        ensures
            r == (NewOwner { phone_number, ..self }),
    {
        NewOwner { phone_number, ..self }
    }

    /// The same owner with the given date of birth.
    pub fn set_date_of_birth(self, date: Option<i64>) -> (r: NewOwner<'a>)
        ensures
            r == (NewOwner { date_of_birth: date, ..self }),
    {
        NewOwner { date_of_birth: date, ..self }
    }
}

/// An account about to be stored.
#[derive(Debug)]
pub struct NewAccount {
    pub id: u128,
    pub owner_id: u128,
    pub created: i64,
    pub last_updated: i64,
    pub pw_hash: String,
    /// The funds that the account opens with, credited by its opening
    /// deposit.
    pub opening_funds: Option<Money>,
}

/// A stored account.
#[derive(Debug)]
pub struct Account {
    pub id: u128,
    pub owner_id: u128,
    pub created: i64,
    pub last_updated: i64,
    pub pw_hash: String,
}

/// What checking a password gives, from what Argon2 answered: success when
/// it matches, a mismatch when it does not, and a failed check when the hash
/// could not be read.
pub open spec fn password_result(verified: Option<bool>) -> Result<(), ErrorView> {
    match verified {
        Some(true) => Ok(()),
        Some(false) => Err(ErrorView::PasswordMismatch),
        None => Err(ErrorView::PasswordCheck),
    }
}

/// Whether `encoded` is the Argon2 hash of `password` with some salt of
/// `SALT_LEN` bytes.
pub open spec fn hashes_password(encoded: Seq<char>, password: Seq<char>) -> bool {
    exists|salt: Seq<u8>| salt.len() == SALT_LEN && argon2_hash(password, salt) == Some(encoded)
}

impl NewAccount {
    /// The account's id.
    pub fn id(&self) -> (r: u128)
        ensures
            r == self.id,
    {
        self.id
    }

    /// A new account of `owner`, with a fresh id, created now, whose password
    /// is stored as an Argon2 hash with a random salt, and which opens with
    /// `funds` (credited by its opening deposit). Fails with `RandomSource`
    /// when no random id or salt can be had, and with `PasswordHash` when the
    /// password is too long to hash.
    pub fn new(owner: &Owner, funds: Option<Money>, password: &str) -> (r: Result<
        NewAccount,
        Error,
    >)
        ensures
            r matches Ok(a) ==> a.owner_id == owner.id && a.created == a.last_updated
                && hashes_password(a.pw_hash@, password@) && argon2_verify(a.pw_hash@, password@)
                == Some(true) && a.pw_hash@.len() >= 10 && a.pw_hash@.subrange(0, 10)
                == argon2id_prefix() && money_option_view(a.opening_funds) == money_option_view(
                funds,
            ) && a.created >= 0,
            r matches Err(e) ==> (e@ == ErrorView::RandomSource || (e@ == ErrorView::PasswordHash
                && password@.len() > 0x3FFF_FFFF)),
    {
        let id = match try_new_id() {
            Some(id) => id,
            None => return Err(Error::RandomSource),
        };
        let salt = random_salt();
        let created = now_micros();
        NewAccount::with_salt(owner, funds, password, id, salt, created)
    }

    /// A new account of `owner` with the id `id`, created at `created`, which
    /// opens with `funds`, and whose password is hashed with `salt` (`None`:
    /// no random bytes could be had). With a salt it succeeds for every
    /// password of at most `0x3FFF_FFFF` characters.
    pub fn with_salt(
        owner: &Owner,
        funds: Option<Money>,
        password: &str,
        id: u128,
        salt: Option<Vec<u8>>,
        created: i64,
    ) -> (r: Result<NewAccount, Error>)
        requires
            salt matches Some(s) ==> s@.len() == SALT_LEN,
        ensures
            salt is None ==> (r matches Err(e) && e@ == ErrorView::RandomSource),
            salt is Some && password@.len() <= 0x3FFF_FFFF ==> r is Ok,
            salt matches Some(s) ==> match (r, argon2_hash(password@, s@)) {
                (Ok(a), Some(h)) => a.id == id && a.owner_id == owner.id && a.created
                    == created && a.last_updated == created && a.pw_hash@ == h
                    && money_option_view(a.opening_funds) == money_option_view(funds),
                (Err(e), None) => e@ == ErrorView::PasswordHash,
                _ => false,
            },
            r matches Ok(a) ==> hashes_password(a.pw_hash@, password@) && argon2_verify(
                a.pw_hash@,
                password@,
            ) == Some(true) && a.pw_hash@.len() >= 10 && a.pw_hash@.subrange(0, 10)
                == argon2id_prefix(),
            r matches Err(e) ==> (e@ == ErrorView::RandomSource || (e@ == ErrorView::PasswordHash
                && password@.len() > 0x3FFF_FFFF)),
    {
        let salt = match salt {
            Some(s) => s,
            None => return Err(Error::RandomSource),
        };
        let pw_hash = match hash_password(password, salt.as_slice()) {
            Some(h) => h,
            None => return Err(Error::PasswordHash),
        };
        Ok(
            NewAccount {
                id,
                owner_id: owner.id(),
                created,
                last_updated: created,
                pw_hash,
                opening_funds: funds,
            },
        )
    }

    /// The deposit that credits the account with its opening funds, dated
    /// when the account was created; none when it opens without funds.
    pub fn opening_deposit(&self) -> (r: Option<NewTransaction>)
        ensures
            r is Some <==> self.opening_funds is Some,
            self.opening_funds matches Some(m) ==> (r matches Some(t) && t@ == row_of_entry(
                EntryView {
                    kind: TransactionType::Deposit,
                    sender: self.id,
                    recipient: None,
                    amount: m@,
                    date: self.created,
                },
            )),
    {
        match &self.opening_funds {
            None => None,
            Some(m) => Some(
                NewTransaction::from(
                    TransactionE::Deposit { from: self.id, amount: m.duplicate(), date: self.created },
                ),
            ),
        }
    }
}

/// The abstract value of an optional amount of money.
pub open spec fn money_option_view(m: Option<Money>) -> Option<MoneyView> {
    match m {
        Some(x) => Some(x@),
        None => None,
    }
}

impl Account {
    /// The account that the store holds for `new`.
    pub fn stored(new: NewAccount) -> (r: Account)
        ensures
            r.id == new.id,
            r.owner_id == new.owner_id,
            r.created == new.created,
            r.last_updated == new.last_updated,
            r.pw_hash@ == new.pw_hash@,
    {
        Account {
            id: new.id,
            owner_id: new.owner_id,
            created: new.created,
            last_updated: new.last_updated,
            pw_hash: new.pw_hash,
        }
    }

    /// The account's id.
    pub fn id(&self) -> (r: u128)
        ensures
            r == self.id,
    {
        self.id
    }

    /// Opens the account with `password`: succeeds exactly when the password
    /// matches the account's password hash.
    pub fn open(&mut self, password: &str) -> (r: Result<(), Error>)
        ensures
            *final(self) == *old(self),
            match (r, password_result(argon2_verify(old(self).pw_hash@, password@))) {
                (Ok(()), Ok(())) => true,
                (Err(e), Err(v)) => e@ == v,
                _ => false,
            },
    {
        let verified = verify_password(self.pw_hash.as_str(), password);
        Account::password_outcome(verified)
    }

    /// What opening an account gives, from what checking its password hash
    /// answered.
    pub fn password_outcome(verified: Option<bool>) -> (r: Result<(), Error>)
        ensures
            match (r, password_result(verified)) {
                (Ok(()), Ok(())) => true,
                (Err(e), Err(v)) => e@ == v,
                _ => false,
            },
    {
        match verified {
            Some(true) => Ok(()),
            Some(false) => Err(Error::PasswordMismatch),
            None => Err(Error::PasswordCheck),
        }
    }

    /// A transfer of `amount` from this account to `other`, dated now, ready
    /// to be stored.
    pub fn transfer(&self, other: &Account, amount: Money) -> (r: NewTransaction)
        ensures
            r@ == row_of_entry(
                EntryView {
                    kind: TransactionType::Transfer,
                    sender: self.id,
                    recipient: Some(other.id),
                    amount: amount@,
                    date: r.date,
                },
            ),
            r.date >= 0,
    {
        NewTransaction::transfer(self.id, other.id, amount)
    }
}


/// The abstract value of a list of balances: one entry per currency, in the
/// order in which the currencies first appeared.
pub open spec fn balances_view(b: Seq<(Currency, i64)>) -> Seq<(CurrencyView, int)> {
    b.map_values(|p: (Currency, i64)| (p.0@, p.1 as int))
}

/// The position of the last entry for currency `c` in a list of balances, or
/// -1 when there is none.
pub open spec fn find_currency(b: Seq<(CurrencyView, int)>, c: CurrencyView) -> int
    decreases b.len(),
{
    if b.len() == 0 {
        -1
    } else if b.last().0 == c {
        b.len() - 1
    } else {
        find_currency(b.drop_last(), c)
    }
}

/// Adds an amount of money to a list of balances: to the entry for its
/// currency, or as a new last entry when there is none. Refused when the new
/// balance does not fit in 64 bits.
pub open spec fn credit(b: Seq<(CurrencyView, int)>, m: MoneyView) -> Result<
    Seq<(CurrencyView, int)>,
    ErrorView,
> {
    let i = find_currency(b, m.0);
    let total = if i < 0 {
        m.1
    } else {
        b[i].1 + m.1
    };
    if total < i64::MIN || total > i64::MAX {
        Err(ErrorView::BalanceOverflow)
    } else if i < 0 {
        Ok(b.push((m.0, m.1)))
    } else {
        Ok(b.update(i, (m.0, total)))
    }
}

/// The balances of account `id` after the given transactions, in order: each
/// transaction's change for the account is credited in turn. The first
/// transaction that cannot be read, or the first balance that does not fit
/// in 64 bits, is the answer instead.
pub open spec fn balances(rows: Seq<RowView>, id: u128) -> Result<Seq<(CurrencyView, int)>, ErrorView>
    decreases rows.len(),
{
    if rows.len() == 0 {
        Ok(Seq::empty())
    } else {
        match balances(rows.drop_last(), id) {
            Err(e) => Err(e),
            Ok(b) => match row_change(rows.last(), id) {
                Err(e) => Err(e),
                Ok(None) => Ok(b),
                Ok(Some(m)) => credit(b, m),
            },
        }
    }
}

/// The abstract values of a list of transactions.
pub open spec fn rows_view(ts: Seq<Transaction>) -> Seq<RowView> {
    ts.map_values(|t: Transaction| t@)
}

/// Once the balances of a prefix of the transactions are refused, so are the
/// balances of every longer prefix, for the same reason.
proof fn lemma_refusal_persists(rows: Seq<RowView>, id: u128, k: int, j: int)
    requires
        0 <= k <= j <= rows.len(),
        balances(rows.take(k), id) is Err,
    ensures
        balances(rows.take(j), id) == balances(rows.take(k), id),
    decreases j - k,
{
    if j > k {
        lemma_refusal_persists(rows, id, k, j - 1);
        assert(rows.take(j).drop_last() =~= rows.take(j - 1));
    }
}

/// The position of the last entry for currency `c`, if any.
fn find_currency_index(b: &Vec<(Currency, i64)>, c: &Currency) -> (r: Option<usize>)
    ensures
        r matches Some(i) ==> i as int == find_currency(balances_view(b@), c@) && 0 <= i < b@.len(),
        r is None ==> find_currency(balances_view(b@), c@) == -1,
{
    let ghost v = balances_view(b@);
    let mut j = b.len();
    assert(v.take(j as int) =~= v);
    while j > 0
        invariant
            j <= b@.len(),
            v == balances_view(b@),
            find_currency(v.take(j as int), c@) == find_currency(v, c@),
        decreases j,
    {
        assert(v.take(j as int).drop_last() =~= v.take(j - 1));
        assert(v.take(j as int).last() == v[j - 1]);
        if b[j - 1].0.same(c) {
            return Some(j - 1);
        }
        j = j - 1;
    }
    None
}

/// The changes that the given transactions make to account `id`, in order,
/// leaving out those that do not concern it.
pub open spec fn changes(rows: Seq<RowView>, id: u128) -> Seq<MoneyView>
    decreases rows.len(),
{
    if rows.len() == 0 {
        Seq::empty()
    } else {
        let before = changes(rows.drop_last(), id);
        match row_change(rows.last(), id) {
            Ok(Some(m)) => before.push(m),
            _ => before,
        }
    }
}

/// The sum of the amounts in currency `c` among `ms`.
pub open spec fn sum_in(ms: Seq<MoneyView>, c: CurrencyView) -> int
    decreases ms.len(),
{
    if ms.len() == 0 {
        0
    } else {
        sum_in(ms.drop_last(), c) + if ms.last().0 == c {
            ms.last().1
        } else {
            0
        }
    }
}

/// Whether no currency has two entries in a list of balances.
pub open spec fn one_entry_per_currency(b: Seq<(CurrencyView, int)>) -> bool {
    forall|i: int, j: int| 0 <= i < j < b.len() ==> #[trigger] b[i].0 != #[trigger] b[j].0
}

/// The balance in currency `c` of a list of balances: its entry's amount, or
/// 0 when it has none.
pub open spec fn balance_in(b: Seq<(CurrencyView, int)>, c: CurrencyView) -> int {
    let i = find_currency(b, c);
    if i < 0 {
        0
    } else {
        b[i].1
    }
}

/// `find_currency` finds an entry for the currency exactly when there is one.
proof fn lemma_find_currency(b: Seq<(CurrencyView, int)>, c: CurrencyView)
    ensures
        -1 <= find_currency(b, c) < b.len(),
        find_currency(b, c) >= 0 ==> b[find_currency(b, c)].0 == c,
        find_currency(b, c) == -1 ==> forall|i: int| 0 <= i < b.len() ==> b[i].0 != c,
    decreases b.len(),
{
    if b.len() > 0 && b.last().0 != c {
        lemma_find_currency(b.drop_last(), c);
        assert forall|i: int| 0 <= i < b.len() && find_currency(b, c) == -1 implies b[i].0 != c by {
            if i < b.len() - 1 {
                assert(b.drop_last()[i] == b[i]);
            }
        }
    }
}

/// With one entry per currency, the entry that `find_currency` finds is the
/// only one.
proof fn lemma_find_currency_unique(b: Seq<(CurrencyView, int)>, c: CurrencyView, i: int)
    requires
        one_entry_per_currency(b),
        0 <= i < b.len(),
        b[i].0 == c,
    ensures
        find_currency(b, c) == i,
{
    lemma_find_currency(b, c);
    let f = find_currency(b, c);
    if f != i {
        if f < i {
            assert(b[f].0 != b[i].0);
        } else {
            assert(b[i].0 != b[f].0);
        }
    }
}

/// Crediting a list of balances adds the amount to the balance in its
/// currency, leaves the other balances as they were, and keeps one entry per
/// currency.
proof fn lemma_credit(b: Seq<(CurrencyView, int)>, m: MoneyView)
    requires
        one_entry_per_currency(b),
        credit(b, m) is Ok,
    ensures
        one_entry_per_currency(credit(b, m)->Ok_0),
        forall|c: CurrencyView|
            #[trigger] balance_in(credit(b, m)->Ok_0, c) == balance_in(b, c) + if c == m.0 {
                m.1
            } else {
                0
            },
        forall|c: CurrencyView|
            #[trigger] find_currency(credit(b, m)->Ok_0, c) >= 0 <==> (find_currency(b, c) >= 0
                || c == m.0),
{
    let nb = credit(b, m)->Ok_0;
    let i = find_currency(b, m.0);
    lemma_find_currency(b, m.0);
    if i < 0 {
        assert(nb == b.push((m.0, m.1)));
    } else {
        assert(nb == b.update(i, (m.0, b[i].1 + m.1)));
    }
    assert forall|c: CurrencyView|
        #![trigger find_currency(nb, c)]
        #![trigger balance_in(nb, c)]
        (find_currency(nb, c) >= 0 <==> (find_currency(b, c) >= 0 || c == m.0))
            && balance_in(nb, c) == balance_in(b, c) + if c == m.0 {
            m.1
        } else {
            0
        } by {
        lemma_find_currency(b, c);
        lemma_find_currency(nb, c);
        if i < 0 {
            if c == m.0 {
                lemma_find_currency_unique(nb, c, b.len() as int);
            } else {
                assert(nb.drop_last() =~= b);
            }
        } else {
            if c == m.0 {
                lemma_find_currency_unique(nb, c, i);
            } else {
                let f = find_currency(b, c);
                if f >= 0 {
                    lemma_find_currency_unique(b, c, f);
                    lemma_find_currency_unique(nb, c, f);
                } else {
                    let g = find_currency(nb, c);
                    if g >= 0 {
                        assert(b[g].0 == c);
                    }
                }
            }
        }
    }
}

/// The balances of an account are the sums of its changes: when the
/// balances of account `id` after `rows` can be had, they hold one entry per
/// currency, an entry exactly for each currency in which some transaction
/// changes the account, and for every currency the sum of the changes in it.
pub proof fn lemma_balances_are_sums(rows: Seq<RowView>, id: u128)
    requires
        balances(rows, id) is Ok,
    ensures
        one_entry_per_currency(balances(rows, id)->Ok_0),
        forall|c: CurrencyView|
            #[trigger] balance_in(balances(rows, id)->Ok_0, c) == sum_in(changes(rows, id), c),
        forall|c: CurrencyView|
            #[trigger] find_currency(balances(rows, id)->Ok_0, c) >= 0 <==> exists|k: int|
                0 <= k < changes(rows, id).len() && (#[trigger] changes(rows, id)[k]).0 == c,
    decreases rows.len(),
{
    if rows.len() == 0 {
        let b = balances(rows, id)->Ok_0;
        assert forall|c: CurrencyView| #[trigger] find_currency(b, c) >= 0 <==> exists|k: int|
            0 <= k < changes(rows, id).len() && (#[trigger] changes(rows, id)[k]).0 == c by {}
    } else {
        let r = rows.drop_last();
        lemma_balances_are_sums(r, id);
        let b0 = balances(r, id)->Ok_0;
        let ch0 = changes(r, id);
        let ch = changes(rows, id);
        match row_change(rows.last(), id) {
            Ok(Some(m)) => {
                lemma_credit(b0, m);
                assert(ch == ch0.push(m));
                assert(ch.drop_last() =~= ch0);
                assert forall|c: CurrencyView| #[trigger] find_currency(
                    balances(rows, id)->Ok_0,
                    c,
                ) >= 0 <==> exists|k: int| 0 <= k < ch.len() && (#[trigger] ch[k]).0 == c by {
                    assert(find_currency(b0, c) >= 0 <==> exists|k: int|
                        0 <= k < ch0.len() && (#[trigger] ch0[k]).0 == c);
                    assert(find_currency(balances(rows, id)->Ok_0, c) >= 0 <==> (find_currency(b0, c)
                        >= 0 || c == m.0));
                    if c == m.0 {
                        assert(ch[ch.len() - 1].0 == c);
                    }
                    if exists|k: int| 0 <= k < ch0.len() && (#[trigger] ch0[k]).0 == c {
                        let k = choose|k: int| 0 <= k < ch0.len() && (#[trigger] ch0[k]).0 == c;
                        assert(ch[k] == ch0[k]);
                    }
                    if exists|k: int| 0 <= k < ch.len() && (#[trigger] ch[k]).0 == c {
                        let k = choose|k: int| 0 <= k < ch.len() && (#[trigger] ch[k]).0 == c;
                        if k < ch0.len() {
                            assert(ch0[k] == ch[k]);
                        }
                    }
                }
            },
            _ => {},
        }
    }
}

/// Whether `x` fits in 64 bits.
pub open spec fn fits_i64(x: int) -> bool {
    i64::MIN <= x <= i64::MAX
}

/// Crediting refuses nothing but a balance that does not fit in 64 bits: it
/// succeeds exactly when the balance in the amount's currency (0 without an
/// entry) plus the amount fits, and its only refusal is `BalanceOverflow`.
/// With one entry per currency, the new balance in the amount's currency is
/// the old one plus the amount, and every other balance stays as it was.
pub proof fn lemma_credit_refuses_only_overflow(b: Seq<(CurrencyView, int)>, m: MoneyView)
    ensures
        credit(b, m) is Ok <==> fits_i64(balance_in(b, m.0) + m.1),
        credit(b, m) is Err ==> credit(b, m) == Err::<Seq<(CurrencyView, int)>, ErrorView>(
            ErrorView::BalanceOverflow,
        ),
        one_entry_per_currency(b) && credit(b, m) is Ok ==> forall|c: CurrencyView|
            #[trigger] balance_in(credit(b, m)->Ok_0, c) == balance_in(b, c) + if c == m.0 {
                m.1
            } else {
                0
            },
{
    lemma_find_currency(b, m.0);
    if one_entry_per_currency(b) && credit(b, m) is Ok {
        lemma_credit(b, m);
    }
}

/// Every balance that can be had fits in 64 bits.
proof fn lemma_balances_fit(rows: Seq<RowView>, id: u128)
    requires
        balances(rows, id) is Ok,
    ensures
        forall|i: int|
            0 <= i < balances(rows, id)->Ok_0.len() ==> fits_i64(
                #[trigger] balances(rows, id)->Ok_0[i].1,
            ),
    decreases rows.len(),
{
    if rows.len() > 0 {
        let r = rows.drop_last();
        lemma_balances_fit(r, id);
        let b0 = balances(r, id)->Ok_0;
        match row_change(rows.last(), id) {
            Ok(Some(m)) => {
                let nb = credit(b0, m)->Ok_0;
                let i = find_currency(b0, m.0);
                lemma_find_currency(b0, m.0);
                assert forall|k: int| 0 <= k < nb.len() implies fits_i64(#[trigger] nb[k].1) by {
                    if i < 0 {
                        if k < b0.len() {
                            assert(nb[k] == b0[k]);
                        }
                    } else if k != i {
                        assert(nb[k] == b0[k]);
                    }
                }
            },
            _ => {},
        }
    }
}

/// Whether every transaction can be read for account `id`.
pub open spec fn rows_readable(rows: Seq<RowView>, id: u128) -> bool {
    forall|k: int| 0 <= k < rows.len() ==> #[trigger] row_change(rows[k], id) is Ok
}

/// Whether, after every prefix of the transactions, the sum of account
/// `id`'s changes in every currency fits in 64 bits.
pub open spec fn running_sums_fit(rows: Seq<RowView>, id: u128) -> bool {
    forall|k: int, c: CurrencyView|
        0 <= k <= rows.len() ==> fits_i64(#[trigger] sum_in(changes(rows.take(k), id), c))
}

/// The balances of an account are refused only for a cause: they can be
/// had exactly when every transaction can be read for the account and, after
/// each transaction, the sum of the account's changes in every currency fits
/// in 64 bits.
pub proof fn lemma_balances_refused_only_for_cause(rows: Seq<RowView>, id: u128)
    ensures
        balances(rows, id) is Ok <==> (rows_readable(rows, id) && running_sums_fit(rows, id)),
    decreases rows.len(),
{
    if rows.len() == 0 {
        assert forall|k: int, c: CurrencyView| 0 <= k <= rows.len() implies fits_i64(
            #[trigger] sum_in(changes(rows.take(k), id), c),
        ) by {
            assert(rows.take(k).len() == 0);
        }
    } else {
        let r = rows.drop_last();
        let n = rows.len() as int;
        lemma_balances_refused_only_for_cause(r, id);
        assert(rows.take(n) =~= rows);
        assert(rows.last() == rows[n - 1]);
        assert forall|k: int| 0 <= k <= r.len() implies #[trigger] rows.take(k) == r.take(k) by {
            assert(rows.take(k) =~= r.take(k));
        }
        assert forall|k: int| 0 <= k < r.len() implies #[trigger] r[k] == rows[k] by {}
        if rows_readable(rows, id) && running_sums_fit(rows, id) {
            assert forall|k: int| 0 <= k < r.len() implies #[trigger] row_change(r[k], id) is Ok by {
                assert(r[k] == rows[k]);
            }
            assert forall|k: int, c: CurrencyView| 0 <= k <= r.len() implies fits_i64(
                #[trigger] sum_in(changes(r.take(k), id), c),
            ) by {
                assert(rows.take(k) == r.take(k));
                assert(fits_i64(sum_in(changes(rows.take(k), id), c)));
            }
            assert(balances(r, id) is Ok);
            lemma_balances_are_sums(r, id);
            let b0 = balances(r, id)->Ok_0;
            assert(row_change(rows[n - 1], id) is Ok);
            match row_change(rows.last(), id) {
                Ok(Some(m)) => {
                    let ch = changes(rows, id);
                    assert(ch == changes(r, id).push(m));
                    assert(ch.drop_last() =~= changes(r, id));
                    assert(sum_in(ch, m.0) == sum_in(changes(r, id), m.0) + m.1);
                    assert(fits_i64(sum_in(changes(rows.take(n), id), m.0)));
                    lemma_credit_refuses_only_overflow(b0, m);
                },
                _ => {},
            }
        }
        if balances(rows, id) is Ok {
            assert(balances(r, id) is Ok);
            assert(row_change(rows.last(), id) is Ok);
            assert forall|k: int| 0 <= k < rows.len() implies #[trigger] row_change(rows[k], id) is Ok by {
                if k < r.len() {
                    assert(r[k] == rows[k]);
                    assert(row_change(r[k], id) is Ok);
                }
            }
            lemma_balances_are_sums(rows, id);
            lemma_balances_fit(rows, id);
            let b = balances(rows, id)->Ok_0;
            assert forall|k: int, c: CurrencyView| 0 <= k <= rows.len() implies fits_i64(
                #[trigger] sum_in(changes(rows.take(k), id), c),
            ) by {
                if k < n {
                    assert(rows.take(k) == r.take(k));
                    assert(fits_i64(sum_in(changes(r.take(k), id), c)));
                } else {
                    lemma_find_currency(b, c);
                    assert(balance_in(b, c) == sum_in(changes(rows, id), c));
                    if find_currency(b, c) >= 0 {
                        assert(fits_i64(b[find_currency(b, c)].1));
                    }
                }
            }
        }
    }
}

/// Appending a transfer or payment from account `a` to a different account
/// `b` moves its amount between their balances: `a`'s balance in the
/// transaction's currency falls by the amount and `b`'s rises by it, every
/// other balance of both stays as it was (a currency without an entry
/// counts as 0), and each keeps one entry per currency. It holds wherever
/// both balances can be had after the transaction.
pub proof fn lemma_transfer_moves_balances(rows: Seq<RowView>, t: RowView, a: u128, b: u128)
    requires
        has_recipient(t.kind),
        t.sender == a,
        t.recipient == Some(b),
        a != b,
        balances(rows.push(t), a) is Ok,
        balances(rows.push(t), b) is Ok,
    ensures
        iso_currency_with_code(t.currency) is Some,
        balances(rows, a) is Ok,
        balances(rows, b) is Ok,
        one_entry_per_currency(balances(rows.push(t), a)->Ok_0),
        one_entry_per_currency(balances(rows.push(t), b)->Ok_0),
        forall|c: CurrencyView|
            #[trigger] balance_in(balances(rows.push(t), a)->Ok_0, c) == balance_in(
                balances(rows, a)->Ok_0,
                c,
            ) - if Some(c) == iso_currency_with_code(t.currency) {
                t.amount as int
            } else {
                0
            },
        forall|c: CurrencyView|
            #[trigger] balance_in(balances(rows.push(t), b)->Ok_0, c) == balance_in(
                balances(rows, b)->Ok_0,
                c,
            ) + if Some(c) == iso_currency_with_code(t.currency) {
                t.amount as int
            } else {
                0
            },
{
    let r = rows.push(t);
    assert(r.drop_last() =~= rows);
    assert(r.last() == t);
    lemma_balances_are_sums(r, a);
    lemma_balances_are_sums(r, b);
    let cur = iso_currency_with_code(t.currency)->Some_0;
    lemma_balances_are_sums(rows, a);
    lemma_balances_are_sums(rows, b);
    lemma_credit(balances(rows, a)->Ok_0, (cur, -t.amount));
    lemma_credit(balances(rows, b)->Ok_0, (cur, t.amount as int));
}

impl Account {
    /// Adds an amount of money to a list of balances: to the entry for its
    /// currency, or as a new last entry when there is none. Refused, with the
    /// balances left as they were, when the new balance does not fit in 64
    /// bits.
    pub fn credit(balances: &mut Vec<(Currency, i64)>, change: Money) -> (r: Result<(), Error>)
        ensures
            match (r, credit(balances_view(old(balances)@), change@)) {
                (Ok(()), Ok(b)) => balances_view(final(balances)@) == b,
                (Err(e), Err(v)) => e@ == v && final(balances)@ == old(balances)@,
                _ => false,
            },
    {
        let ghost v = balances_view(balances@);
        match find_currency_index(balances, &change.currency) {
            None => {
                balances.push((change.currency, change.amount_minor));
                assert(balances_view(balances@) =~= v.push((change@.0, change@.1)));
                Ok(())
            },
            Some(i) => {
                let old_amount = balances[i].1;
                match old_amount.checked_add(change.amount_minor) {
                    None => Err(Error::BalanceOverflow),
                    Some(total) => {
                        balances.set(i, (change.currency, total));
                        assert(balances_view(balances@) =~= v.update(
                            i as int,
                            (change@.0, total as int),
                        ));
                        Ok(())
                    },
                }
            },
        }
    }

    /// The balances of this account after the given transactions: for each
    /// currency in which they change it, in the order in which the currencies
    /// first appear, the sum of the changes in minor units.
    pub fn funds(&self, transactions: &Vec<Transaction>) -> (r: Result<Vec<(Currency, i64)>, Error>)
        requires
            forall|i: int|
                0 <= i < transactions@.len() && row_negates(#[trigger] transactions@[i]@, self.id)
                    ==> transactions@[i].amount != i64::MIN,
        ensures
            match (r, balances(rows_view(transactions@), self.id)) {
                (Ok(v), Ok(b)) => balances_view(v@) == b,
                (Err(e), Err(x)) => e@ == x,
                _ => false,
            },
    {
        let ghost rows = rows_view(transactions@);
        let mut map: Vec<(Currency, i64)> = Vec::new();
        let n = transactions.len();
        let mut i: usize = 0;
        assert(rows.take(0) =~= Seq::<RowView>::empty());
        assert(balances_view(map@) =~= Seq::<(CurrencyView, int)>::empty());
        while i < n
            invariant
                n == transactions@.len(),
                rows == rows_view(transactions@),
                i <= n,
                balances(rows.take(i as int), self.id) == Ok::<Seq<(CurrencyView, int)>, ErrorView>(
                    balances_view(map@),
                ),
                forall|k: int|
                    0 <= k < transactions@.len() && row_negates(
                        #[trigger] transactions@[k]@,
                        self.id,
                    ) ==> transactions@[k].amount != i64::MIN,
            decreases n - i,
        {
            assert(rows.take(i + 1).drop_last() =~= rows.take(i as int));
            assert(rows.take(i + 1).last() == transactions@[i as int]@);
            let change = transactions[i].get_change(&self.id);
            match change {
                Err(e) => {
                    proof {
                        lemma_refusal_persists(rows, self.id, i + 1, n as int);
                        assert(rows.take(n as int) =~= rows);
                    }
                    return Err(e);
                },
                Ok(None) => {},
                Ok(Some(m)) => {
                    let credited = Account::credit(&mut map, m);
                    if let Err(e) = credited {
                        proof {
                            lemma_refusal_persists(rows, self.id, i + 1, n as int);
                            assert(rows.take(n as int) =~= rows);
                        }
                        return Err(e);
                    }
                },
            }
            i = i + 1;
        }
        assert(rows.take(n as int) =~= rows);
        Ok(map)
    }
}

/// An account opens with the password it was created with: `NewAccount::new`
/// stores a hash that Argon2 verifies against the password, and `open`
/// succeeds exactly when Argon2 verifies it.
pub proof fn lemma_opens_with_its_password(pw_hash: Seq<char>, password: Seq<char>)
    requires
        argon2_verify(pw_hash, password) == Some(true),
    ensures
        password_result(argon2_verify(pw_hash, password)) == Ok::<(), ErrorView>(()),
{
}

} // verus!
