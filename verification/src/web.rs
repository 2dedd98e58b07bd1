//! The decisions of the bank's administration web pages: who may see them,
//! how a posted transaction form becomes a transaction, and what an account
//! page shows.
use vstd::prelude::*;
use crate::account::{Account, Owner, balances, balances_view, rows_view};
use crate::currency::{convert_map_to_money, generic_money_text, iso_currency_with_code};
use crate::error::{Error, ErrorView};
use crate::transaction::{NewTransaction, Transaction, TransactionType, type_of_code, row_negates};
use crate::clock::now_micros;

verus! {

/// The HTTP status 401, Unauthorized.
pub const STATUS_UNAUTHORIZED: u16 = 401;

/// The HTTP status 404, Not Found.
pub const STATUS_NOT_FOUND: u16 = 404;

/// The HTTP status 503, Service Unavailable.
pub const STATUS_SERVICE_UNAVAILABLE: u16 = 503;

/// The earliest time, in microseconds since the Unix epoch, that `chrono`
/// can represent: the start of year -262143.
pub const EARLIEST_MICROS: i64 = -8334601228800000000;

/// The latest time, in microseconds since the Unix epoch, that `chrono` can
/// represent: the end of year 262142.
pub const LATEST_MICROS: i64 = 8210266876799999999;

/// How a request guard answers: with a value, with a failure and its HTTP
/// status, or by passing the request on to the next route.
#[derive(Debug)]
pub enum Outcome<T, E> {
    Success(T),
    Failure(u16, E),
    Forward,
}

/// An administrator who has logged in.
#[derive(Clone, Copy, Debug, PartialEq, Eq, Structural)]
pub struct AdminUser;

/// The message given when no database connection can be had for a page.
pub open spec fn no_connection_message() -> Seq<char> {
    "Unable to get a connection to database"@
}

/// The message given when the session does not belong to an administrator.
pub open spec fn not_authorized_message() -> Seq<char> {
    "User is not authorized to access this page."@
}

/// Whether two strings hold the same text.
fn same_text(a: &str, b: &str) -> (r: bool)
    ensures
        r == (a@ == b@),
{
    let x = a.to_owned();
    let y = b.to_owned();
    x == y
}

/// What the pool of database connections answers when a page asks for a
/// connection: `pool` is how the pool itself was found, and `available`
/// whether it gave a connection.
pub fn connection_outcome(pool: Outcome<(), ()>, available: bool) -> (r: Outcome<(), ()>)
    ensures
        r == match pool {
            Outcome::Success(()) => if available {
                Outcome::Success(())
            } else {
                Outcome::Failure(STATUS_SERVICE_UNAVAILABLE, ())
            },
            Outcome::Failure(s, ()) => Outcome::<(), ()>::Failure(s, ()),
            Outcome::Forward => Outcome::Forward,
        },
{
    match pool {
        Outcome::Success(()) => if available {
            Outcome::Success(())
        } else {
            Outcome::Failure(STATUS_SERVICE_UNAVAILABLE, ())
        },
        Outcome::Failure(s, ()) => Outcome::Failure(s, ()),
        Outcome::Forward => Outcome::Forward,
    }
}

impl AdminUser {
    /// Whether a request comes from an administrator, from how a database
    /// connection was had for it and the value of its session's `admin_id`
    /// cookie: an administrator's session holds `1`; a session without the
    /// cookie passes the request on; any other value is refused.
    pub fn from_request(conn: Outcome<(), ()>, admin_id: Option<&str>) -> (r: Outcome<
        AdminUser,
        &'static str,
    >)
        ensures
            conn is Failure ==> (r matches Outcome::Failure(s, m) && s == STATUS_NOT_FOUND && m@
                == no_connection_message()),
            conn is Forward ==> r is Forward,
            conn is Success ==> match admin_id {
                None => r is Forward,
                Some(v) => if v@ == "1"@ {
                    r == Outcome::<AdminUser, &'static str>::Success(AdminUser)
                } else {
                    r matches Outcome::Failure(s, m) && s == STATUS_UNAUTHORIZED && m@
                        == not_authorized_message()
                },
            },
    {
        proof {
            reveal_strlit("Unable to get a connection to database");
            reveal_strlit("User is not authorized to access this page.");
        }
        match conn {
            Outcome::Success(()) => {},
            Outcome::Failure(_, ()) => {
                return Outcome::Failure(
                    STATUS_NOT_FOUND,
                    "Unable to get a connection to database",
                );
            },
            Outcome::Forward => {
                return Outcome::Forward;
            },
        }
        let admin = match admin_id {
            Some(v) => Some(same_text(v, "1")),
            None => None,
        };
        match admin {
            Some(true) => Outcome::Success(AdminUser),
            None => Outcome::Forward,
            _ => Outcome::Failure(STATUS_UNAUTHORIZED, "User is not authorized to access this page."),
        }
    }
}

/// The one administrator's user name.
pub open spec fn admin_username() -> Seq<char> {
    "admin"@
}

/// The one administrator's password.
pub open spec fn admin_password() -> Seq<char> {
    "hunter1"@
}

/// Whether a login form names the administrator: only then does the
/// session get the `admin_id` cookie with value `1`. Either way the browser
/// is sent to `/admin-panel`; a refused login carries the flash message
/// `Invalid login`.
pub fn admin_login(username: &str, password: &str) -> (r: bool)
    ensures
        r == (username@ == admin_username() && password@ == admin_password()),
{
    proof {
        reveal_strlit("admin");
        reveal_strlit("hunter1");
    }
    let name_ok = same_text(username, "admin");
    let password_ok = same_text(password, "hunter1");
    name_ok && password_ok
}

/// The number of microseconds since the Unix epoch at the start of the day
/// `y`-`m`-`d` of the proleptic Gregorian calendar, UTC.
pub open spec fn civil_micros(y: int, m: int, d: int) -> int {
    let y2 = if m <= 2 {
        y - 1
    } else {
        y
    };
    let era = y2 / 400;
    let yoe = y2 - era * 400;
    let mp = if m > 2 {
        m - 3
    } else {
        m + 9
    };
    let doy = (153 * mp + 2) / 5 + d - 1;
    let doe = yoe * 365 + yoe / 4 - yoe / 100 + doy;
    (era * 146097 + doe - 719468) * 86_400_000_000
}

/// The start of the day `year`-`month`-`day`, UTC, in microseconds since the
/// Unix epoch (`chrono::NaiveDate::from_ymd_opt`, at midnight), or `None`
/// where the date does not exist or lies outside `chrono`'s years -262143 to
/// 262142.
#[verifier::external_body]
fn day_start_micros(year: i32, month: u32, day: u32) -> (r: Option<i64>)
    ensures
        r matches Some(v) ==> v == civil_micros(year as int, month as int, day as int),
        -262143 <= year <= 262142 && 1 <= month <= 12 && 1 <= day <= 28 ==> r is Some,
{
    match chrono::NaiveDate::from_ymd_opt(year, month, day) {
        Some(d) => Some(d.and_time(chrono::NaiveTime::MIN).and_utc().timestamp_micros()),
        None => None,
    }
}

/// The time `offset` microseconds after the time `base`, both in
/// microseconds since the Unix epoch, UTC (`chrono::DateTime::<Utc>::
/// checked_add_signed` with `chrono::TimeDelta::microseconds`), or `None`
/// where either lies outside what `chrono` can represent.
#[verifier::external_body]
fn add_micros(base: i64, offset: i64) -> (r: Option<i64>)
    ensures
        r matches Some(v) ==> v == base + offset,
        EARLIEST_MICROS <= base <= LATEST_MICROS && EARLIEST_MICROS <= base + offset
            <= LATEST_MICROS ==> r is Some,
{
    match chrono::DateTime::<chrono::Utc>::from_timestamp_micros(base) {
        Some(t) => match t.checked_add_signed(chrono::TimeDelta::microseconds(offset)) {
            Some(u) => Some(u.timestamp_micros()),
            None => None,
        },
        None => None,
    }
}

/// The Postgres epoch, 2000-01-01 00:00 UTC, in microseconds since the Unix
/// epoch.
pub open spec fn pg_epoch_micros() -> int {
    civil_micros(2000, 1, 1)
}

/// The Postgres epoch, 2000-01-01 00:00 UTC, in microseconds since the Unix
/// epoch.
pub fn pg_epoch() -> (r: i64)
    ensures
        r == pg_epoch_micros(),
        r == 946_684_800_000_000,
{
    match day_start_micros(2000, 1, 1) {
        Some(v) => v,
        None => 0,
    }
}

/// The time `offset` microseconds after the Postgres epoch, as Postgres
/// stores times, in microseconds since the Unix epoch.
pub fn create_datetime_from_pg(offset: i64) -> (r: i64)
    requires
        EARLIEST_MICROS <= 946_684_800_000_000 + offset <= LATEST_MICROS,
    ensures
        r == 946_684_800_000_000 + offset,
{
    let epoch = pg_epoch();
    match add_micros(epoch, offset) {
        Some(v) => v,
        None => epoch,
    }
}

/// A transaction as the administration page posts it.
#[derive(Debug)]
pub struct NewTransactionFromForm {
    pub sender: u128,
    pub recipient: Option<u128>,
    pub trans_type: i32,
    pub amount: i64,
    pub currency: String,
    /// Microseconds after the Postgres epoch; none means now.
    pub date: Option<i64>,
}

impl NewTransaction {
    /// The transaction that a posted form describes: its type is given by
    /// number, and its date, when the form has one, in microseconds after
    /// the Postgres epoch; without one the transaction is dated now.
    pub fn from_form(trans: NewTransactionFromForm) -> (r: NewTransaction)
        requires
            type_of_code(trans.trans_type as int) is Some,
            trans.date matches Some(o) ==> EARLIEST_MICROS <= 946_684_800_000_000 + o
                <= LATEST_MICROS,
        ensures
            r.sender == trans.sender,
            r.recipient == trans.recipient,
            Some(r.trans_type) == type_of_code(trans.trans_type as int),
            r.amount == trans.amount,
            r.currency@ == trans.currency@,
            trans.date matches Some(o) ==> r.date == 946_684_800_000_000 + o,
            trans.date is None ==> r.date >= 0,
    {
        let now = now_micros();
        NewTransaction::from_form_at(trans, now)
    }

    /// The transaction that a posted form describes when it is posted at
    /// `now` (microseconds since the Unix epoch): dated as the form says, in
    /// microseconds after the Postgres epoch, or at `now` when the form has
    /// no date.
    pub fn from_form_at(trans: NewTransactionFromForm, now: i64) -> (r: NewTransaction)
        requires
            type_of_code(trans.trans_type as int) is Some,
            trans.date matches Some(o) ==> EARLIEST_MICROS <= 946_684_800_000_000 + o
                <= LATEST_MICROS,
        ensures
            r.sender == trans.sender,
            r.recipient == trans.recipient,
            Some(r.trans_type) == type_of_code(trans.trans_type as int),
            r.amount == trans.amount,
            r.currency@ == trans.currency@,
            r.date == match trans.date {
                Some(o) => 946_684_800_000_000 + o,
                None => now as int,
            },
    {
        let ty = TransactionType::from_i32(trans.trans_type).unwrap();
        let date = match trans.date {
            Some(offset) => create_datetime_from_pg(offset),
            None => now,
        };
        NewTransaction {
            sender: trans.sender,
            recipient: trans.recipient,
            trans_type: ty,
            amount: trans.amount,
            currency: trans.currency,
            date,
        }
    }
}

/// The query of an account page: the account's id.
#[derive(Debug)]
pub struct AccountQuery {
    pub id: u128,
}

/// What the page listing all accounts shows.
#[derive(Debug)]
pub struct TemplateContext {
    pub accounts: Vec<Account>,
}

/// A transaction as an account page shows it.
#[derive(Debug)]
pub struct TransactionOfUser {
    pub serial: i32,
    pub amount: String,
    pub trans_type: TransactionType,
    pub sender: u128,
    pub recipient: Option<u128>,
}

/// Whether `u` shows the transaction `t`: the same serial number, type and
/// accounts, and its amount rendered in its currency.
pub open spec fn shows(u: TransactionOfUser, t: Transaction) -> bool {
    &&& iso_currency_with_code(t.currency@) matches Some(c)
    &&& u.serial == t.serial
    &&& u.trans_type == t.trans_type
    &&& u.sender == t.sender
    &&& u.recipient == t.recipient
    &&& u.amount@ == generic_money_text(c.0, c.1, c.2, t.amount)
}

/// The transactions that can be shown: those whose currency is a standard
/// one, in order.
pub open spec fn showable(rows: Seq<Transaction>) -> Seq<Transaction> {
    rows.filter(|t: Transaction| iso_currency_with_code(t.currency@) is Some)
}

impl TransactionOfUser {
    /// How an account page shows a transaction, or why it cannot: its
    /// currency code names no standard currency.
    pub fn from_transaction(t: &Transaction) -> (r: Result<TransactionOfUser, Error>)
        ensures
            r matches Ok(u) ==> shows(u, *t),
            r matches Err(e) ==> iso_currency_with_code(t.currency@) is None && e@
                == ErrorView::InvalidCurrencyCode(t.currency@),
            r is Err <==> iso_currency_with_code(t.currency@) is None,
    {
        let money = match t.amount_as_money() {
            Ok(m) => m,
            Err(e) => return Err(e),
        };
        let amount = money.to_string();
        Ok(
            TransactionOfUser {
                serial: t.serial(),
                amount,
                trans_type: t.trans_type,
                sender: t.sender,
                recipient: t.recipient,
            },
        )
    }
}

/// How an account page shows the given transactions: those that can be
/// shown, in order; the others are left out.
pub fn user_transactions(rows: &Vec<Transaction>) -> (r: Vec<TransactionOfUser>)
    ensures
        r@.len() == showable(rows@).len(),
        forall|i: int| 0 <= i < r@.len() ==> shows(#[trigger] r@[i], showable(rows@)[i]),
{
    let mut out: Vec<TransactionOfUser> = Vec::new();
    let mut i: usize = 0;
    assert(rows@.take(0) =~= Seq::<Transaction>::empty());
    while i < rows.len()
        invariant
            i <= rows@.len(),
            out@.len() == showable(rows@.take(i as int)).len(),
            forall|k: int|
                0 <= k < out@.len() ==> shows(#[trigger] out@[k], showable(rows@.take(i as int))[k]),
        decreases rows@.len() - i,
    {
        proof {
            reveal_with_fuel(Seq::filter, 1);
            assert(rows@.take(i + 1).drop_last() =~= rows@.take(i as int));
        }
        match TransactionOfUser::from_transaction(&rows[i]) {
            Ok(u) => {
                out.push(u);
            },
            Err(_) => {},
        }
        i = i + 1;
    }
    assert(rows@.take(rows@.len() as int) =~= rows@);
    out
}

/// What an account page shows: the account's balances, each rendered as an
/// amount of money, the account, its transactions and its owner.
#[derive(Debug)]
pub struct AccountContext {
    pub funds: Vec<String>,
    pub account: Account,
    pub transactions: Vec<TransactionOfUser>,
    pub owner: Owner,
}

/// What the page listing all accounts in detail shows.
#[derive(Debug)]
pub struct AccountsContext {
    pub accounts: Vec<AccountContext>,
}

impl AccountContext {
    /// The page of `account`, owned by `owner`, given the transactions that
    /// concern it: fails where its balances cannot be had.
    pub fn new(account: Account, owner: Owner, rows: &Vec<Transaction>) -> (r: Result<
        AccountContext,
        Error,
    >)
        requires
            forall|i: int|
                0 <= i < rows@.len() && row_negates(#[trigger] rows@[i]@, account.id)
                    ==> rows@[i].amount != i64::MIN,
        ensures
            match (r, balances(rows_view(rows@), account.id)) {
                (Ok(ctx), Ok(b)) => {
                    &&& ctx.funds@.len() == b.len()
                    &&& forall|i: int|
                        0 <= i < b.len() ==> (#[trigger] ctx.funds@[i])@ == generic_money_text(
                            b[i].0.0,
                            b[i].0.1,
                            b[i].0.2,
                            b[i].1 as i64,
                        )
                    &&& ctx.account == account
                    &&& ctx.owner == owner
                    &&& ctx.transactions@.len() == showable(rows@).len()
                    &&& forall|i: int|
                        0 <= i < ctx.transactions@.len() ==> shows(
                            #[trigger] ctx.transactions@[i],
                            showable(rows@)[i],
                        )
                },
                (Err(e), Err(x)) => e@ == x,
                _ => false,
            },
    {
        let transactions = user_transactions(rows);
        let balances = match account.funds(rows) {
            Ok(b) => b,
            Err(e) => return Err(e),
        };
        let ghost bv = balances_view(balances@);
        let moneys = convert_map_to_money(balances);
        let mut funds: Vec<String> = Vec::new();
        let mut i: usize = 0;
        while i < moneys.len()
            invariant
                i <= moneys@.len(),
                moneys@.len() == bv.len(),
                forall|k: int| 0 <= k < bv.len() ==> #[trigger] moneys@[k]@ == bv[k],
                forall|k: int| 0 <= k < bv.len() ==> i64::MIN <= #[trigger] bv[k].1 <= i64::MAX,
                funds@.len() == i,
                forall|k: int|
                    0 <= k < i ==> (#[trigger] funds@[k])@ == generic_money_text(
                        bv[k].0.0,
                        bv[k].0.1,
                        bv[k].0.2,
                        bv[k].1 as i64,
                    ),
            decreases moneys@.len() - i,
        {
            funds.push(moneys[i].to_string());
            i = i + 1;
        }
        Ok(AccountContext { funds, account, transactions, owner })
    }
}

} // verus!
