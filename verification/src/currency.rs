//! Currencies and amounts of money, kept as plain values.
//!
//! A `Currency` is described the way ISO 4217 describes it: a three-letter
//! code, a numeric code below 1000 and a number of decimal places below 9.
//! A `Money` is an amount in the minor unit of its currency (cents for USD).
//! Looking up a currency by its code and rendering an amount as text are
//! done by the `steel_cent` crate.
use vstd::prelude::*;

verus! {

/// The abstract value of a currency: its code, its numeric code and its
/// number of decimal places.
pub type CurrencyView = (Seq<char>, u16, u8);

/// The abstract value of an amount of money: its currency and its amount in
/// minor units.
pub type MoneyView = (CurrencyView, int);

/// Whether `c` is a character `A` to `Z`.
pub open spec fn is_upper_letter(c: char) -> bool {
    'A' <= c && c <= 'Z'
}

/// Whether a currency value has the shape that ISO 4217 gives currencies:
/// three upper-case letters, a numeric code below 1000 and fewer than 9
/// decimal places.
pub open spec fn iso_shaped(v: CurrencyView) -> bool {
    &&& v.0.len() == 3
    &&& forall|i: int| 0 <= i < 3 ==> #[trigger] is_upper_letter(v.0[i])
    &&& v.1 < 1000
    &&& v.2 < 9
}

/// The currency that the standard currency table lists under `code`, if any
/// (`steel_cent::currency::with_code`).
pub uninterp spec fn iso_currency_with_code(code: Seq<char>) -> Option<CurrencyView>;

/// The text that `steel_cent` renders for an amount of money in its generic
/// style, given the currency's code, numeric code, decimal places and the
/// amount in minor units.
pub uninterp spec fn generic_money_text(
    code: Seq<char>,
    numeric_code: u16,
    decimal_places: u8,
    amount_minor: i64,
) -> Seq<char>;

/// Ten to the power `n`.
pub open spec fn pow10(n: nat) -> int
    decreases n,
{
    if n == 0 {
        1
    } else {
        10 * pow10((n - 1) as nat)
    }
}

/// A monetary currency: a three-letter code, a numeric code and a standard
/// number of decimal places.
#[derive(Debug)]
pub struct Currency {
    code: String,
    numeric_code: u16,
    decimal_places: u8,
}

impl View for Currency {
    type V = CurrencyView;

    closed spec fn view(&self) -> CurrencyView {
        (self.code@, self.numeric_code, self.decimal_places)
    }
}

impl Currency {
    #[verifier::type_invariant]
    spec fn well_formed(self) -> bool {
        iso_shaped(self@)
    }

    /// Creates a currency with the given three-letter code, numeric code and
    /// number of decimal places.
    pub fn new(code: &str, numeric_code: u16, decimal_places: u8) -> (r: Currency)
        requires
            iso_shaped((code@, numeric_code, decimal_places)),
        ensures
            r@ == (code@, numeric_code, decimal_places),
    {
        let s = code.to_owned();
        Currency { code: s, numeric_code, decimal_places }
    }

    /// The three-letter code.
    pub fn code(&self) -> (r: String)
        ensures
            r@ == self@.0,
    {
        self.code.clone()
    }

    /// The numeric code.
    pub fn numeric_code(&self) -> (r: u16)
        ensures
            r == self@.1,
    {
        self.numeric_code
    }

    /// The number of decimal places.
    pub fn decimal_places(&self) -> (r: u8)
        ensures
            r == self@.2,
    {
        self.decimal_places
    }

    /// Whether two currencies are the same currency.
    pub fn same(&self, other: &Currency) -> (r: bool)
        ensures
            r == (self@ == other@),
    {
        let same_code = self.code == other.code;
        same_code && self.numeric_code == other.numeric_code && self.decimal_places
            == other.decimal_places
    }

    /// A copy of this currency.
    pub fn duplicate(&self) -> (r: Currency)
        ensures
            r@ == self@,
    {
        proof {
            use_type_invariant(self);
        }
        Currency {
            code: self.code.clone(),
            numeric_code: self.numeric_code,
            decimal_places: self.decimal_places,
        }
    }

    /// The number of minor units in one major unit.
    pub fn multiplier(&self) -> (r: i64)
        ensures
            r == pow10(self@.2 as nat),
            1 <= r <= 100_000_000,
    {
        proof {
            use_type_invariant(self);
        }
        let mut r: i64 = 1;
        let mut i: u8 = 0;
        proof {
            reveal_with_fuel(pow10, 9);
            lemma_pow10_mono(0, 8);
        }
        while i < self.decimal_places
            invariant
                i <= self.decimal_places,
                self.decimal_places < 9,
                r == pow10(i as nat),
                pow10(8) == 100_000_000,
            decreases self.decimal_places - i,
        {
            proof {
                lemma_pow10_mono((i + 1) as nat, 8);
            }
            r = r * 10;
            i = i + 1;
        }
        proof {
            lemma_pow10_mono(i as nat, 8);
        }
        r
    }
}

/// Powers of ten grow with the exponent.
pub proof fn lemma_pow10_mono(a: nat, b: nat)
    requires
        a <= b,
    ensures
        1 <= pow10(a) <= pow10(b),
    decreases b,
{
    if a < b {
        lemma_pow10_mono(a, (b - 1) as nat);
    } else if b > 0 {
        lemma_pow10_mono(0, (b - 1) as nat);
    }
}

/// Looks up a standard currency by its three-letter code
/// (`steel_cent::currency::with_code`). The table is keyed by each
/// currency's own code, so a currency that is found has the code that was
/// looked up; every currency in it has three upper-case letters, a numeric
/// code below 1000 and at most 3 decimal places.
#[verifier::external_body]
pub fn with_code(code: &str) -> (r: Option<Currency>)
    ensures
        r matches Some(c) ==> Some(c@) == iso_currency_with_code(code@) && c@.0 == code@,
        r is None ==> iso_currency_with_code(code@) is None,
{
    match steel_cent::currency::with_code(code) {
        Some(c) => Some(
            Currency {
                code: c.code(),
                numeric_code: c.numeric_code(),
                decimal_places: c.decimal_places(),
            },
        ),
        None => None,
    }
}

/// Whether `v` is the entry that the standard currency table lists under
/// `v`'s own code.
pub open spec fn is_standard(v: CurrencyView) -> bool {
    iso_currency_with_code(v.0) == Some(v)
}

/// A signed amount of money in a certain currency, in the currency's minor
/// unit.
#[derive(Debug)]
pub struct Money {
    pub currency: Currency,
    pub amount_minor: i64,
}

impl View for Money {
    type V = MoneyView;

    open spec fn view(&self) -> MoneyView {
        (self.currency@, self.amount_minor as int)
    }
}

impl Money {
    /// Creates an amount of money from its minor unit (cents for USD).
    pub fn of_minor(currency: Currency, amount_minor: i64) -> (r: Money)
        ensures
            r@ == (currency@, amount_minor as int),
    {
        Money { currency, amount_minor }
    }

    /// Creates an amount of money from its major unit (dollars for USD).
    pub fn of_major(currency: Currency, amount_major: i64) -> (r: Money)
        requires
            i64::MIN <= amount_major * pow10(currency@.2 as nat) <= i64::MAX,
        ensures
            r@ == (currency@, amount_major * pow10(currency@.2 as nat)),
    {
        let m = currency.multiplier();
        let amount = amount_major * m;
        Money { currency, amount_minor: amount }
    }

    /// The amount in the currency's minor unit.
    pub fn minor_amount(&self) -> (r: i64)
        ensures
            r == self@.1,
    {
        self.amount_minor
    }

    /// A copy of this amount.
    pub fn duplicate(&self) -> (r: Money)
        ensures
            r@ == self@,
    {
        Money { currency: self.currency.duplicate(), amount_minor: self.amount_minor }
    }

    /// The negated amount, or `None` for the minimum value, which cannot be
    /// negated.
    pub fn checked_neg(self) -> (r: Option<Money>)
        ensures
            self@.1 == i64::MIN ==> r is None,
            self@.1 != i64::MIN ==> (r matches Some(m) && m@ == (self@.0, -self@.1)),
    {
        if self.amount_minor == i64::MIN {
            None
        } else {
            Some(Money { currency: self.currency, amount_minor: -self.amount_minor })
        }
    }

    /// The amount rendered in `steel_cent`'s generic style, such as
    /// `1,234.56\u{a0}GBP`.
    pub fn to_string(&self) -> (r: String)
        ensures
            r@ == generic_money_text(self@.0.0, self@.0.1, self@.0.2, self@.1 as i64),
    {
        proof {
            use_type_invariant(&self.currency);
        }
        render_money(self.currency.code.as_str(), self.currency.numeric_code,
            self.currency.decimal_places, self.amount_minor)
    }
}

/// Renders an amount with `steel_cent`'s `Display` for `Money`, which uses its
/// generic style. The currency is rebuilt with `Currency::new`, which panics
/// unless the code is three upper-case letters, the numeric code is below
/// 1000 and there are fewer than 9 decimal places.
#[verifier::external_body]
fn render_money(code: &str, numeric_code: u16, decimal_places: u8, amount_minor: i64) -> (r:
    String)
    requires
        iso_shaped((code@, numeric_code, decimal_places)),
    ensures
        r@ == generic_money_text(code@, numeric_code, decimal_places, amount_minor),
{
    let c = steel_cent::currency::Currency::new(code, numeric_code, decimal_places);
    format!("{}", steel_cent::Money::of_minor(c, amount_minor))
}

/// Turns a list of balances, one per currency, into amounts of money, in the
/// same order.
pub fn convert_map_to_money(map: Vec<(Currency, i64)>) -> (r: Vec<Money>)
    ensures
        r@.len() == map@.len(),
        forall|i: int| 0 <= i < map@.len() ==> #[trigger] r@[i]@ == (map@[i].0@, map@[i].1 as int),
{
    let mut out: Vec<Money> = Vec::new();
    let mut rest = map;
    let ghost orig = rest@;
    // Walk the list from its end so that each entry can be moved out.
    let mut rev: Vec<Money> = Vec::new();
    while rest.len() > 0
        invariant
            rest@ == orig.take(rest@.len() as int),
            rest@.len() + rev@.len() == orig.len(),
            forall|j: int|
                0 <= j < rev@.len() ==> #[trigger] rev@[j]@ == (orig[orig.len() - 1 - j].0@,
                    orig[orig.len() - 1 - j].1 as int),
        decreases rest@.len(),
    {
        let (c, a) = rest.pop().unwrap();
        rev.push(Money::of_minor(c, a));
    }
    while rev.len() > 0
        invariant
            out@.len() + rev@.len() == orig.len(),
            forall|j: int|
                0 <= j < rev@.len() ==> #[trigger] rev@[j]@ == (orig[orig.len() - 1 - j].0@,
                    orig[orig.len() - 1 - j].1 as int),
            forall|j: int|
                0 <= j < out@.len() ==> #[trigger] out@[j]@ == (orig[j].0@, orig[j].1 as int),
        decreases rev@.len(),
    {
        let m = rev.pop().unwrap();
        out.push(m);
    }
    out
}

} // verus!
