use atm::currency::{convert_map_to_money, with_code, Currency, Money};

#[test]
fn looks_up_standard_currencies() {
    let usd = with_code("USD").unwrap();
    assert_eq!(usd.code(), "USD");
    assert_eq!(usd.numeric_code(), 840);
    assert_eq!(usd.decimal_places(), 2);
    let gbp = with_code("GBP").unwrap();
    assert_eq!(gbp.numeric_code(), 826);
    assert!(with_code("WRONG").is_none());
    assert!(with_code("usd").is_none());
}

#[test]
fn currencies_compare_by_value() {
    let a = with_code("SEK").unwrap();
    let b = Currency::new("SEK", 752, 2);
    assert!(a.same(&b));
    assert!(!a.same(&Currency::new("SEK", 752, 3)));
    assert!(!a.same(&with_code("NOK").unwrap()));
    assert!(a.same(&a.duplicate()));
}

#[test]
fn major_amounts_scale_by_decimal_places() {
    assert_eq!(Money::of_major(with_code("USD").unwrap(), 2).minor_amount(), 200);
    assert_eq!(Money::of_major(with_code("JPY").unwrap(), 100).minor_amount(), 100);
    assert_eq!(Money::of_major(with_code("BHD").unwrap(), 1).minor_amount(), 1000);
    assert_eq!(with_code("USD").unwrap().multiplier(), 100);
}

#[test]
fn negation_of_money() {
    let c = Money::of_major(with_code("USD").unwrap(), 1);
    assert_eq!(c.checked_neg().unwrap().minor_amount(), -100);
    assert!(Money::of_minor(with_code("USD").unwrap(), i64::MIN).checked_neg().is_none());
}

#[test]
fn money_renders_in_generic_style() {
    let m = Money::of_minor(with_code("GBP").unwrap(), 123456);
    assert_eq!(m.to_string(), "1,234.56\u{a0}GBP");
    let n = Money::of_minor(with_code("SEK").unwrap(), -20000);
    assert_eq!(n.to_string(), "-200.00\u{a0}SEK");
}

#[test]
fn balances_become_money_in_order() {
    let list = vec![(with_code("SEK").unwrap(), 20000), (with_code("ISK").unwrap(), -40)];
    let money = convert_map_to_money(list);
    assert_eq!(money.len(), 2);
    assert_eq!(money[0].currency.code(), "SEK");
    assert_eq!(money[0].minor_amount(), 20000);
    assert_eq!(money[1].currency.code(), "ISK");
    assert_eq!(money[1].minor_amount(), -40);
    assert!(convert_map_to_money(Vec::new()).is_empty());
}
