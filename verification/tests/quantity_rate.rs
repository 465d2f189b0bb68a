use budget::decimal::Dec;
use budget::manager::biz::portfolio::quantity::Quantity;
use budget::manager::biz::portfolio::rate::Rate;

fn dec(s: &str) -> Dec {
    Dec::parse(s).unwrap()
}

#[test]
fn from_decimal_round_trip() {
    let q = Quantity::from_decimal(dec("1.5"));
    assert_eq!(q.decimal(), dec("1.5"));
}

#[test]
fn quantity_parse_round_trip() {
    let q = Quantity::parse("37.5").unwrap();
    assert_eq!(q.decimal(), dec("37.5"));
}

#[test]
fn quantity_predicates() {
    assert!(Quantity::from_decimal(dec("0.00000001")).is_positive());
    assert!(Quantity::zero().is_zero());
    assert!(!Quantity::from_decimal(dec("-1")).is_positive());
}

#[test]
fn checked_sub_handles_underflow_at_zero() {
    let a = Quantity::from_decimal(Dec::zero());
    let b = Quantity::from_decimal(dec("2"));
    assert_eq!(a.checked_sub(b).unwrap().decimal(), dec("-2"));
}

#[test]
fn from_fraction_round_trip() {
    let r = Rate::from_fraction(dec("0.055"));
    assert_eq!(r.fraction(), dec("0.055"));
}

#[test]
fn from_percent_converts_correctly() {
    let r = Rate::from_percent(dec("5.5"));
    assert_eq!(r.fraction(), dec("0.055"));
    assert_eq!(r.percent(), dec("5.5"));
}

#[test]
fn rate_parse_round_trip() {
    let r = Rate::parse("0.055").unwrap();
    assert_eq!(r.fraction(), dec("0.055"));
}

#[test]
fn parse_rejects_invalid() {
    assert!(Rate::parse("not a number").is_err());
}

#[test]
fn parse_errors_carry_the_text() {
    let e = Quantity::parse("abc").unwrap_err();
    assert_eq!(e.0, "abc");
    assert_eq!(e.message(), "invalid quantity string: abc");
    let e = Rate::parse("x%").unwrap_err();
    assert_eq!(e.message(), "invalid rate string: x%");
}

#[test]
fn display_and_equality_by_value() {
    assert_eq!(Quantity::from_grams(dec("3.750")).to_display_string(), "3.750");
    assert_eq!(Quantity::from_decimal(dec("1.50")), Quantity::from_decimal(dec("1.5")));
    assert_eq!(Rate::zero(), Rate::from_fraction(dec("0.00")));
    assert_eq!(Rate::from_percent(Dec::zero()).fraction(), Dec::zero());
}
