use budget::manager::biz::portfolio::money::Money;

#[test]
fn from_minor_round_trip() {
    assert_eq!(Money::from_minor(123).minor(), 123);
    assert_eq!(Money::from_minor(-456).minor(), -456);
}

#[test]
fn zero_constant() {
    assert_eq!(Money::zero().minor(), 0);
}

#[test]
fn checked_add_overflow_returns_none() {
    let max = Money::from_minor(i64::MAX);
    let one = Money::from_minor(1);
    assert!(max.checked_add(one).is_none());
    assert_eq!(max.saturating_sub(one).minor(), i64::MAX - 1);
}

#[test]
fn checked_sub_underflow_returns_none() {
    let min = Money::from_minor(i64::MIN);
    let one = Money::from_minor(1);
    assert!(min.checked_sub(one).is_none());
    assert_eq!(min.saturating_sub(one).minor(), i64::MIN);
}

#[test]
fn checked_sub_below_zero_succeeds() {
    let zero = Money::zero();
    let one = Money::from_minor(1);
    assert_eq!(zero.checked_sub(one).unwrap().minor(), -1);
}

#[test]
fn money_predicates() {
    assert!(Money::from_minor(1).is_positive());
    assert!(!Money::zero().is_positive());
    assert!(!Money::from_minor(-1).is_positive());

    assert!(Money::zero().is_non_negative());
    assert!(Money::from_minor(5).is_non_negative());
    assert!(!Money::from_minor(-1).is_non_negative());
}

#[test]
fn checked_add_in_range() {
    assert_eq!(Money::from_minor(40).checked_add(Money::from_minor(2)), Some(Money(42)));
    assert_eq!(Money::from_minor(i64::MAX).saturating_sub(Money::from_minor(-1)).minor(), i64::MAX);
}
