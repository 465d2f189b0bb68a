use budget::decimal::Dec;
use budget::text::{int_to_text, lower_eq, str_eq, trimmed_len_capped};

#[test]
fn integers_as_text() {
    assert_eq!(int_to_text(0), "0");
    assert_eq!(int_to_text(-45), "-45");
    assert_eq!(int_to_text(1_700_000_000), "1700000000");
    assert_eq!(int_to_text(i64::MIN), "-9223372036854775808");
    assert_eq!(int_to_text(i64::MAX), "9223372036854775807");
}

#[test]
fn string_helpers() {
    assert!(str_eq("abc", "abc"));
    assert!(!str_eq("abc", "abd"));
    assert!(lower_eq("VN30", "vn30"));
    assert!(!lower_eq("vn3", "vn30"));
    assert_eq!(trimmed_len_capped("  ab  ", 10), (false, 2));
    assert_eq!(trimmed_len_capped(" \t\n ", 10), (true, 0));
    assert_eq!(trimmed_len_capped("abcdef", 3), (false, 4));
}

#[test]
fn decimals_round_trip_and_compare() {
    let a = Dec::parse("1.50").unwrap();
    let b = Dec::parse("1.5").unwrap();
    assert_eq!(a, b);
    assert_eq!(a.to_text(), "1.50");
    assert!(Dec::parse("-0.25").unwrap().lt(&Dec::zero()));
    assert_eq!(Dec::from_i64(7).checked_mul(&a).unwrap(), Dec::parse("10.5").unwrap());
    assert_eq!(Dec::parse("2.5").unwrap().round_dp0().to_i64(), Some(2));
    assert_eq!(Dec::parse("3.5").unwrap().round_dp0().to_i64(), Some(4));
    assert!(Dec::parse("abc").is_none());
    assert!(Dec::from_i64(1).checked_div(&Dec::zero()).is_none());
}
