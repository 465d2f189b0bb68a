use budget::decimal::Dec;
use budget::manager::biz::portfolio::gold::{grams_from_quantity, GoldUnit};

fn dec(s: &str) -> Dec {
    Dec::parse(s).unwrap()
}

#[test]
fn chi_to_grams() {
    let q = dec("1");
    assert_eq!(grams_from_quantity(q, GoldUnit::Chi), dec("3.75"));
}

#[test]
fn luong_to_grams() {
    let q = dec("1");
    assert_eq!(grams_from_quantity(q, GoldUnit::Luong), dec("37.5"));
}

#[test]
fn gram_passthrough() {
    let q = dec("12.345");
    assert_eq!(grams_from_quantity(q, GoldUnit::Gram), q);
}

#[test]
fn multiple_chi_to_grams() {
    let q = dec("10");
    let grams = grams_from_quantity(q, GoldUnit::Chi);
    assert_eq!(grams, dec("37.5"));
}

#[test]
fn db_round_trip() {
    for u in [GoldUnit::Chi, GoldUnit::Luong, GoldUnit::Gram] {
        assert_eq!(GoldUnit::from_db(u.to_db()), u);
    }
}

#[test]
fn db_unknown_defaults_gram() {
    assert_eq!(GoldUnit::from_db(""), GoldUnit::Gram);
    assert_eq!(GoldUnit::from_db("garbage"), GoldUnit::Gram);
}

#[test]
fn gold_unit_from_proto_numbers() {
    assert_eq!(GoldUnit::from_proto(1), Some(GoldUnit::Chi));
    assert_eq!(GoldUnit::from_proto(2), Some(GoldUnit::Luong));
    assert_eq!(GoldUnit::from_proto(3), Some(GoldUnit::Gram));
    assert_eq!(GoldUnit::from_proto(0), None);
    assert_eq!(GoldUnit::from_proto(7), None);
}

#[test]
fn fractional_luong_to_grams() {
    assert_eq!(grams_from_quantity(dec("0.2"), GoldUnit::Luong), dec("7.5"));
    assert_eq!(grams_from_quantity(dec("2.5"), GoldUnit::Chi), dec("9.375"));
}
