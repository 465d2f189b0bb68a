use budget::converters::requests::{
    i32_auto_renewal_to_db, i32_exchange_to_db, i32_form_to_db, i32_method_to_db,
    i32_payout_to_db, i32_price_side_to_db, i32_purity_to_db, parse_gold_unit,
};
use budget::manager::biz::portfolio::gold::GoldUnit;

#[test]
fn request_enums_store_their_text_or_the_default() {
    assert_eq!(i32_method_to_db(2), "compound");
    assert_eq!(i32_method_to_db(1), "simple");
    assert_eq!(i32_method_to_db(0), "simple");
    assert_eq!(i32_method_to_db(99), "simple");

    assert_eq!(i32_payout_to_db(2), "monthly");
    assert_eq!(i32_payout_to_db(3), "quarterly");
    assert_eq!(i32_payout_to_db(4), "on_demand");
    assert_eq!(i32_payout_to_db(0), "at_maturity");
    assert_eq!(i32_payout_to_db(-1), "at_maturity");

    assert_eq!(i32_auto_renewal_to_db(2), "principal_only");
    assert_eq!(i32_auto_renewal_to_db(3), "principal_and_interest");
    assert_eq!(i32_auto_renewal_to_db(1), "none");
    assert_eq!(i32_auto_renewal_to_db(7), "none");

    assert_eq!(i32_purity_to_db(1), "sjc_9999");
    assert_eq!(i32_purity_to_db(2), "pnj_999");
    assert_eq!(i32_purity_to_db(3), "pnj_995");
    assert_eq!(i32_purity_to_db(4), "doji_9999");
    assert_eq!(i32_purity_to_db(0), "other");

    assert_eq!(i32_form_to_db(1), "bar");
    assert_eq!(i32_form_to_db(2), "ring");
    assert_eq!(i32_form_to_db(3), "coin");
    assert_eq!(i32_form_to_db(4), "jewelry");
    assert_eq!(i32_form_to_db(42), "other");

    assert_eq!(parse_gold_unit(1), GoldUnit::Chi);
    assert_eq!(parse_gold_unit(2), GoldUnit::Luong);
    assert_eq!(parse_gold_unit(3), GoldUnit::Gram);
    assert_eq!(parse_gold_unit(0), GoldUnit::Gram);

    assert_eq!(i32_exchange_to_db(1), "HOSE");
    assert_eq!(i32_exchange_to_db(2), "HNX");
    assert_eq!(i32_exchange_to_db(3), "UPCOM");
    assert_eq!(i32_exchange_to_db(0), "HOSE");

    assert_eq!(i32_price_side_to_db(1), "bid");
    assert_eq!(i32_price_side_to_db(2), "ask");
    assert_eq!(i32_price_side_to_db(3), "mid");
    assert_eq!(i32_price_side_to_db(9), "mid");
}
