use budget::manager::biz::portfolio::{AssetClass, AssetStatus, PriceFreshness, PriceSide};

#[test]
fn asset_class_round_trip() {
    for c in [
        AssetClass::SavingsAccount,
        AssetClass::FixedDeposit,
        AssetClass::GoldLot,
        AssetClass::StockLot,
    ] {
        assert_eq!(AssetClass::from_proto(c.to_proto()), Some(c));
    }
}

#[test]
fn asset_class_unknown_proto_returns_none() {
    assert_eq!(AssetClass::from_proto(9999), None);
    assert_eq!(AssetClass::from_proto(0), None); // UNSPECIFIED
}

#[test]
fn asset_status_db_round_trip() {
    for s in [
        AssetStatus::Active,
        AssetStatus::Closed,
        AssetStatus::Matured,
        AssetStatus::Sold,
        AssetStatus::Archived,
        AssetStatus::RolledOver,
        AssetStatus::Withdrawn,
        AssetStatus::EarlyClosed,
    ] {
        assert_eq!(AssetStatus::from_db(s.to_db()), s);
    }
}

#[test]
fn asset_status_unknown_db_defaults_active() {
    assert_eq!(AssetStatus::from_db(""), AssetStatus::Active);
    assert_eq!(AssetStatus::from_db("garbage"), AssetStatus::Active);
}

#[test]
fn price_freshness_age_thresholds() {
    let day = 24 * 60 * 60;
    assert_eq!(PriceFreshness::from_age_seconds(0, true), PriceFreshness::Fresh);
    assert_eq!(PriceFreshness::from_age_seconds(7 * day, true), PriceFreshness::Fresh);
    assert_eq!(PriceFreshness::from_age_seconds(7 * day + 1, true), PriceFreshness::Stale);
    assert_eq!(PriceFreshness::from_age_seconds(0, false), PriceFreshness::Unpriced);
}

#[test]
fn asset_class_text_and_price_side_codec() {
    assert_eq!(AssetClass::GoldLot.as_str(), "gold_lot");
    assert_eq!(AssetStatus::RolledOver.as_str(), "rolled_over");
    for s in [PriceSide::Bid, PriceSide::Ask, PriceSide::Mid] {
        assert_eq!(PriceSide::from_db(s.to_db()), s);
    }
    assert_eq!(PriceSide::from_db("nonsense"), PriceSide::Mid);
    assert_eq!(PriceFreshness::Unpriced.code(), 2);
}
