use budget::converters::portfolio::{
    DbFixedDeposit, DbGoldLot, DbPortfolioAsset, AssetClassNew,
};
use budget::manager::biz::portfolio::maturity::{maturity_activity_payload, maturity_event, maturity_transition};
use budget::manager::biz::portfolio::providers::{NoopProvider, ProviderFlags, ProviderPrice};
use budget::manager::biz::portfolio::refresh::{
    asset_for_refresh, build_registry, convert_price_side, currency_for, new_observation_for,
};
use budget::manager::biz::portfolio::rollover::{
    asset_class_to_db, check_rollover_status, map_crypto_network_to_db, map_underlying_index_to_db,
    rolled_over_payload, rollover_created_payload, rollover_rows, validate_rollover, ChainStep,
    ChainWalk, RolloverTerms,
};
use budget::manager::biz::portfolio::snapshot::{check_unit_price, new_manual_observation};
use budget::manager::biz::portfolio::transfers::{
    build_new_transfer, transfer_completed_payload, transfer_initiated_payload,
    transfer_roles_allowed, validate_transfer,
};
use budget::manager::biz::portfolio::{AssetStatus, PriceSide};
use budget::manager::repository::fx_rates::{DbFxRate, FxRateService};
use budget::manager::validate;
use budget::pb::service::budget::{BudgetRole, BudgetType};
use budget::pb::service::portfolio::{CryptoNetwork, EtfUnderlyingIndex, PortfolioAssetDetails, TransferStatus};
use budget::status::Code;

fn asset(id: &str, class: &str, currency: &str) -> DbPortfolioAsset {
    DbPortfolioAsset {
        id: id.into(),
        budget_id: "b1".into(),
        asset_class: class.into(),
        display_name: "Old".into(),
        currency: currency.into(),
        status: "active".into(),
        opened_on: 0,
        closed_on: None,
        legacy_asset_id: None,
        notes: None,
        created_by: "u1".into(),
        created_at: 1,
        updated_at: 1,
        deleted_at: None,
    }
}

fn fx(from: &str, to: &str, rate: i64) -> DbFxRate {
    DbFxRate {
        id: "x".into(),
        from_currency: from.into(),
        to_currency: to.into(),
        rate,
        effective_date: "2024-01-01".into(),
        created_at: 0,
        updated_at: 0,
        deleted_at: None,
    }
}

#[test]
fn fx_convert_direct_inverse_and_missing() {
    let svc = FxRateService::from_rows(&[fx("VND", "USD", 25_000), fx("VND", "USD", 1), fx("EUR", "USD", 2)]);
    assert_eq!(svc.convert(750_000_000, "VND", "USD"), 30_000);
    assert_eq!(svc.convert(100, "USD", "VND"), 2_500_000);
    assert_eq!(svc.convert(55, "VND", "VND"), 55);
    assert_eq!(svc.convert(55, "JPY", "VND"), 55);
    assert_eq!(svc.convert(-7, "EUR", "USD"), -3);
}

#[test]
fn validation_rules() {
    assert_eq!(validate::budget_name("   ").unwrap_err().message, "Budget name must not be empty");
    assert!(validate::budget_name("  Food  ").is_ok());
    assert!(validate::budget_name(&"a".repeat(255)).is_ok());
    assert_eq!(
        validate::budget_name(&"a".repeat(256)).unwrap_err().message,
        "Budget name must be 255 characters or fewer"
    );
    // 128 two-byte characters exceed 255 bytes.
    assert!(validate::budget_name(&"é".repeat(128)).is_err());
    assert_eq!(validate::currency("").unwrap_err().message, "Currency must not be empty");
    assert!(validate::currency(" VND ").is_ok());
    assert_eq!(
        validate::currency("ABCDEFGHI").unwrap_err().message,
        "Currency code must be 8 characters or fewer"
    );
    assert_eq!(validate::budget_type(2).unwrap(), BudgetType::Saving);
    assert_eq!(validate::budget_type(42).unwrap_err().message, "Unknown budget type");
    assert_eq!(validate::budget_role(1).unwrap(), BudgetRole::Owner);
    assert_eq!(validate::budget_role(-1).unwrap_err().message, "Unknown budget role");
    assert!(validate::rollover_policy(9).is_err());
    assert!(validate::envelope_limit(0).is_ok());
    assert_eq!(validate::envelope_limit(-1).unwrap_err().code, Code::InvalidArgument);
    assert_eq!(validate::user_id_from_metadata(Some("u1")).unwrap(), "u1");
    assert_eq!(validate::user_id_from_metadata(Some("")).unwrap_err().code, Code::Unauthenticated);
    assert_eq!(validate::user_id_from_metadata(None).unwrap_err().message, "missing x-user-id metadata");
}

#[test]
fn transfer_rules_and_rows() {
    assert_eq!(validate_transfer(0, "a", "b").unwrap_err().message, "amount must be > 0");
    assert_eq!(validate_transfer(5, "a", "a").unwrap_err().message, "source and counterparty must differ");
    assert!(validate_transfer(5, "a", "b").is_ok());
    assert!(transfer_roles_allowed(&[Some(BudgetRole::Owner), Some(BudgetRole::Manager)]));
    assert!(!transfer_roles_allowed(&[Some(BudgetRole::Owner), Some(BudgetRole::Contributor)]));
    assert!(!transfer_roles_allowed(&[Some(BudgetRole::Contributor), Some(BudgetRole::Contributor)]));
    assert!(!transfer_roles_allowed(&[Some(BudgetRole::Owner), Some(BudgetRole::Viewer)]));
    assert!(!transfer_roles_allowed(&[None]));
    let t = build_new_transfer("t1", "u1", "s", "c", 1, 500, "VND", "", "", 99);
    assert_eq!(t.group_id, "t1");
    assert_eq!(t.status, TransferStatus::Completed.code());
    assert_eq!(t.completed_at, Some(99));
    assert_eq!(t.notes, None);
    assert_eq!(
        transfer_initiated_payload("c", 500, "VND"),
        r#"{"counterparty":"c","amount":500,"currency":"VND"}"#
    );
    assert_eq!(
        transfer_completed_payload("c", -5),
        r#"{"counterparty":"c","amount":-5,"status":"completed"}"#
    );
}

#[test]
fn rollover_rules() {
    assert_eq!(validate_rollover("", "a", 10, 1, 5, rate("0.05")).unwrap_err().message, "budget_id and asset_id are required");
    assert_eq!(validate_rollover("b", "a", 1, 1, 5, rate("0.05")).unwrap_err().message, "new_maturity_date must be in the future");
    assert_eq!(validate_rollover("b", "a", 10, 1, -1, rate("0.05")).unwrap_err().message, "new_principal must be >= 0");
    assert!(validate_rollover("b", "a", 10, 1, 0, rate("0.05")).is_ok());
    assert!(validate_rollover("b", "a", 10, 1, 5, rate("0.05")).is_ok());
    assert!(validate_rollover("b", "a", 10, 1, 5, rate("0")).is_ok());
    assert_eq!(
        validate_rollover("b", "a", 10, 1, 5, rate("-0.01")).unwrap_err().message,
        "new_annual_rate must be >= 0"
    );
    assert_eq!(check_rollover_status("active").unwrap(), AssetStatus::RolledOver);
    let e = check_rollover_status("matured").unwrap_err();
    assert_eq!(e.code, Code::FailedPrecondition);
    assert_eq!(e.message, "asset is in matured state; only active assets can be rolled over");
    assert_eq!(map_underlying_index_to_db(EtfUnderlyingIndex::Vn100.code()), "vn100");
    assert_eq!(map_underlying_index_to_db(0), "other");
    assert_eq!(map_underlying_index_to_db(77), "other");
    assert_eq!(map_crypto_network_to_db(CryptoNetwork::BnbChain.code()), "bnb_chain");
    assert_eq!(map_crypto_network_to_db(-3), "other");
    assert_eq!(asset_class_to_db(&AssetClassNew::EtfLot), "etf_lot");
    assert_eq!(rolled_over_payload("n1", 200), r#"{"new_asset_id":"n1","new_maturity_date":200}"#);
    assert_eq!(rollover_created_payload("a1", 1000), r#"{"rollover_from":"a1","principal":1000}"#);
}

#[test]
fn rollover_chain_walk() {
    let (mut walk, step) = ChainWalk::start("a");
    assert!(matches!(step, ChainStep::Lookup(ref id) if id == "a"));
    assert!(matches!(walk.on_parent(Some("b".into())), ChainStep::Lookup(ref id) if id == "b"));
    match walk.on_parent(Some("a".into())) {
        ChainStep::Done(Err(s)) => assert_eq!(s.message, "rollover chain depth cycle detected at depth 2; refusing to roll over"),
        other => panic!("unexpected: {other:?}"),
    }
    let (mut walk, _) = ChainWalk::start("a");
    assert!(matches!(walk.on_parent(None), ChainStep::Done(Ok(()))));
    let (mut walk, _) = ChainWalk::start("x0");
    for id in ["x1", "x2", "x3", "x4"] {
        assert!(matches!(walk.on_parent(Some(id.into())), ChainStep::Lookup(_)));
    }
    match walk.on_parent(Some("x5".into())) {
        ChainStep::Done(Err(s)) => assert_eq!(s.message, "rollover chain depth exceeds 5; refusing to roll over"),
        other => panic!("unexpected: {other:?}"),
    }
}

#[test]
fn rollover_rows_inherit_the_old_deposit() {
    let existing = asset("a1", "fixed_deposit", "VND");
    let old_fd = DbFixedDeposit {
        asset_id: "a1".into(),
        provider: "bank".into(),
        product_name: "12M".into(),
        principal: 10,
        annual_rate: "0.05".into(),
        interest_method: "compound".into(),
        payout_type: "monthly".into(),
        deposit_date: 0,
        maturity_date: 100,
        auto_renewal_policy: "principal_only".into(),
        rollover_from_asset_id: None,
        certificate_reference_masked: Some("***9".into()),
        notes: None,
    };
    let terms = RolloverTerms {
        asset_id: "a1".into(),
        new_display_name: String::new(),
        new_principal: 20,
        new_annual_rate: "0.06".into(),
        new_maturity_date: 500,
    };
    let (a, fd, row) = rollover_rows("n1", 77, &terms, &existing, &old_fd);
    assert_eq!(a.display_name, "Old");
    assert_eq!(a.notes.as_deref(), Some("Rollover from a1"));
    assert_eq!(fd.interest_method, "compound");
    assert_eq!(fd.rollover_from_asset_id.as_deref(), Some("a1"));
    assert_eq!(fd.principal, 20);
    let keep = RolloverTerms { new_principal: 0, ..terms };
    let (_, fd0, _) = rollover_rows("n2", 77, &keep, &existing, &old_fd);
    assert_eq!(fd0.principal, 10);
    assert_eq!(row.status, "active");
    assert_eq!(row.asset_class, "fixed_deposit");
    assert_eq!(row.created_at, 77);
}

#[test]
fn maturity_and_snapshot_rules() {
    assert_eq!(maturity_transition("active"), Some(AssetStatus::Matured));
    assert_eq!(maturity_transition("rolled_over"), None);
    assert_eq!(maturity_activity_payload(86_400), r#"{"maturity_date":86400}"#);
    let e = maturity_event("e1", "a1", "b1", 5, 6);
    assert_eq!(e.event_type, "MATURITY_REACHED");
    assert_eq!(e.payload_json, r#"{"asset_id":"a1","budget_id":"b1","maturity_date":5}"#);
    assert_eq!(check_unit_price(-1).unwrap_err().message, "unit_price must be >= 0");
    assert!(check_unit_price(0).is_ok());
    let o = new_manual_observation("a1", "", "bid", 10, "VND", 0, "", Some(""), None, 1234);
    assert_eq!(o.provider, "manual");
    assert_eq!(o.price_side, PriceSide::Bid);
    assert_eq!(o.observed_at, 1234);
    assert_eq!(o.idempotency_key, None);
    let o = new_manual_observation("a1", "sjc", "weird", 10, "VND", 55, "ref", Some("k"), Some("n"), 1234);
    assert_eq!(o.provider, "sjc");
    assert_eq!(o.price_side, PriceSide::Mid);
    assert_eq!(o.observed_at, 55);
    assert_eq!(o.idempotency_key.as_deref(), Some("k"));
}

#[test]
fn refresh_builds_observations() {
    let assets = vec![asset("a1", "gold_lot", "USD"), asset("a2", "stock_lot", "VND")];
    assert_eq!(currency_for(&assets, "a1"), "USD");
    assert_eq!(currency_for(&assets, "zz"), "VND");
    assert_eq!(convert_price_side("ask"), PriceSide::Ask);
    let price = ProviderPrice {
        asset_id: "a1".into(),
        provider: "sjc".into(),
        unit_price: 900,
        price_side: "bid",
        source_reference: "src".into(),
        notes: String::new(),
    };
    let obs = new_observation_for(&price, &assets, 1_700_000_000);
    assert_eq!(obs.currency, "USD");
    assert_eq!(obs.idempotency_key.as_deref(), Some("auto:sjc:1700000000:a1"));
    assert_eq!(obs.notes, None);
    assert_eq!(obs.price_side, PriceSide::Bid);
    let gold = DbGoldLot {
        asset_id: "a1".into(),
        provider: "SJC".into(),
        gold_type: "bar".into(),
        purity: "sjc_9999".into(),
        form: "bar".into(),
        quantity_original: "1".into(),
        unit_original: "chi".into(),
        quantity_grams: "3.75".into(),
        purchase_price_per_unit_original: 0,
        purchase_cost: 0,
        fees: 0,
        purchase_date: 0,
        notes: None,
    };
    let p = asset_for_refresh(asset("a1", "gold_lot", "VND"), Some(gold), None);
    assert!(matches!(p.details, Some(PortfolioAssetDetails::GoldLot(_))));
    let q = asset_for_refresh(asset("a2", "stock_lot", "VND"), None, None);
    assert!(q.details.is_none());
    let reg = build_registry(NoopProvider::new(), &ProviderFlags { sjc: false, doji: true, hose: true, upcom: false });
    assert_eq!(reg.providers().len(), 3);
    assert_eq!(reg.providers()[1].name(), "doji");
    assert!(build_registry(NoopProvider::new(), &ProviderFlags { sjc: false, doji: false, hose: false, upcom: false }).is_noop_only());
}

fn rate(s: &str) -> budget::decimal::Dec {
    budget::decimal::Dec::parse(s).unwrap()
}
