use budget::converters::portfolio::{
    map_asset_status_to_proto, map_crypto_lot, map_etf_lot, map_portfolio_asset, map_transfer,
    parse_quantity, AssetClassNew, DbCryptoLot, DbEtfLot, DbPortfolioAsset, DbTransfer,
};
use budget::converters::{
    budget_role_from_db, budget_role_to_db, budget_type_from_db, budget_type_to_db, map_budget,
    map_budget_member, rollover_policy_from_db, rollover_policy_to_db, DbBudget, DbBudgetMember,
};
use budget::pb::service::budget::{BudgetRole, BudgetType, RolloverPolicy};
use budget::pb::service::portfolio::{
    CryptoNetwork, EtfUnderlyingIndex, PortfolioAssetClass, PortfolioAssetStatus, TransferDirection,
    TransferStatus,
};

#[test]
fn asset_class_new_round_trip() {
    for c in [
        AssetClassNew::SavingsAccount,
        AssetClassNew::FixedDeposit,
        AssetClassNew::GoldLot,
        AssetClassNew::StockLot,
    ] {
        assert_eq!(AssetClassNew::from_proto(c.to_proto()), Some(c));
    }
}

#[test]
fn status_to_proto_uses_proto_constants() {
    assert_eq!(map_asset_status_to_proto("active"), PortfolioAssetStatus::Active.code());
    assert_eq!(map_asset_status_to_proto("rolled_over"), PortfolioAssetStatus::RolledOver.code());
    assert_eq!(map_asset_status_to_proto("garbage"), PortfolioAssetStatus::Active.code());
}

fn etf_lot(underlying: &str, qty: &str) -> DbEtfLot {
    DbEtfLot {
        asset_id: "a1".into(),
        ticker: "FUEVFVND".into(),
        exchange: "HOSE".into(),
        underlying_index: underlying.into(),
        fund_provider: "VinaCapital".into(),
        quantity_bought: qty.into(),
        quantity_open: qty.into(),
        buy_price_per_unit: 0,
        purchase_cost: 0,
        fees: 0,
        purchase_date: 0,
        settlement_date: None,
        notes: None,
    }
}

#[test]
fn map_etf_underlying_handles_known_values() {
    for (db_value, expected_proto) in [
        ("vn30", EtfUnderlyingIndex::Vn30.code()),
        ("vn100", EtfUnderlyingIndex::Vn100.code()),
        ("hnx30", EtfUnderlyingIndex::Hnx30.code()),
        ("VN30", EtfUnderlyingIndex::Vn30.code()), // case-insensitive
    ] {
        let proto = map_etf_lot(etf_lot(db_value, "10"));
        assert_eq!(proto.underlying_index, expected_proto, "db={db_value}");
    }
}

#[test]
fn map_etf_underlying_unknown_becomes_other() {
    let proto = map_etf_lot(etf_lot("garbage", "1"));
    assert_eq!(proto.underlying_index, EtfUnderlyingIndex::Other.code());
}

fn crypto_lot(network: &str) -> DbCryptoLot {
    DbCryptoLot {
        asset_id: "a1".into(),
        symbol: "BTC".into(),
        network: network.into(),
        custody_wallet: "0x".into(),
        quantity_bought: "1".into(),
        quantity_open: "1".into(),
        buy_price_per_unit: 0,
        purchase_cost: 0,
        fees: 0,
        purchase_date: 0,
        notes: None,
    }
}

#[test]
fn map_crypto_network_handles_known_values() {
    for (db_value, expected_proto) in [
        ("bitcoin", CryptoNetwork::Bitcoin.code()),
        ("ethereum", CryptoNetwork::Ethereum.code()),
        ("solana", CryptoNetwork::Solana.code()),
        ("bnb_chain", CryptoNetwork::BnbChain.code()),
        ("polkadot", CryptoNetwork::Polkadot.code()),
    ] {
        let proto = map_crypto_lot(crypto_lot(db_value));
        assert_eq!(proto.network, expected_proto, "db={db_value}");
    }
}

#[test]
fn map_crypto_network_unknown_becomes_other() {
    let proto = map_crypto_lot(crypto_lot("garbage"));
    assert_eq!(proto.network, CryptoNetwork::Other.code());
}

#[test]
fn parse_quantity_bought_accepts_positive_floats() {
    let qty: f64 = "100.5".parse().unwrap();
    let price: i64 = 1_000;
    let cost = (qty * price as f64).round() as i64;
    assert_eq!(cost, 100_500);
}

#[test]
fn parse_quantity_bought_rejects_alpha() {
    let parsed: Result<f64, _> = "abc".parse();
    assert!(parsed.is_err());
}

#[test]
fn parse_quantity_bought_rejects_negative() {
    let parsed: f64 = "-1".parse().unwrap();
    assert!(parsed < 0.0);
}

#[test]
fn parse_quantity_bought_rejects_empty() {
    let parsed: Result<f64, _> = "".parse();
    assert!(parsed.is_err());
}

#[test]
fn crypto_network_aliases_and_case() {
    for v in ["BNB-CHAIN", "bnbchain", "Bnb_Chain"] {
        assert_eq!(map_crypto_lot(crypto_lot(v)).network, CryptoNetwork::BnbChain.code());
    }
    assert_eq!(map_crypto_lot(crypto_lot("Bitcoin")).network, CryptoNetwork::Bitcoin.code());
}

#[test]
fn quantities_are_normalised_decimal_text() {
    assert_eq!(parse_quantity("1.50"), "1.50");
    assert_eq!(parse_quantity("007"), "7");
    assert_eq!(parse_quantity("-0.5"), "-0.5");
    assert_eq!(parse_quantity("not a number"), "not a number");
    assert_eq!(map_etf_lot(etf_lot("vn30", "010.0")).quantity_open, "10.0");
}

#[test]
fn budget_enum_text_codes() {
    for t in [BudgetType::Standard, BudgetType::Saving, BudgetType::Debt, BudgetType::Invest, BudgetType::Sharing] {
        assert_eq!(budget_type_from_db(budget_type_to_db(t)), t);
    }
    assert_eq!(budget_type_to_db(BudgetType::Unspecified), "standard");
    assert_eq!(budget_type_from_db("x"), BudgetType::Unspecified);
    for r in [BudgetRole::Owner, BudgetRole::Manager, BudgetRole::Contributor, BudgetRole::Viewer] {
        assert_eq!(budget_role_from_db(budget_role_to_db(r)), r);
    }
    assert_eq!(budget_role_to_db(BudgetRole::Unspecified), "viewer");
    assert_eq!(rollover_policy_from_db(rollover_policy_to_db(RolloverPolicy::CarryForward)), RolloverPolicy::CarryForward);
    assert_eq!(rollover_policy_from_db("whatever"), RolloverPolicy::Reset);
}

#[test]
fn map_budget_defaults_missing_fields() {
    let b = map_budget(DbBudget {
        id: "b1".into(),
        org_id: "o1".into(),
        name: "Food".into(),
        budget_type: "saving".into(),
        currency: "VND".into(),
        status: "active".into(),
        created_by: "u1".into(),
        created_at: 10,
        updated_at: 20,
        deleted_at: None,
        my_role: None,
        envelope_limit: None,
        member_count: Some(3),
        current_spend: None,
    });
    let base = b.base.unwrap();
    assert_eq!(base.id, "b1");
    assert_eq!(base.deleted_at, 0);
    assert_eq!(b.budget_type, BudgetType::Saving.code());
    assert_eq!(b.my_role, BudgetRole::Viewer.code());
    assert_eq!(b.envelope_limit, 0);
    assert_eq!(b.member_count, 3);
}

#[test]
fn pending_member_falls_back_to_user_id() {
    let m = map_budget_member(DbBudgetMember {
        budget_id: "b1".into(),
        user_id: "invitee@example.com".into(),
        role: "contributor".into(),
        display_name: None,
        email: Some(String::new()),
        avatar: None,
    });
    assert_eq!(m.email, "invitee@example.com");
    assert_eq!(m.display_name, "invitee@example.com");
    assert_eq!(m.role, BudgetRole::Contributor.code());
    assert_eq!(m.avatar, "");
}

#[test]
fn map_asset_and_transfer_codes() {
    let a = map_portfolio_asset(DbPortfolioAsset {
        id: "a1".into(),
        budget_id: "b1".into(),
        asset_class: "etf_lot".into(),
        display_name: "ETF".into(),
        currency: "VND".into(),
        status: "matured".into(),
        opened_on: 5,
        closed_on: None,
        legacy_asset_id: None,
        notes: Some("n".into()),
        created_by: "u".into(),
        created_at: 1,
        updated_at: 2,
        deleted_at: Some(3),
    });
    assert_eq!(a.asset_class, PortfolioAssetClass::EtfLot.code());
    assert_eq!(a.status, PortfolioAssetStatus::Matured.code());
    assert_eq!(a.base.unwrap().deleted_at, 3);
    assert_eq!(a.notes, "n");
    let t = map_transfer(DbTransfer {
        id: "t".into(),
        group_id: "g".into(),
        source_budget_id: "s".into(),
        counterparty_budget_id: "c".into(),
        direction: "invest_to_standard".into(),
        amount_minor: 5,
        currency: "VND".into(),
        status: "compensation_pending".into(),
        linked_entry_source_id: None,
        linked_entry_counterparty_id: None,
        idempotency_key: None,
        actor_user_id: "u".into(),
        created_at: 1,
        completed_at: None,
        notes: None,
    });
    assert_eq!(t.direction, TransferDirection::InvestToStandard.code());
    assert_eq!(t.status, TransferStatus::CompensationPending.code());
    assert_eq!(t.completed_at, 0);
    assert!(AssetClassNew::CryptoLot.is_priceable());
    assert!(!AssetClassNew::FixedDeposit.is_priceable());
}
