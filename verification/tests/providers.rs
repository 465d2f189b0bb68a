use budget::manager::biz::portfolio::providers::{
    flag_enabled, DojiProvider, HoseProvider, NoopProvider, ProviderFlags, ProviderRegistry,
    RegisteredProvider, SjcProvider, UpcomProvider,
};
use budget::pb::common::base::Base;
use budget::pb::service::portfolio::{
    GoldForm, GoldPurity, GoldUnit, PortfolioAsset, PortfolioAssetClass, PortfolioAssetDetails,
    PortfolioGoldLot, PortfolioStockLot, StockExchange,
};

fn gold_asset(purity: i32) -> PortfolioAsset {
    PortfolioAsset {
        base: Some(Base {
            id: "a1".into(),
            created_at: 0,
            updated_at: 0,
            deleted_at: 0,
            created_by: String::new(),
            updated_by: String::new(),
            owner_id: String::new(),
            status: 0,
        }),
        budget_id: "b1".into(),
        asset_class: PortfolioAssetClass::GoldLot.code(),
        display_name: "x".into(),
        currency: "VND".into(),
        status: 0,
        opened_on: 0,
        closed_on: 0,
        legacy_asset_id: String::new(),
        notes: String::new(),
        details: Some(PortfolioAssetDetails::GoldLot(PortfolioGoldLot {
            asset_id: "a1".into(),
            provider: "SJC".into(),
            gold_type: "ring".into(),
            purity,
            form: GoldForm::Other.code(),
            quantity_original: "1".into(),
            unit_original: GoldUnit::Chi.code(),
            quantity_grams: "3.75".into(),
            purchase_price_per_unit_original: 0,
            purchase_cost: 0,
            fees: 0,
            purchase_date: 0,
            notes: String::new(),
        })),
    }
}

fn stock_asset(exchange: i32) -> PortfolioAsset {
    PortfolioAsset {
        base: None,
        budget_id: "b1".into(),
        asset_class: PortfolioAssetClass::StockLot.code(),
        display_name: "x".into(),
        currency: "VND".into(),
        status: 0,
        opened_on: 0,
        closed_on: 0,
        legacy_asset_id: String::new(),
        notes: String::new(),
        details: Some(PortfolioAssetDetails::StockLot(PortfolioStockLot {
            asset_id: "a1".into(),
            ticker: "VNM".into(),
            exchange,
            quantity_bought: "100".into(),
            quantity_open: "100".into(),
            buy_price_per_share: 75_000,
            purchase_cost: 7_500_000,
            fees: 0,
            purchase_date: 0,
            settlement_date: 0,
            notes: String::new(),
        })),
    }
}

fn dummy_asset() -> PortfolioAsset {
    let mut a = gold_asset(GoldPurity::Sjc9999.code());
    a.base = None;
    a.details = None;
    a
}

#[test]
fn name_is_sjc() {
    assert_eq!(SjcProvider::new().name(), "sjc");
}

#[test]
fn name_is_doji() {
    assert_eq!(DojiProvider::new().name(), "doji");
}

#[test]
fn name_is_hose() {
    assert_eq!(HoseProvider::new().name(), "hose");
}

#[test]
fn name_is_upcom() {
    assert_eq!(UpcomProvider::new().name(), "upcom");
}

#[test]
fn noop_name() {
    assert_eq!(NoopProvider::new().name(), "noop");
}

#[test]
fn noop_supports_nothing() {
    assert!(!NoopProvider::new().supports(&dummy_asset()));
}

#[test]
fn noop_fetch_returns_empty() {
    let p = NoopProvider::new();
    let result = p.fetch_prices(&[dummy_asset()]);
    assert!(result.is_empty());
}

#[test]
fn sjc_supports_returns_false_when_disabled() {
    assert!(!SjcProvider::new().supports(false, &gold_asset(GoldPurity::Sjc9999.code())));
}

#[test]
fn sjc_supports_returns_true_when_enabled() {
    let p = SjcProvider::new();
    assert!(p.supports(true, &gold_asset(GoldPurity::Sjc9999.code())));
    assert!(p.supports(true, &gold_asset(GoldPurity::Doji9999.code())));
}

#[test]
fn doji_supports_returns_false_when_disabled() {
    assert!(!DojiProvider::new().supports(false, &gold_asset(GoldPurity::Doji9999.code())));
}

#[test]
fn doji_supports_returns_true_when_enabled() {
    let p = DojiProvider::new();
    assert!(p.supports(true, &gold_asset(GoldPurity::Doji9999.code())));
    assert!(p.supports(true, &gold_asset(GoldPurity::Pnj999.code())));
    assert!(p.supports(true, &gold_asset(GoldPurity::Pnj995.code())));
}

#[test]
fn hose_supports_returns_false_when_disabled() {
    assert!(!HoseProvider::new().supports(false, &stock_asset(StockExchange::Hose.code())));
}

#[test]
fn hose_supports_returns_true_when_enabled() {
    let p = HoseProvider::new();
    assert!(p.supports(true, &stock_asset(StockExchange::Hose.code())));
    assert!(!p.supports(true, &stock_asset(StockExchange::Hnx.code())));
    assert!(!p.supports(true, &stock_asset(StockExchange::Upcom.code())));
}

#[test]
fn upcom_supports_returns_false_when_disabled() {
    assert!(!UpcomProvider::new().supports(false, &stock_asset(StockExchange::Upcom.code())));
}

#[test]
fn upcom_supports_returns_true_when_enabled() {
    let p = UpcomProvider::new();
    assert!(p.supports(true, &stock_asset(StockExchange::Upcom.code())));
    assert!(!p.supports(true, &stock_asset(StockExchange::Hose.code())));
    assert!(!p.supports(true, &stock_asset(StockExchange::Hnx.code())));
}

#[test]
fn flags_accept_one_and_true_in_any_case() {
    assert!(flag_enabled(Some("1")));
    assert!(flag_enabled(Some("TRUE")));
    assert!(flag_enabled(Some("True")));
    assert!(!flag_enabled(Some("yes")));
    assert!(!flag_enabled(Some("0")));
    assert!(!flag_enabled(None));
}

#[test]
fn noop_test_prices_price_matching_gold() {
    let p = NoopProvider::with_test_prices(Some(r#"{"SJC9999": 7500000, "XYZ": 1, "PNJ999": "x"}"#));
    let sjc = gold_asset(GoldPurity::Sjc9999.code());
    let pnj = gold_asset(GoldPurity::Pnj999.code());
    let doji = gold_asset(GoldPurity::Doji9999.code());
    assert!(p.supports(&sjc));
    assert!(p.supports(&pnj));
    assert!(!p.supports(&doji));
    let prices = p.fetch_prices(&[sjc, doji]);
    assert_eq!(prices.len(), 1);
    assert_eq!(prices[0].asset_id, "a1");
    assert_eq!(prices[0].provider, "noop-test");
    assert_eq!(prices[0].unit_price, 7_500_000);
    assert_eq!(prices[0].price_side, "mid");
    // A price that is not an integer counts as zero.
    let prices = p.fetch_prices(&[pnj]);
    assert_eq!(prices[0].unit_price, 0);
    assert!(!NoopProvider::with_test_prices(Some("not json")).supports(&gold_asset(GoldPurity::Sjc9999.code())));
}

#[test]
fn registry_routes_to_claiming_providers() {
    let noop = NoopProvider::with_test_prices(Some(r#"{"SJC9999": 100}"#));
    let mut reg = ProviderRegistry::new_with_noop(noop);
    assert!(reg.is_noop_only());
    reg.add(RegisteredProvider::Sjc(SjcProvider::new()));
    assert!(!reg.is_noop_only());
    assert_eq!(reg.providers().len(), 2);
    let flags = ProviderFlags { sjc: true, doji: false, hose: false, upcom: false };
    let prices = reg.fetch_all(&flags, &[gold_asset(GoldPurity::Sjc9999.code()), stock_asset(StockExchange::Hose.code())]);
    assert_eq!(prices.len(), 1);
    assert_eq!(prices[0].unit_price, 100);
}

#[test]
fn registered_provider_fetches_only_what_it_claims() {
    let noop = RegisteredProvider::Noop(NoopProvider::with_test_prices(Some(r#"{"SJC9999": 250}"#)));
    let flags = ProviderFlags { sjc: false, doji: false, hose: false, upcom: false };
    let assets = [
        stock_asset(StockExchange::Hose.code()),
        gold_asset(GoldPurity::Sjc9999.code()),
        gold_asset(GoldPurity::Doji9999.code()),
    ];
    let prices = noop.fetch_claimed(&flags, &assets);
    assert_eq!(prices.len(), 1);
    assert_eq!(prices[0].unit_price, 250);
    let sjc = RegisteredProvider::Sjc(SjcProvider::new());
    assert!(sjc.fetch_claimed(&flags, &assets).is_empty());
}
