use budget::converters::portfolio::AssetClassNew;
use budget::converters::DbBudgetMember;
use budget::decimal::Dec;
use budget::manager::biz::enrich_members;
use budget::manager::biz::portfolio::create::{
    check_currency_lock, crypto_lot_created_payload, fixed_deposit_created_payload,
    gold_created_payload, new_activity, new_asset_row, new_crypto_lot_row, new_etf_lot_row,
    new_fixed_deposit_row, price_observed_payload, savings_created_payload,
    ticker_lot_created_payload, validate_crypto_lot, validate_etf_lot, validate_fixed_deposit,
    validate_gold_lot, validate_savings_account, validate_stock_lot,
};
use budget::manager::biz::portfolio::disposal::{
    check_lot_in_budget, disposal_recorded_payload, effective_disposal_date, parse_decimal_field, plan_stock_disposal,
    try_plan_stock_disposal,
};
use budget::manager::biz::portfolio::outbox::{
    alert_content, asset_url, budget_name_or_default, default_recipient_address, telegram_text,
    AlertContent,
};
use budget::manager::biz::portfolio::summary::{
    base_currency_or_default, summarize_portfolio, ValuedAsset,
};
use budget::manager::biz::portfolio::AssetStatus;
use budget::manager::client::OrgUserInfo;
use budget::manager::repository::budgets::{admin_budget_filters, page_offset};
use budget::manager::repository::fx_rates::{DbFxRate, FxRateService};
use budget::manager::repository::invest_assets::{invest_asset_update_sql, InvestAssetFields};
use budget::status::Code;

fn dec(s: &str) -> Dec {
    Dec::parse(s).unwrap()
}

#[test]
fn currency_lock_refuses_other_currencies_and_missing_budgets() {
    assert!(check_currency_lock(Some("VND"), "VND").is_ok());
    let e = check_currency_lock(Some("VND"), "USD").unwrap_err();
    assert_eq!(e.code, Code::InvalidArgument);
    assert_eq!(e.message, "asset currency USD does not match budget currency VND");
    let e = check_currency_lock(None, "USD").unwrap_err();
    assert_eq!(e.code, Code::NotFound);
    assert_eq!(e.message, "budget not found");
}

#[test]
fn create_checks_come_in_order() {
    assert_eq!(validate_savings_account("  ", -1).unwrap_err().message, "display_name required");
    assert_eq!(validate_savings_account("Acc", -1).unwrap_err().message, "current_balance must be >= 0");
    assert!(validate_savings_account("Acc", 0).is_ok());

    assert_eq!(validate_fixed_deposit("FD", 0, 1, 2).unwrap_err().message, "principal must be > 0");
    assert_eq!(
        validate_fixed_deposit("FD", 10, 5, 5).unwrap_err().message,
        "maturity_date must be after deposit_date"
    );
    assert!(validate_fixed_deposit("FD", 10, 5, 6).is_ok());

    assert_eq!(validate_gold_lot("\t", 10).unwrap_err().message, "display_name required");
    assert_eq!(validate_gold_lot("Gold", 0).unwrap_err().message, "purchase_cost must be > 0");
    assert!(validate_gold_lot("Gold", 1).is_ok());

    assert_eq!(validate_stock_lot("S", 0, "", "").unwrap_err().message, "buy_price_per_share must be > 0");
    assert_eq!(validate_stock_lot("S", 1, "", "").unwrap_err().message, "ticker required");
    assert_eq!(validate_stock_lot("S", 1, "FPT", "").unwrap_err().message, "exchange required");
    assert!(validate_stock_lot("S", 1, "FPT", "HOSE").is_ok());

    assert_eq!(
        validate_etf_lot("E", 1, "E1", "HOSE", "", "VFM", 1).unwrap_err().message,
        "underlying_index required"
    );
    assert_eq!(
        validate_etf_lot("E", 1, "E1", "HOSE", "VN30", "", 1).unwrap_err().message,
        "fund_provider required"
    );
    assert_eq!(
        validate_etf_lot("E", 1, "E1", "HOSE", "VN30", "VFM", 0).unwrap_err().message,
        "purchase_cost must be > 0"
    );
    assert!(validate_etf_lot("E", 1, "E1", "HOSE", "VN30", "VFM", 1).is_ok());

    assert_eq!(validate_crypto_lot("C", 1, "", "", "", 1).unwrap_err().message, "symbol required");
    assert_eq!(validate_crypto_lot("C", 1, "BTC", "", "", 1).unwrap_err().message, "network required");
    assert_eq!(
        validate_crypto_lot("C", 1, "BTC", "bitcoin", "", 1).unwrap_err().message,
        "custody_wallet required"
    );
    assert!(validate_crypto_lot("C", 1, "BTC", "bitcoin", "ledger", 1).is_ok());
    assert_eq!(
        validate_crypto_lot("C", 1, "BTC", "bitcoin", "ledger", 1).is_ok(),
        true
    );
    assert_eq!(validate_crypto_lot("C", 1, "BTC", "bitcoin", "ledger", 0).unwrap_err().code, Code::InvalidArgument);
}

#[test]
fn rows_and_payloads_of_new_assets() {
    let a = new_asset_row("b1", AssetClassNew::StockLot, "My FPT", "VND", 100, Some("n"), "u1");
    assert!(a.id.is_none());
    assert_eq!(a.budget_id, "b1");
    assert_eq!(a.asset_class, AssetClassNew::StockLot);
    assert_eq!(a.opened_on, 100);
    assert!(a.closed_on.is_none());
    assert_eq!(a.notes.as_deref(), Some("n"));
    assert_eq!(a.created_by, "u1");

    let act = new_activity("b1", "a1", "u1", None, "CREATED", "{}", 42);
    assert_eq!(act.activity_type, "CREATED");
    assert_eq!(act.payload_json.as_deref(), Some("{}"));
    assert!(act.idempotency_key.is_none());
    assert_eq!(act.occurred_at, 42);

    let fd = new_fixed_deposit_row("VCB", "12M", 1000, "0.05", "simple", "at_maturity", 1, 2, "none", "****1", None);
    assert!(fd.rollover_from_asset_id.is_none());
    assert_eq!(fd.certificate_reference_masked.as_deref(), Some("****1"));

    let etf = new_etf_lot_row("E1", "HOSE", "VN30", "VFM", "12.5", 10, 125, 1, 3, None, None);
    assert_eq!(etf.quantity_open, "12.5");
    let c = new_crypto_lot_row("BTC", "bitcoin", "ledger", "0.1", 10, 1, 0, 3, None);
    assert_eq!(c.quantity_open, "0.1");

    assert_eq!(savings_created_payload("Acc", 500), r#"{"display_name":"Acc","current_balance":500}"#);
    assert_eq!(fixed_deposit_created_payload(1000, 77), r#"{"principal":1000,"maturity_date":77}"#);
    assert_eq!(gold_created_payload(-3), r#"{"purchase_cost":-3}"#);
    assert_eq!(ticker_lot_created_payload("FPT", "10", 95000), r#"{"ticker":"FPT","qty":"10","price":95000}"#);
    assert_eq!(crypto_lot_created_payload("BTC", "0.5", 7), r#"{"symbol":"BTC","qty":"0.5","price":7}"#);
    assert_eq!(price_observed_payload(120, "VND"), r#"{"price":120,"currency":"VND"}"#);
}

#[test]
fn stock_disposal_partial_and_full() {
    let id = "lot-1".to_string();
    let plan = plan_stock_disposal(&id, 100, dec("10"), dec("4"), 1000, 10).unwrap();
    assert_eq!(plan.allocations.len(), 1);
    assert_eq!(plan.allocations[0].lot_id, "lot-1");
    assert_eq!(plan.allocations[0].quantity, dec("4"));
    assert_eq!(plan.cost_basis_allocated, 400);
    assert_eq!(plan.realized_pnl, 1000 - 10 - 400);
    assert_eq!(plan.new_open, dec("6"));
    assert!(!plan.closes);
    assert_eq!(plan.new_status, AssetStatus::Active);

    let plan = plan_stock_disposal(&id, 100, dec("10"), dec("10.0"), 2000, -5).unwrap();
    assert!(plan.closes);
    assert_eq!(plan.new_status, AssetStatus::Sold);
    assert_eq!(plan.realized_pnl, 2000 - 1000);
    assert!(plan.new_open.is_zero());
}

#[test]
fn stock_disposal_refusals() {
    let id = "lot-1".to_string();
    let e = plan_stock_disposal(&id, 100, dec("10"), dec("0"), 0, 0).unwrap_err();
    assert_eq!(e.message, "quantity_sold must be > 0");
    let e = plan_stock_disposal(&id, 100, dec("10"), dec("10.5"), 0, 0).unwrap_err();
    assert_eq!(e.message, "quantity_sold exceeds open quantity");
    assert_eq!(e.code, Code::InvalidArgument);
    let e = parse_decimal_field("abc").unwrap_err();
    assert_eq!(e.message, "invalid decimal: abc");
    assert_eq!(parse_decimal_field("1.50").unwrap(), dec("1.5"));
    assert_eq!(effective_disposal_date(0, 99), 99);
    assert_eq!(effective_disposal_date(5, 99), 5);
    assert_eq!(disposal_recorded_payload("4", 1000, -2), r#"{"qty":"4","proceeds":1000,"pnl":-2}"#);
}

fn fx(from: &str, to: &str, rate: i64) -> DbFxRate {
    DbFxRate {
        id: "x".into(),
        from_currency: from.into(),
        to_currency: to.into(),
        rate,
        effective_date: "2024-01-01".into(),
        created_at: 0,
        updated_at: 0,
        deleted_at: None,
    }
}

fn valued(currency: &str, value: i64, cost: i64, realized: i64, unrealized: i64) -> ValuedAsset {
    ValuedAsset {
        currency: currency.into(),
        current_value: value,
        open_cost_basis: cost,
        realized_pnl: realized,
        unrealized_pnl: unrealized,
    }
}

#[test]
fn summary_converts_values_and_adds_up() {
    let svc = FxRateService::from_rows(&[fx("VND", "USD", 25_000)]);
    let assets = vec![valued("USD", 100, 90, 5, 10), valued("VND", 1_000, 900, -5, 100)];
    let t = summarize_portfolio(&svc, &assets, "VND");
    assert_eq!(t.total_current_value, 2_500_000 + 1_000);
    assert_eq!(t.total_open_cost_basis, 990);
    assert_eq!(t.total_realized_pnl, 0);
    assert_eq!(t.total_unrealized_pnl, 110);
    assert_eq!(t.total_pnl, 110);
    let empty = summarize_portfolio(&svc, &[], "VND");
    assert_eq!(empty.total_current_value, 0);
    assert_eq!(base_currency_or_default(None), "VND");
    assert_eq!(base_currency_or_default(Some("USD".into())), "USD");
}

#[test]
fn alert_content_reads_payload_with_defaults() {
    match alert_content("MATURITY_REACHED", r#"{"principal":500,"display_name":"FD 1"}"#) {
        Some(AlertContent::Matured { asset_name, principal_minor, maturity_date }) => {
            assert_eq!(asset_name, "FD 1");
            assert_eq!(principal_minor, 500);
            assert_eq!(maturity_date, None);
        }
        other => panic!("unexpected {other:?}"),
    }
    match alert_content("ROLLED_OVER", "not json") {
        Some(AlertContent::RolledOver { old_asset_name, new_asset_name, principal_minor, new_maturity_date }) => {
            assert_eq!(old_asset_name, "Your deposit");
            assert_eq!(new_asset_name, "new deposit");
            assert_eq!(principal_minor, 0);
            assert_eq!(new_maturity_date, None);
        }
        other => panic!("unexpected {other:?}"),
    }
    match alert_content("PRICE_OBSERVED", r#"{"unit_price":7,"ticker":"FPT","new_maturity_date":3}"#) {
        Some(AlertContent::PriceObserved { asset_name, ticker, unit_price_minor, source }) => {
            assert_eq!(asset_name, "Your asset");
            assert_eq!(ticker, "FPT");
            assert_eq!(unit_price_minor, 7);
            assert_eq!(source, "manual");
        }
        other => panic!("unexpected {other:?}"),
    }
    assert!(alert_content("SOMETHING_ELSE", "{}").is_none());
    assert_eq!(asset_url("https://x/portfolio", "a1"), "https://x/portfolio/asset/a1");
    assert_eq!(default_recipient_address("u1"), "u1@philandz.com");
    assert_eq!(budget_name_or_default(None), "your portfolio");
    assert_eq!(telegram_text("S", "T"), "S\n\nT");
}

fn member(user: &str, display: Option<&str>) -> DbBudgetMember {
    DbBudgetMember {
        budget_id: "b1".into(),
        user_id: user.into(),
        role: "viewer".into(),
        display_name: display.map(String::from),
        email: None,
        avatar: None,
    }
}

#[test]
fn members_are_enriched_from_the_last_matching_profile() {
    let users = vec![
        OrgUserInfo { user_id: "u1".into(), display_name: "Old".into(), email: "".into(), avatar: "".into() },
        OrgUserInfo { user_id: "u1".into(), display_name: "New".into(), email: "n@x".into(), avatar: "".into() },
        OrgUserInfo { user_id: "".into(), display_name: "Nobody".into(), email: "".into(), avatar: "".into() },
    ];
    let out = enrich_members(vec![member("u1", None), member("u2", Some("Row")), member("", None)], &users);
    assert_eq!(out.len(), 3);
    assert_eq!(out[0].display_name, "New");
    assert_eq!(out[0].email, "n@x");
    assert_eq!(out[1].display_name, "Row");
    assert_eq!(out[1].email, "u2");
    assert_eq!(out[2].display_name, "");
}

#[test]
fn update_statement_sets_only_given_fields() {
    let none = InvestAssetFields {
        name: false,
        annual_rate: false,
        maturity_date: false,
        bank_name: false,
        quantity: false,
        unit: false,
        cost_basis_per_unit: false,
        avg_cost_per_share: false,
        notes: false,
    };
    assert_eq!(
        invest_asset_update_sql(none),
        "UPDATE invest_assets SET updated_at = ? WHERE id = ? AND deleted_at IS NULL"
    );
    let some = InvestAssetFields { name: true, quantity: true, notes: true, ..none };
    assert_eq!(
        invest_asset_update_sql(some),
        "UPDATE invest_assets SET updated_at = ?, name = ?, quantity = ?, notes = ? WHERE id = ? AND deleted_at IS NULL"
    );
}

#[test]
fn admin_listing_filters_and_offsets() {
    assert_eq!(admin_budget_filters("", "", ""), "");
    assert_eq!(
        admin_budget_filters("o1", "personal", "foo"),
        " AND b.org_id = 'o1' AND b.budget_type = 'personal' AND b.name LIKE '%foo%'"
    );
    assert_eq!(admin_budget_filters("", "", "x"), " AND b.name LIKE '%x%'");
    assert_eq!(page_offset(1, 20), 0);
    assert_eq!(page_offset(3, 20), 40);
    assert_eq!(page_offset(0, 20), -20);
}

#[test]
fn stock_disposal_keeps_the_decimal_scale() {
    let id = "lot-1".to_string();
    let plan = plan_stock_disposal(&id, 100, dec("10"), dec("4.0"), 1000, 0).unwrap();
    assert_eq!(plan.allocations[0].quantity.to_text(), "4.0");
    assert_eq!(plan.new_open.to_text(), "6.0");
    let plan = plan_stock_disposal(&id, 100, dec("2.50"), dec("2.5"), 1000, 0).unwrap();
    assert_eq!(plan.allocations[0].quantity.to_text(), "2.50");
}

#[test]
fn stock_disposal_of_a_finely_scaled_quantity_at_a_large_price() {
    let id = "lot-1".to_string();
    let plan = plan_stock_disposal(
        &id,
        1_000_000_000_000,
        dec("2000000"),
        dec("1000000.000000000000000000"),
        2_000_000_000_000_000_000,
        0,
    )
    .unwrap();
    assert_eq!(plan.cost_basis_allocated, 1_000_000_000_000_000_000);
    assert_eq!(plan.realized_pnl, 1_000_000_000_000_000_000);
    assert_eq!(plan.new_open, dec("1000000"));
    assert!(!plan.closes);
}

#[test]
fn stock_disposal_try_plans_or_reports_overflow() {
    let id = "lot-1".to_string();
    let plan = try_plan_stock_disposal(&id, 100, dec("10"), dec("4"), 1000, 10)
        .unwrap()
        .unwrap();
    assert_eq!(plan.cost_basis_allocated, 400);
    assert_eq!(plan.realized_pnl, 590);
    let e = try_plan_stock_disposal(&id, 100, dec("10"), dec("11"), 0, 0)
        .unwrap()
        .unwrap_err();
    assert_eq!(e.message, "quantity_sold exceeds open quantity");
    // Net proceeds below i64::MIN: nothing is planned.
    assert!(try_plan_stock_disposal(&id, 100, dec("10"), dec("4"), i64::MIN, 1).is_none());
}

#[test]
fn stock_lot_must_belong_to_the_budget() {
    assert!(check_lot_in_budget(true).is_ok());
    let e = check_lot_in_budget(false).unwrap_err();
    assert_eq!(e.code, Code::NotFound);
    assert_eq!(e.message, "stock lot not found");
}
