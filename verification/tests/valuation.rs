use budget::converters::portfolio::{DbFixedDeposit, DbSavingsAccount};
use budget::manager::biz::portfolio::valuation::{
    business_date_from_unix, value_fixed_deposit, value_interest_bearing, value_savings_account,
    value_with_quote, value_without_quote, Valuation, ValuationError,
};
use budget::manager::biz::portfolio::PriceFreshness;

fn savings(balance: i64, rate: &str, method: &str, as_of: i64) -> DbSavingsAccount {
    DbSavingsAccount {
        asset_id: "a".into(),
        provider: "bank".into(),
        account_reference_masked: "***1".into(),
        current_balance: balance,
        balance_as_of: as_of,
        annual_rate: rate.into(),
        interest_method: method.into(),
        payout_type: "monthly".into(),
        opened_on: 0,
        notes: None,
    }
}

fn deposit(principal: i64, rate: &str, deposit_date: i64, maturity_date: i64) -> DbFixedDeposit {
    DbFixedDeposit {
        asset_id: "a".into(),
        provider: "bank".into(),
        product_name: "12M".into(),
        principal,
        annual_rate: rate.into(),
        interest_method: "simple".into(),
        payout_type: "at_maturity".into(),
        deposit_date,
        maturity_date,
        auto_renewal_policy: "none".into(),
        rollover_from_asset_id: None,
        certificate_reference_masked: None,
        notes: None,
    }
}

#[test]
fn savings_account_accrues_simple_interest_to_today() {
    let b = 1_700_000_000;
    let v = value_savings_account(&savings(1_000_000, "0.05", "simple", b), b + 365 * 86_400).unwrap();
    assert_eq!(v.current_value, 1_050_000);
    assert_eq!(v.open_cost_basis, 1_000_000);
    assert_eq!(v.accrued_interest, 50_000);
    assert_eq!(v.unrealized_pnl, 50_000);
    assert_eq!(v.realized_pnl, 0);
    assert_eq!(v.freshness, PriceFreshness::Unpriced.code());
}

#[test]
fn savings_in_the_future_accrues_nothing() {
    let v = value_savings_account(&savings(500, "0.05", "compound", 100), 50).unwrap();
    assert_eq!(v.current_value, 500);
    assert_eq!(v.accrued_interest, 0);
}

#[test]
fn fixed_deposit_stops_at_maturity() {
    let year = 365 * 86_400;
    let at_maturity = value_fixed_deposit(&deposit(1_000_000, "0.05", 0, year), year).unwrap();
    let later = value_fixed_deposit(&deposit(1_000_000, "0.05", 0, year), 3 * year).unwrap();
    assert_eq!(at_maturity, later);
    assert_eq!(later.current_value, 1_050_000);
}

#[test]
fn interest_counts_whole_days_of_seconds() {
    let part_day = value_savings_account(&savings(1_000_000, "0.05", "simple", 0), 86_399).unwrap();
    assert_eq!(part_day.accrued_interest, 0);
    let one_day = value_savings_account(&savings(3_650_000, "0.05", "simple", 0), 86_400 + 5).unwrap();
    assert_eq!(one_day.accrued_interest, 500);
}

#[test]
fn invalid_rate_is_reported() {
    match value_interest_bearing(1, "five percent", "simple", 10) {
        Err(ValuationError::InvalidDecimal(v)) => assert_eq!(v, "five percent"),
        other => panic!("unexpected: {other:?}"),
    }
    assert_eq!(
        ValuationError::InvalidDecimal("x".into()).message(),
        "invalid decimal: x"
    );
}

#[test]
fn zero_rate_values_at_balance() {
    let v = value_interest_bearing(777, "0", "compound", 1000).unwrap();
    assert_eq!(v.current_value, 777);
    assert_eq!(v.accrued_interest, 0);
}

#[test]
fn overflowing_interest_is_reported() {
    let r = value_interest_bearing(i64::MAX, "79228162514264337593543950335", "simple", i64::MAX);
    assert!(matches!(r, Err(ValuationError::Overflow)));
}

#[test]
fn quoted_and_unquoted_market_assets() {
    let v = value_without_quote(1234);
    assert_eq!(v.current_value, 1234);
    assert_eq!(v.unrealized_pnl, 0);
    assert_eq!(v.freshness, PriceFreshness::Unpriced.code());
    let q = value_with_quote(1500, 1200, 1_000_000, 1_000_000 - 8 * 86_400);
    assert_eq!(q.unrealized_pnl, 300);
    assert_eq!(q.freshness, PriceFreshness::Stale.code());
    assert_eq!(q.quote_observed_at, 1_000_000 - 8 * 86_400);
    let fresh = value_with_quote(1, 1, 10, 20);
    assert_eq!(fresh.freshness, PriceFreshness::Fresh.code());
    assert_eq!(Valuation::unpriced().current_value, 0);
}

#[test]
fn business_date_is_ict_midnight() {
    // 2023-11-14T22:13:20Z is 2023-11-15 05:13:20 in UTC+7.
    let d = business_date_from_unix(1_700_000_000);
    assert_eq!(d % 86_400, 0);
    assert_eq!(d, 1_700_006_400);
    assert_eq!(business_date_from_unix(0), 0);
    assert_eq!(business_date_from_unix(-25_200), 0);
}
