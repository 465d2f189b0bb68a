use budget::decimal::Dec;
use budget::manager::biz::portfolio::interest::{
    compound_accrued, simple_accrued, simple_interest_only, try_compound_accrued, try_simple_accrued,
    InterestMethod, PayoutType,
};

fn rate(s: &str) -> Dec {
    Dec::parse(s).unwrap()
}

#[test]
fn simple_zero_days_returns_principal() {
    let v = simple_accrued(1_000_000, rate("0.05"), 0);
    assert_eq!(v.minor(), 1_000_000);
}

#[test]
fn simple_negative_days_returns_principal() {
    let v = simple_accrued(1_000_000, rate("0.05"), -30);
    assert_eq!(v.minor(), 1_000_000);
}

#[test]
fn simple_one_year_at_five_percent() {
    // 1,000,000 @ 5% for 365 days = 50,000 interest; total 1,050,000.
    let v = simple_accrued(1_000_000, rate("0.05"), 365);
    assert_eq!(v.minor(), 1_050_000);
}

#[test]
fn simple_half_year_at_five_percent() {
    // 1,000,000 @ 5% for 182 days: interest is about 24,931.5068...
    let v = simple_accrued(1_000_000, rate("0.05"), 182);
    assert!(v.minor() == 1_024_931 || v.minor() == 1_024_932);
}

#[test]
fn compound_zero_days_returns_principal() {
    let v = compound_accrued(1_000_000, rate("0.05"), 0);
    assert_eq!(v.minor(), 1_000_000);
}

#[test]
fn compound_one_year_at_five_percent_exceeds_simple() {
    let simple = simple_accrued(1_000_000, rate("0.05"), 365);
    let comp = compound_accrued(1_000_000, rate("0.05"), 365);
    assert!(comp.minor() > simple.minor());
    assert!(comp.minor() <= simple.minor() + 5_000);
}

#[test]
fn compound_ten_years_grows() {
    let v = compound_accrued(1_000_000, rate("0.07"), 3650);
    assert!(v.minor() > 2_000_000 && v.minor() < 2_100_000);
}

#[test]
fn method_round_trip() {
    for m in [InterestMethod::Simple, InterestMethod::Compound] {
        assert_eq!(InterestMethod::from_db(m.to_db()), m);
    }
}

#[test]
fn payout_round_trip() {
    for p in [
        PayoutType::AtMaturity,
        PayoutType::Monthly,
        PayoutType::Quarterly,
        PayoutType::OnDemand,
    ] {
        assert_eq!(PayoutType::from_db(p.to_db()), p);
    }
}

#[test]
fn payout_unknown_defaults_at_maturity() {
    assert_eq!(PayoutType::from_db(""), PayoutType::AtMaturity);
}

#[test]
fn zero_principal_returns_zero() {
    assert_eq!(simple_accrued(0, rate("0.05"), 100).minor(), 0);
    assert_eq!(compound_accrued(0, rate("0.05"), 100).minor(), 0);
}

#[test]
fn simple_interest_only_one_year() {
    assert_eq!(simple_interest_only(1_000_000, rate("0.05"), 365).minor(), 50_000);
    assert_eq!(simple_interest_only(1_000_000, rate("0.05"), 0).minor(), 0);
    assert_eq!(simple_interest_only(-5, rate("0.05"), 10).minor(), 0);
}

#[test]
fn zero_rate_earns_nothing() {
    assert_eq!(simple_accrued(1_234_567, rate("0"), 400).minor(), 1_234_567);
    assert_eq!(compound_accrued(1_234_567, rate("0.000"), 400).minor(), 1_234_567);
    assert_eq!(simple_interest_only(1_234_567, rate("0"), 400).minor(), 0);
}

#[test]
fn try_variants_agree_and_report_overflow() {
    assert_eq!(try_simple_accrued(1_000_000, rate("0.05"), 365).unwrap().minor(), 1_050_000);
    assert_eq!(
        try_compound_accrued(1_000_000, rate("0.05"), 365).unwrap().minor(),
        compound_accrued(1_000_000, rate("0.05"), 365).minor()
    );
    // A rate this large overflows the decimal product.
    let huge = rate("79228162514264337593543950335");
    assert!(try_simple_accrued(i64::MAX, huge, i64::MAX).is_none());
    assert!(try_compound_accrued(1_000, huge, 3650).is_none());
}

#[test]
fn interest_method_unknown_defaults_simple() {
    assert_eq!(InterestMethod::from_db("anything"), InterestMethod::Simple);
    assert_eq!(InterestMethod::Compound.to_db(), "compound");
}
