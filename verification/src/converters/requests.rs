//! The stored text of the enum numbers that portfolio requests carry. A
//! number that names no variant, or names the unspecified one, stores the
//! field's default.

use crate::manager::biz::portfolio::gold::GoldUnit;
use crate::pb::service::portfolio as pb;
use vstd::prelude::*;

verus! {

pub open spec fn spec_method_to_db(v: i32) -> Seq<char> {
    if v == pb::InterestMethod::Compound.spec_code() {
        "compound"@
    } else {
        "simple"@
    }
}

/// Stored interest method of a request: `compound`, else `simple`.
pub fn i32_method_to_db(v: i32) -> (r: String)
    ensures
        r@ == spec_method_to_db(v),
{
    if v == pb::InterestMethod::Compound.code() {
        String::from_str("compound")
    } else {
        String::from_str("simple")
    }
}

pub open spec fn spec_payout_to_db(v: i32) -> Seq<char> {
    if v == pb::PayoutType::Monthly.spec_code() {
        "monthly"@
    } else if v == pb::PayoutType::Quarterly.spec_code() {
        "quarterly"@
    } else if v == pb::PayoutType::OnDemand.spec_code() {
        "on_demand"@
    } else {
        "at_maturity"@
    }
}

/// Stored payout schedule of a request; `at_maturity` by default.
pub fn i32_payout_to_db(v: i32) -> (r: String)
    ensures
        r@ == spec_payout_to_db(v),
{
    if v == pb::PayoutType::Monthly.code() {
        String::from_str("monthly")
    } else if v == pb::PayoutType::Quarterly.code() {
        String::from_str("quarterly")
    } else if v == pb::PayoutType::OnDemand.code() {
        String::from_str("on_demand")
    } else {
        String::from_str("at_maturity")
    }
}

pub open spec fn spec_auto_renewal_to_db(v: i32) -> Seq<char> {
    if v == pb::AutoRenewalPolicy::PrincipalOnly.spec_code() {
        "principal_only"@
    } else if v == pb::AutoRenewalPolicy::PrincipalAndInterest.spec_code() {
        "principal_and_interest"@
    } else {
        "none"@
    }
}

/// Stored renewal policy of a request; `none` by default.
pub fn i32_auto_renewal_to_db(v: i32) -> (r: String)
    ensures
        r@ == spec_auto_renewal_to_db(v),
{
    if v == pb::AutoRenewalPolicy::PrincipalOnly.code() {
        String::from_str("principal_only")
    } else if v == pb::AutoRenewalPolicy::PrincipalAndInterest.code() {
        String::from_str("principal_and_interest")
    } else {
        String::from_str("none")
    }
}

pub open spec fn spec_purity_to_db(v: i32) -> Seq<char> {
    if v == pb::GoldPurity::Sjc9999.spec_code() {
        "sjc_9999"@
    } else if v == pb::GoldPurity::Pnj999.spec_code() {
        "pnj_999"@
    } else if v == pb::GoldPurity::Pnj995.spec_code() {
        "pnj_995"@
    } else if v == pb::GoldPurity::Doji9999.spec_code() {
        "doji_9999"@
    } else {
        "other"@
    }
}

/// Stored gold purity of a request; `other` by default.
pub fn i32_purity_to_db(v: i32) -> (r: String)
    ensures
        r@ == spec_purity_to_db(v),
{
    if v == pb::GoldPurity::Sjc9999.code() {
        String::from_str("sjc_9999")
    } else if v == pb::GoldPurity::Pnj999.code() {
        String::from_str("pnj_999")
    } else if v == pb::GoldPurity::Pnj995.code() {
        String::from_str("pnj_995")
    } else if v == pb::GoldPurity::Doji9999.code() {
        String::from_str("doji_9999")
    } else {
        String::from_str("other")
    }
}

pub open spec fn spec_form_to_db(v: i32) -> Seq<char> {
    if v == pb::GoldForm::Bar.spec_code() {
        "bar"@
    } else if v == pb::GoldForm::Ring.spec_code() {
        "ring"@
    } else if v == pb::GoldForm::Coin.spec_code() {
        "coin"@
    } else if v == pb::GoldForm::Jewelry.spec_code() {
        "jewelry"@
    } else {
        "other"@
    }
}

/// Stored gold form of a request; `other` by default.
pub fn i32_form_to_db(v: i32) -> (r: String)
    ensures
        r@ == spec_form_to_db(v),
{
    if v == pb::GoldForm::Bar.code() {
        String::from_str("bar")
    } else if v == pb::GoldForm::Ring.code() {
        String::from_str("ring")
    } else if v == pb::GoldForm::Coin.code() {
        String::from_str("coin")
    } else if v == pb::GoldForm::Jewelry.code() {
        String::from_str("jewelry")
    } else {
        String::from_str("other")
    }
}

pub open spec fn spec_parse_gold_unit(v: i32) -> GoldUnit {
    if v == pb::GoldUnit::Chi.spec_code() {
        GoldUnit::Chi
    } else if v == pb::GoldUnit::Luong.spec_code() {
        GoldUnit::Luong
    } else {
        GoldUnit::Gram
    }
}

/// The unit of a gold request; grams by default.
pub fn parse_gold_unit(v: i32) -> (r: GoldUnit)
    ensures
        r == spec_parse_gold_unit(v),
{
    if v == pb::GoldUnit::Chi.code() {
        GoldUnit::Chi
    } else if v == pb::GoldUnit::Luong.code() {
        GoldUnit::Luong
    } else {
        GoldUnit::Gram
    }
}

pub open spec fn spec_exchange_to_db(v: i32) -> Seq<char> {
    if v == pb::StockExchange::Hnx.spec_code() {
        "HNX"@
    } else if v == pb::StockExchange::Upcom.spec_code() {
        "UPCOM"@
    } else {
        "HOSE"@
    }
}

/// Stored exchange of a stock request; `HOSE` by default.
pub fn i32_exchange_to_db(v: i32) -> (r: String)
    ensures
        r@ == spec_exchange_to_db(v),
{
    if v == pb::StockExchange::Hnx.code() {
        String::from_str("HNX")
    } else if v == pb::StockExchange::Upcom.code() {
        String::from_str("UPCOM")
    } else {
        String::from_str("HOSE")
    }
}

pub open spec fn spec_price_side_to_db(v: i32) -> Seq<char> {
    if v == pb::PriceSide::Bid.spec_code() {
        "bid"@
    } else if v == pb::PriceSide::Ask.spec_code() {
        "ask"@
    } else {
        "mid"@
    }
}

/// Stored price side of a request; `mid` by default.
pub fn i32_price_side_to_db(v: i32) -> (r: String)
    ensures
        r@ == spec_price_side_to_db(v),
{
    if v == pb::PriceSide::Bid.code() {
        String::from_str("bid")
    } else if v == pb::PriceSide::Ask.code() {
        String::from_str("ask")
    } else {
        String::from_str("mid")
    }
}

} // verus!
