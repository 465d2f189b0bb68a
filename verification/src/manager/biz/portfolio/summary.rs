//! The portfolio summary of a budget: the valued assets added up, each
//! asset's current value first converted to the budget's currency.

use crate::decimal::in_i64;
use crate::manager::repository::fx_rates::{convert_defined, spec_convert, FxEntry, FxRateService};
use vstd::prelude::*;

verus! {

/// What the summary needs of one valued asset.
#[derive(Debug, Clone)]
pub struct ValuedAsset {
    pub currency: String,
    pub current_value: i64,
    pub open_cost_basis: i64,
    pub realized_pnl: i64,
    pub unrealized_pnl: i64,
}

/// The totals of a portfolio, in the budget's currency.
#[derive(Debug, Clone, Copy, PartialEq, Eq)]
pub struct PortfolioTotals {
    pub total_current_value: i64,
    pub total_open_cost_basis: i64,
    pub total_realized_pnl: i64,
    pub total_unrealized_pnl: i64,
    pub total_pnl: i64,
}

/// The currency a summary is reported in: the budget's, or `VND` when the
/// budget is not found.
pub fn base_currency_or_default(budget_currency: Option<String>) -> (r: String)
    ensures
        budget_currency is None ==> r@ == "VND"@,
        budget_currency matches Some(c) ==> r@ == c@,
{
    match budget_currency {
        Some(c) => c,
        None => String::from_str("VND"),
    }
}

/// The current values of the first `n` assets converted to `base`, added up.
pub open spec fn value_total(cache: Seq<FxEntry>, assets: Seq<ValuedAsset>, base: Seq<char>, n: int) -> int
    decreases n,
{
    if n <= 0 || n > assets.len() {
        0
    } else {
        value_total(cache, assets, base, n - 1) + spec_convert(
            cache,
            assets[n - 1].current_value as int,
            assets[n - 1].currency@,
            base,
        )
    }
}

/// The open cost bases of the first `n` assets added up.
pub open spec fn cost_total(assets: Seq<ValuedAsset>, n: int) -> int
    decreases n,
{
    if n <= 0 || n > assets.len() {
        0
    } else {
        cost_total(assets, n - 1) + assets[n - 1].open_cost_basis
    }
}

/// The realized profits of the first `n` assets added up.
pub open spec fn realized_total(assets: Seq<ValuedAsset>, n: int) -> int
    decreases n,
{
    if n <= 0 || n > assets.len() {
        0
    } else {
        realized_total(assets, n - 1) + assets[n - 1].realized_pnl
    }
}

/// The unrealized profits of the first `n` assets added up.
pub open spec fn unrealized_total(assets: Seq<ValuedAsset>, n: int) -> int
    decreases n,
{
    if n <= 0 || n > assets.len() {
        0
    } else {
        unrealized_total(assets, n - 1) + assets[n - 1].unrealized_pnl
    }
}

/// Every conversion can be made and every running total fits an `i64`.
pub open spec fn totals_fit(cache: Seq<FxEntry>, assets: Seq<ValuedAsset>, base: Seq<char>) -> bool {
    &&& forall|k: int|
        0 <= k < assets.len() ==> convert_defined(
            cache,
            #[trigger] assets[k].current_value as int,
            assets[k].currency@,
            base,
        )
    &&& forall|n: int|
        0 <= n <= assets.len() ==> {
            &&& in_i64(#[trigger] value_total(cache, assets, base, n))
            &&& in_i64(cost_total(assets, n))
            &&& in_i64(realized_total(assets, n))
            &&& in_i64(unrealized_total(assets, n))
        }
    &&& in_i64(
        realized_total(assets, assets.len() as int) + unrealized_total(assets, assets.len() as int),
    )
}

/// Adds up the valued assets of a portfolio in the `base` currency.
pub fn summarize_portfolio(fx: &FxRateService, assets: &[ValuedAsset], base: &str) -> (r: PortfolioTotals)
    requires
        totals_fit(fx.spec_cache(), assets@, base@),
    ensures
        r.total_current_value == value_total(fx.spec_cache(), assets@, base@, assets@.len() as int),
        r.total_open_cost_basis == cost_total(assets@, assets@.len() as int),
        r.total_realized_pnl == realized_total(assets@, assets@.len() as int),
        r.total_unrealized_pnl == unrealized_total(assets@, assets@.len() as int),
        r.total_pnl == r.total_realized_pnl + r.total_unrealized_pnl,
{
    let ghost cache = fx.spec_cache();
    let ghost s = assets@;
    let mut value: i64 = 0;
    let mut cost: i64 = 0;
    let mut realized: i64 = 0;
    let mut unrealized: i64 = 0;
    let mut i: usize = 0;
    while i < assets.len()
        invariant
            s == assets@,
            cache == fx.spec_cache(),
            totals_fit(cache, s, base@),
            i <= s.len(),
            value == value_total(cache, s, base@, i as int),
            cost == cost_total(s, i as int),
            realized == realized_total(s, i as int),
            unrealized == unrealized_total(s, i as int),
        decreases s.len() - i,
    {
        let a = &assets[i];
        proof {
            assert(convert_defined(cache, s[i as int].current_value as int, s[i as int].currency@, base@));
            assert(in_i64(value_total(cache, s, base@, i + 1)));
            assert(in_i64(cost_total(s, i + 1)));
            assert(in_i64(realized_total(s, i + 1)));
            assert(in_i64(unrealized_total(s, i + 1)));
        }
        let converted = fx.convert(a.current_value, a.currency.as_str(), base);
        value = value + converted;
        cost = cost + a.open_cost_basis;
        realized = realized + a.realized_pnl;
        unrealized = unrealized + a.unrealized_pnl;
        i = i + 1;
    }
    PortfolioTotals {
        total_current_value: value,
        total_open_cost_basis: cost,
        total_realized_pnl: realized,
        total_unrealized_pnl: unrealized,
        total_pnl: realized + unrealized,
    }
}

} // verus!
