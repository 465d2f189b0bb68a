//! Portfolio valuation: per-asset current value, cost basis and P&L.
//!
//! Savings accounts and fixed deposits are valued by formula from their
//! stored terms and a caller-supplied "today". Market-priced assets are
//! valued from a quote; the product of quantity and price is taken by the
//! caller, and what follows from it is computed here.

use super::interest::{
    compound_total_parts, pow_int_parts, simple_total_parts, try_compound_accrued,
    try_simple_accrued,
};
use super::money::{saturate, saturating_sub_i64};
use super::InterestMethod;
use super::PriceFreshness;
use crate::converters::portfolio::{DbFixedDeposit, DbSavingsAccount};
use crate::decimal::{
    decimal_checked_add, decimal_checked_div, decimal_checked_mul, decimal_from_str, rounded_i64,
    Dec,
};
use vstd::prelude::*;

verus! {

/// What an asset is worth and how it got there.
#[derive(Debug, Clone, Copy, PartialEq, Eq, Structural)]
pub struct Valuation {
    pub current_value: i64,
    pub open_cost_basis: i64,
    pub realized_pnl: i64,
    pub unrealized_pnl: i64,
    pub accrued_interest: i64,
    pub freshness: i32,
    pub quote_observed_at: i64,
}

/// Why an asset could not be valued.
#[derive(Debug, Clone)]
pub enum ValuationError {
    /// A stored rate is not decimal text; carries the text.
    InvalidDecimal(String),
    /// The interest arithmetic overflows.
    Overflow,
}

impl ValuationError {
    /// The error message.
    pub fn message(&self) -> (r: String)
        ensures
            self matches ValuationError::InvalidDecimal(v) ==> r@ == "invalid decimal: "@ + v@,
            self matches ValuationError::Overflow ==> r@ == "arithmetic overflow"@,
    {
        match self {
            ValuationError::InvalidDecimal(v) => String::from_str("invalid decimal: ").concat(
                v.as_str(),
            ),
            ValuationError::Overflow => String::from_str("arithmetic overflow"),
        }
    }
}

impl Valuation {
    /// A valuation with nothing known: all zero, unpriced.
    pub fn unpriced() -> (r: Valuation)
        ensures
            r == (Valuation {
                current_value: 0,
                open_cost_basis: 0,
                realized_pnl: 0,
                unrealized_pnl: 0,
                accrued_interest: 0,
                freshness: PriceFreshness::Unpriced.spec_code(),
                quote_observed_at: 0,
            }),
    {
        Valuation {
            current_value: 0,
            open_cost_basis: 0,
            realized_pnl: 0,
            unrealized_pnl: 0,
            accrued_interest: 0,
            freshness: PriceFreshness::Unpriced.code(),
            quote_observed_at: 0,
        }
    }
}

/// The total balance that an interest method gives for a principal, a rate
/// given by parts and a number of days, when the arithmetic does not overflow.
pub open spec fn accrued_total(method: InterestMethod, principal: int, rate: (int, int), days: int) -> Option<int> {
    if days <= 0 || principal <= 0 {
        Some(principal)
    } else {
        let t = match method {
            InterestMethod::Simple => simple_total_parts(principal, rate, days),
            InterestMethod::Compound => compound_total_parts(principal, rate, days),
        };
        match t {
            Some(p) => Some(rounded_i64(p)),
            None => None,
        }
    }
}

/// The valuation of an interest-bearing balance whose total after interest
/// is `total`: the accrued interest is the difference (saturating), and the
/// current value the balance plus that interest, when it fits.
pub open spec fn interest_valuation(balance: int, total: int) -> Option<Valuation> {
    let accrued = saturate(total - balance);
    if i64::MIN <= balance + accrued <= i64::MAX {
        Some(
            Valuation {
                current_value: (balance + accrued) as i64,
                open_cost_basis: balance as i64,
                realized_pnl: 0,
                unrealized_pnl: accrued as i64,
                accrued_interest: accrued as i64,
                freshness: PriceFreshness::Unpriced.spec_code(),
                quote_observed_at: 0,
            },
        )
    } else {
        None
    }
}

/// Values a balance that earns interest at `annual_rate` (decimal text) by
/// `interest_method` (stored text) over `days`.
///
/// Errors: `InvalidDecimal` when the rate is not decimal text, `Overflow`
/// when the interest arithmetic or the current value overflows.
pub fn value_interest_bearing(balance: i64, annual_rate: &str, interest_method: &str, days: i64) -> (r: Result<
    Valuation,
    ValuationError,
>)
    ensures
        interest_bearing_valued(balance, annual_rate@, interest_method@, days as int, r),
        decimal_from_str(annual_rate@) matches Some(rate) && rate.0 == 0 ==> r == Ok::<
            Valuation,
            ValuationError,
        >(interest_valuation(balance as int, balance as int).unwrap()),
{
    let rate = match Dec::parse(annual_rate) {
        Some(d) => d,
        None => {
            return Err(ValuationError::InvalidDecimal(String::from_str(annual_rate)));
        },
    };
    let total = match InterestMethod::from_db(interest_method) {
        InterestMethod::Simple => try_simple_accrued(balance, rate, days),
        InterestMethod::Compound => try_compound_accrued(balance, rate, days),
    };
    let total = match total {
        Some(t) => t.minor(),
        None => {
            return Err(ValuationError::Overflow);
        },
    };
    let accrued = saturating_sub_i64(total, balance);
    let current_value = match balance.checked_add(accrued) {
        Some(v) => v,
        None => {
            return Err(ValuationError::Overflow);
        },
    };
    Ok(
        Valuation {
            current_value,
            open_cost_basis: balance,
            realized_pnl: 0,
            unrealized_pnl: current_value - balance,
            accrued_interest: accrued,
            freshness: PriceFreshness::Unpriced.code(),
            quote_observed_at: 0,
        },
    )
}

/// A balance valued by the stored method `compound` compounds daily: for a
/// positive balance over a positive number of days, the total is the
/// balance times the `days`-th power of the daily growth factor
/// `1 + rate / 365`, rounded half-to-even; the accrued interest and the
/// unrealized gain are that total less the balance, and the current value
/// is the balance plus them.
pub proof fn lemma_compound_method_compounds_daily(
    balance: i64,
    annual_rate: Seq<char>,
    days: int,
    r: Result<Valuation, ValuationError>,
)
    requires
        interest_bearing_valued(balance, annual_rate, "compound"@, days, r),
        r is Ok,
        balance > 0,
        days > 0,
    ensures
        decimal_from_str(annual_rate) is Some,
        ({
            let rate = decimal_from_str(annual_rate).unwrap();
            let daily = decimal_checked_div(rate, (365int, 0int));
            let growth = decimal_checked_add((1int, 0int), daily.unwrap());
            let factor = pow_int_parts(growth.unwrap(), days);
            let total = decimal_checked_mul((balance as int, 0int), factor.unwrap());
            let v = r.unwrap();
            &&& daily is Some
            &&& growth is Some
            &&& factor is Some
            &&& total is Some
            &&& v.accrued_interest == saturate(rounded_i64(total.unwrap()) - balance)
            &&& v.unrealized_pnl == v.accrued_interest
            &&& v.current_value == balance + v.accrued_interest
            &&& v.open_cost_basis == balance
            &&& v.realized_pnl == 0
        }),
{
}

/// A balance valued by any stored method other than `compound` (`simple`
/// and unknown text) earns simple interest: for a positive balance over a
/// positive number of days, the total is the balance plus
/// `balance * rate * days / 365`, rounded half-to-even.
pub proof fn lemma_simple_method_accrues_linearly(
    balance: i64,
    annual_rate: Seq<char>,
    interest_method: Seq<char>,
    days: int,
    r: Result<Valuation, ValuationError>,
)
    requires
        interest_method != "compound"@,
        interest_bearing_valued(balance, annual_rate, interest_method, days, r),
        r is Ok,
        balance > 0,
        days > 0,
    ensures
        decimal_from_str(annual_rate) is Some,
        ({
            let rate = decimal_from_str(annual_rate).unwrap();
            let by_rate = decimal_checked_mul((balance as int, 0int), rate);
            let by_days = decimal_checked_mul(by_rate.unwrap(), (days, 0int));
            let interest = decimal_checked_div(by_days.unwrap(), (365int, 0int));
            let total = decimal_checked_add((balance as int, 0int), interest.unwrap());
            let v = r.unwrap();
            &&& by_rate is Some
            &&& by_days is Some
            &&& interest is Some
            &&& total is Some
            &&& v.accrued_interest == saturate(rounded_i64(total.unwrap()) - balance)
            &&& v.current_value == balance + v.accrued_interest
        }),
{
}

/// Whole days of interest on a savings account: from the date of its
/// balance to `today` (both unix seconds), never negative.
pub open spec fn savings_days(balance_as_of: i64, today: i64) -> int {
    if today - balance_as_of > 0 {
        (today - balance_as_of) / day_secs()
    } else {
        0
    }
}

/// Values a savings account on `today`: its balance accrues interest from
/// the date of that balance.
pub fn value_savings_account(sub: &DbSavingsAccount, today: i64) -> (r: Result<Valuation, ValuationError>)
    requires
        i64::MIN <= today - sub.balance_as_of <= i64::MAX,
    ensures
        interest_bearing_valued(
            sub.current_balance,
            sub.annual_rate@,
            sub.interest_method@,
            savings_days(sub.balance_as_of, today),
            r,
        ),
{
    let diff = today - sub.balance_as_of;
    let days = if diff > 0 {
        diff / 86400
    } else {
        0
    };
    value_interest_bearing(
        sub.current_balance,
        sub.annual_rate.as_str(),
        sub.interest_method.as_str(),
        days,
    )
}

/// Whole days of interest on a fixed deposit: from the deposit date to
/// `today` or to maturity, whichever comes first (all unix seconds), never
/// negative.
pub open spec fn deposit_days(deposit_date: i64, maturity_date: i64, today: i64) -> int {
    let eff = if today <= maturity_date {
        today
    } else {
        maturity_date
    };
    if eff - deposit_date > 0 {
        (eff - deposit_date) / day_secs()
    } else {
        0
    }
}

/// Interest accrues for whole elapsed days: a savings balance counts the
/// full days of 86400 seconds from its date to today (none before it), and
/// a fixed deposit those from its deposit date to today, counted no further
/// than its maturity.
pub proof fn lemma_interest_days_are_whole_days(start: i64, maturity: i64, today: i64)
    ensures
        savings_days(start, today) >= 0,
        today > start ==> savings_days(start, today) * 86400 <= today - start < (savings_days(
            start,
            today,
        ) + 1) * 86400,
        today <= start ==> savings_days(start, today) == 0,
        today <= maturity ==> deposit_days(start, maturity, today) == savings_days(start, today),
        today > maturity ==> deposit_days(start, maturity, today) == savings_days(start, maturity),
{
}

/// Values a fixed deposit on `today`: its principal accrues interest from
/// the deposit date up to maturity.
pub fn value_fixed_deposit(sub: &DbFixedDeposit, today: i64) -> (r: Result<Valuation, ValuationError>)
    requires
        i64::MIN <= today - sub.deposit_date <= i64::MAX,
        i64::MIN <= sub.maturity_date - sub.deposit_date <= i64::MAX,
    ensures
        interest_bearing_valued(
            sub.principal,
            sub.annual_rate@,
            sub.interest_method@,
            deposit_days(sub.deposit_date, sub.maturity_date, today),
            r,
        ),
{
    let eff = if today <= sub.maturity_date {
        today
    } else {
        sub.maturity_date
    };
    let diff = eff - sub.deposit_date;
    let days = if diff > 0 {
        diff / 86400
    } else {
        0
    };
    value_interest_bearing(sub.principal, sub.annual_rate.as_str(), sub.interest_method.as_str(), days)
}

/// What valuing an interest-bearing balance gives: an `InvalidDecimal`
/// error carrying the rate text when it is not decimal text; otherwise the
/// valuation of the accrued total, or `Overflow` where the arithmetic or the
/// current value overflows.
pub open spec fn interest_bearing_valued(
    balance: i64,
    annual_rate: Seq<char>,
    interest_method: Seq<char>,
    days: int,
    r: Result<Valuation, ValuationError>,
) -> bool {
    match decimal_from_str(annual_rate) {
        None => r matches Err(ValuationError::InvalidDecimal(v)) && v@ == annual_rate,
        Some(rate) => match accrued_total(
            InterestMethod::spec_from_db(interest_method),
            balance as int,
            rate,
            days,
        ) {
            Some(total) => match interest_valuation(balance as int, total) {
                Some(v) => r == Ok::<Valuation, ValuationError>(v),
                None => r matches Err(ValuationError::Overflow),
            },
            None => r matches Err(ValuationError::Overflow),
        },
    }
}

/// A market-priced asset without any quote: valued at its cost.
pub fn value_without_quote(cost: i64) -> (r: Valuation)
    ensures
        r == (Valuation {
            current_value: cost,
            open_cost_basis: cost,
            realized_pnl: 0,
            unrealized_pnl: 0,
            accrued_interest: 0,
            freshness: PriceFreshness::Unpriced.spec_code(),
            quote_observed_at: 0,
        }),
{
    Valuation {
        current_value: cost,
        open_cost_basis: cost,
        realized_pnl: 0,
        unrealized_pnl: 0,
        accrued_interest: 0,
        freshness: PriceFreshness::Unpriced.code(),
        quote_observed_at: 0,
    }
}

/// A market-priced asset valued at `current_value` from a quote observed at
/// `observed_at`: the unrealized P&L is the value over the cost basis, and
/// the freshness follows from the quote's age on `today` (never negative).
pub fn value_with_quote(current_value: i64, open_cost_basis: i64, today: i64, observed_at: i64) -> (r: Valuation)
    requires
        i64::MIN <= current_value - open_cost_basis <= i64::MAX,
        i64::MIN <= today - observed_at <= i64::MAX,
    ensures
        r == (Valuation {
            current_value,
            open_cost_basis,
            realized_pnl: 0,
            unrealized_pnl: (current_value - open_cost_basis) as i64,
            accrued_interest: 0,
            freshness: PriceFreshness::spec_from_age_seconds(
                (if today - observed_at > 0 {
                    today - observed_at
                } else {
                    0
                }) as i64,
                true,
            ).spec_code(),
            quote_observed_at: observed_at,
        }),
{
    let age = today - observed_at;
    let age = if age > 0 {
        age
    } else {
        0
    };
    let freshness = PriceFreshness::from_age_seconds(age, true);
    Valuation {
        current_value,
        open_cost_basis,
        realized_pnl: 0,
        unrealized_pnl: current_value - open_cost_basis,
        accrued_interest: 0,
        freshness: freshness.code(),
        quote_observed_at: observed_at,
    }
}

/// Seconds in a day.
pub open spec fn day_secs() -> int {
    86400
}

/// Today's business date in UTC+7 for the Unix time `now_utc`: the moment
/// seven hours later, cut back to the start of its day (for negative times
/// the cut goes towards zero, as the `%` of `i64` does).
pub open spec fn spec_business_date(now_utc: int) -> int {
    let ict = now_utc + 25200;
    if ict >= 0 {
        ict - ict % day_secs()
    } else {
        ict + (-ict) % day_secs()
    }
}

/// Business date (UTC+7, aligned to midnight) of a Unix time.
pub fn business_date_from_unix(now_utc: i64) -> (r: i64)
    requires
        now_utc <= i64::MAX - 25200,
    ensures
        r == spec_business_date(now_utc as int),
        now_utc + 25200 >= 0 ==> (r as int) % day_secs() == 0 && r <= now_utc + 25200 < r + day_secs(),
{
    let ict = now_utc + 25200;
    ict - ict % 86400
}

} // verus!
