//! Interest math for savings accounts and fixed deposits.
//!
//! Formulas use an `actual/365` day-count basis. Inputs are `i64` minor
//! units for the principal and `i64` days elapsed. Output is `i64` minor
//! units, rounded half-to-even at the end.
//!
//! Every step is a `rust_decimal` operation; the contracts follow the chain
//! of operations through the names that `crate::decimal` gives their results.

use super::money::Money;
use crate::decimal::{
    decimal_checked_add, decimal_checked_div, decimal_checked_mul, lemma_pow10_pos, pow10,
    round0_parts, rounded_i64, Dec, lemma_round0_is_value_round,
};
use crate::text::str_eq;
use vstd::prelude::*;

verus! {

/// How interest accrues.
#[derive(Debug, Clone, Copy, PartialEq, Eq, Structural)]
pub enum InterestMethod {
    Simple,
    Compound,
}

impl InterestMethod {
    pub open spec fn spec_as_str(self) -> Seq<char> {
        match self {
            InterestMethod::Simple => "simple"@,
            InterestMethod::Compound => "compound"@,
        }
    }

    /// Unknown text reads as simple interest.
    pub open spec fn spec_from_db(value: Seq<char>) -> InterestMethod {
        if value == "compound"@ {
            InterestMethod::Compound
        } else {
            InterestMethod::Simple
        }
    }

    pub fn from_db(value: &str) -> (r: InterestMethod)
        ensures
            r == Self::spec_from_db(value@),
    {
        if str_eq(value, "compound") {
            InterestMethod::Compound
        } else {
            InterestMethod::Simple
        }
    }

    pub fn to_db(self) -> (r: &'static str)
        ensures
            r@ == self.spec_as_str(),
    {
        match self {
            InterestMethod::Simple => "simple",
            InterestMethod::Compound => "compound",
        }
    }
}

/// Writing an interest method to the database and reading it back gives the same method.
pub proof fn lemma_interest_method_db_round_trip(s: InterestMethod)
    ensures
        InterestMethod::spec_from_db(s.spec_as_str()) == s,
{
    reveal_strlit("simple");
    reveal_strlit("compound");
    match s {
        InterestMethod::Simple => {
            assert("simple"@[0] != "compound"@[0]);
        },
        InterestMethod::Compound => {
        },
    }
}

/// When interest is paid out.
#[derive(Debug, Clone, Copy, PartialEq, Eq, Structural)]
pub enum PayoutType {
    AtMaturity,
    Monthly,
    Quarterly,
    OnDemand,
}

impl PayoutType {
    pub open spec fn spec_as_str(self) -> Seq<char> {
        match self {
            PayoutType::AtMaturity => "at_maturity"@,
            PayoutType::Monthly => "monthly"@,
            PayoutType::Quarterly => "quarterly"@,
            PayoutType::OnDemand => "on_demand"@,
        }
    }

    /// Unknown text reads as paid at maturity.
    pub open spec fn spec_from_db(value: Seq<char>) -> PayoutType {
        if value == "monthly"@ {
            PayoutType::Monthly
        } else if value == "quarterly"@ {
            PayoutType::Quarterly
        } else if value == "on_demand"@ {
            PayoutType::OnDemand
        } else {
            PayoutType::AtMaturity
        }
    }

    pub fn from_db(value: &str) -> (r: PayoutType)
        ensures
            r == Self::spec_from_db(value@),
    {
        if str_eq(value, "monthly") {
            PayoutType::Monthly
        } else if str_eq(value, "quarterly") {
            PayoutType::Quarterly
        } else if str_eq(value, "on_demand") {
            PayoutType::OnDemand
        } else {
            PayoutType::AtMaturity
        }
    }

    pub fn to_db(self) -> (r: &'static str)
        ensures
            r@ == self.spec_as_str(),
    {
        match self {
            PayoutType::AtMaturity => "at_maturity",
            PayoutType::Monthly => "monthly",
            PayoutType::Quarterly => "quarterly",
            PayoutType::OnDemand => "on_demand",
        }
    }
}

/// Writing a payout type to the database and reading it back gives the same type.
pub proof fn lemma_payout_type_db_round_trip(s: PayoutType)
    ensures
        PayoutType::spec_from_db(s.spec_as_str()) == s,
{
    reveal_strlit("at_maturity");
    reveal_strlit("monthly");
    reveal_strlit("quarterly");
    reveal_strlit("on_demand");
    match s {
        PayoutType::AtMaturity => {
            assert("at_maturity"@[0] != "monthly"@[0]);
            assert("at_maturity"@[0] != "quarterly"@[0]);
            assert("at_maturity"@[0] != "on_demand"@[0]);
        },
        PayoutType::Monthly => {
        },
        PayoutType::Quarterly => {
            assert("quarterly"@[0] != "monthly"@[0]);
        },
        PayoutType::OnDemand => {
            assert("on_demand"@[0] != "monthly"@[0]);
            assert("on_demand"@[0] != "quarterly"@[0]);
        },
    }
}

/// Days in a year for the `actual/365` basis.
pub open spec fn days_per_year() -> int {
    365
}

/// Decimal multiplication of two optional operands (`None` propagates).
pub open spec fn mul_opt(a: Option<(int, int)>, b: Option<(int, int)>) -> Option<(int, int)> {
    match (a, b) {
        (Some(x), Some(y)) => decimal_checked_mul(x, y),
        _ => None,
    }
}

/// `principal * rate * days / 365` evaluated left to right with decimal
/// operations, as (mantissa, scale); `None` where an operation overflows.
pub open spec fn simple_interest_parts(principal: int, rate: (int, int), days: int) -> Option<
    (int, int),
> {
    match mul_opt(mul_opt(Some((principal, 0)), Some(rate)), Some((days, 0))) {
        Some(b) => decimal_checked_div(b, (days_per_year(), 0)),
        None => None,
    }
}

/// `principal + principal * rate * days / 365` with decimal operations.
pub open spec fn simple_total_parts(principal: int, rate: (int, int), days: int) -> Option<
    (int, int),
> {
    match simple_interest_parts(principal, rate, days) {
        Some(c) => decimal_checked_add((principal, 0), c),
        None => None,
    }
}

/// Binary exponentiation from the state (result, base, exponent): the
/// result takes the base for each set bit of the exponent, and the base is
/// squared while bits remain.
pub open spec fn pow_loop(result: Option<(int, int)>, b: Option<(int, int)>, e: nat) -> Option<
    (int, int),
>
    decreases e,
{
    if e == 0 {
        result
    } else {
        let result2 = if e % 2 == 1 {
            mul_opt(result, b)
        } else {
            result
        };
        let e2 = e / 2;
        let b2 = if e2 > 0 {
            mul_opt(b, b)
        } else {
            b
        };
        pow_loop(result2, b2, e2)
    }
}

/// `base ^ exp` by binary exponentiation with decimal products; one for an
/// exponent that is not positive.
pub open spec fn pow_int_parts(base: (int, int), exp: int) -> Option<(int, int)> {
    if exp <= 0 {
        Some((1, 0))
    } else {
        pow_loop(Some((1, 0)), Some(base), exp as nat)
    }
}

proof fn lemma_pow_loop_none_result(b: Option<(int, int)>, e: nat)
    ensures
        pow_loop(None, b, e) is None,
    decreases e,
{
    if e > 0 {
        let e2 = e / 2;
        let b2 = if e2 > 0 {
            mul_opt(b, b)
        } else {
            b
        };
        lemma_pow_loop_none_result(b2, e2);
    }
}

proof fn lemma_pow_loop_none_base(r: Option<(int, int)>, e: nat)
    requires
        e > 0,
    ensures
        pow_loop(r, None, e) is None,
    decreases e,
{
    let e2 = e / 2;
    if e % 2 == 1 {
        lemma_pow_loop_none_result(None, e2);
    } else {
        lemma_pow_loop_none_base(r, e2);
    }
}

/// The power used for compounding: the zeroth power is one, the first is
/// the base (as one times the base), and an even power `2k` is the `k`-th
/// power of the square, so the factor grows with the exponent
/// multiplicatively and not by repeated addition.
pub proof fn lemma_pow_int_parts_steps(b: (int, int), k: int)
    ensures
        pow_int_parts(b, 0) == Some((1int, 0int)),
        pow_int_parts(b, 1) == decimal_checked_mul((1, 0), b),
        k >= 1 ==> pow_int_parts(b, 2 * k) == match decimal_checked_mul(b, b) {
            Some(sq) => pow_int_parts(sq, k),
            None => None,
        },
{
    assert(pow_int_parts(b, 1) == decimal_checked_mul((1, 0), b)) by {
        reveal_with_fuel(pow_loop, 2);
        assert(1nat / 2 == 0);
        assert(1nat % 2 == 1);
    }
    if k >= 1 {
        let e = (2 * k) as nat;
        assert(e % 2 == 0);
        assert(e / 2 == k);
        assert(pow_loop(Some((1int, 0int)), Some(b), e) == pow_loop(
            Some((1int, 0int)),
            mul_opt(Some(b), Some(b)),
            k as nat,
        ));
        if decimal_checked_mul(b, b) is None {
            lemma_pow_loop_none_base(Some((1int, 0int)), k as nat);
        }
    }
}

/// `principal * (1 + rate / 365) ^ days` with decimal operations.
pub open spec fn compound_total_parts(principal: int, rate: (int, int), days: int) -> Option<
    (int, int),
> {
    match decimal_checked_div(rate, (days_per_year(), 0)) {
        Some(daily) => match decimal_checked_add((1, 0), daily) {
            Some(base) => mul_opt(Some((principal, 0)), pow_int_parts(base, days)),
            None => None,
        },
        None => None,
    }
}

/// The decimal `principal * rate * days / 365`, or `None` where an
/// operation overflows.
fn simple_interest_decimal(principal_minor: i64, annual_rate: Dec, days: i64) -> (r: Option<Dec>)
    ensures
        r is None <==> simple_interest_parts(principal_minor as int, annual_rate.parts(), days as int)
            is None,
        r matches Some(c) ==> simple_interest_parts(
            principal_minor as int,
            annual_rate.parts(),
            days as int,
        ) == Some(c.parts()),
        annual_rate.m() == 0 ==> (r is Some && r.unwrap().parts() == (0int, 0int)),
{
    let principal = Dec::from_i64(principal_minor);
    proof {
        annual_rate.lemma_scale_bound();
    }
    let a = match principal.checked_mul(&annual_rate) {
        Some(x) => x,
        None => {
            return None;
        },
    };
    let b = match a.checked_mul(&Dec::from_i64(days)) {
        Some(x) => x,
        None => {
            return None;
        },
    };
    b.checked_div(&Dec::from_i64(365))
}

/// Simple-interest total value (principal + accrued interest).
///
/// formula: principal + principal * rate * days / 365
///
/// Returns the total balance after `days` of simple interest, not the
/// interest alone. Use [`simple_interest_only`] when only the interest
/// component is required. The decimal operations must not overflow;
/// [`try_simple_accrued`] checks that first.
pub fn simple_accrued(principal_minor: i64, annual_rate: Dec, days: i64) -> (r: Money)
    requires
        days <= 0 || principal_minor <= 0 || simple_total_parts(
            principal_minor as int,
            annual_rate.parts(),
            days as int,
        ) is Some,
    ensures
        days <= 0 || principal_minor <= 0 ==> r.0 == principal_minor,
        days > 0 && principal_minor > 0 ==> r.0 == rounded_i64(
            simple_total_parts(principal_minor as int, annual_rate.parts(), days as int).unwrap(),
        ),
        annual_rate.m() == 0 ==> r.0 == principal_minor,
{
    if days <= 0 || principal_minor <= 0 {
        return Money::from_minor(principal_minor);
    }
    let principal = Dec::from_i64(principal_minor);
    let interest = match simple_interest_decimal(principal_minor, annual_rate, days) {
        Some(c) => c,
        None => {
            return Money::from_minor(principal_minor);
        },
    };
    let total = match principal.checked_add(&interest) {
        Some(t) => t,
        None => {
            return Money::from_minor(principal_minor);
        },
    };
    Money::from_minor(round_half_to_even(total))
}

/// [`simple_accrued`], or `None` where its decimal operations overflow.
pub fn try_simple_accrued(principal_minor: i64, annual_rate: Dec, days: i64) -> (r: Option<Money>)
    ensures
        r is None <==> (days > 0 && principal_minor > 0 && simple_total_parts(
            principal_minor as int,
            annual_rate.parts(),
            days as int,
        ) is None),
        r matches Some(m) ==> (days <= 0 || principal_minor <= 0 ==> m.0 == principal_minor),
        r matches Some(m) ==> (days > 0 && principal_minor > 0 ==> m.0 == rounded_i64(
            simple_total_parts(principal_minor as int, annual_rate.parts(), days as int).unwrap(),
        )),
        annual_rate.m() == 0 ==> r == Some(Money(principal_minor)),
{
    if days > 0 && principal_minor > 0 {
        match simple_interest_decimal(principal_minor, annual_rate, days) {
            Some(c) => {
                if Dec::from_i64(principal_minor).checked_add(&c).is_none() {
                    return None;
                }
            },
            None => {
                return None;
            },
        }
    }
    Some(simple_accrued(principal_minor, annual_rate, days))
}

/// Interest amount earned via simple interest (no principal returned).
///
/// formula: principal * rate * days / 365
pub fn simple_interest_only(principal_minor: i64, annual_rate: Dec, days: i64) -> (r: Money)
    requires
        days <= 0 || principal_minor <= 0 || simple_interest_parts(
            principal_minor as int,
            annual_rate.parts(),
            days as int,
        ) is Some,
    ensures
        days <= 0 || principal_minor <= 0 ==> r.0 == 0,
        days > 0 && principal_minor > 0 ==> r.0 == rounded_i64(
            simple_interest_parts(principal_minor as int, annual_rate.parts(), days as int).unwrap(),
        ),
        annual_rate.m() == 0 ==> r.0 == 0,
{
    if days <= 0 || principal_minor <= 0 {
        return Money::zero();
    }
    match simple_interest_decimal(principal_minor, annual_rate, days) {
        Some(c) => Money::from_minor(round_half_to_even(c)),
        None => Money::zero(),
    }
}

/// [`simple_interest_only`], or `None` where its decimal operations overflow.
pub fn try_simple_interest_only(principal_minor: i64, annual_rate: Dec, days: i64) -> (r: Option<
    Money,
>)
    ensures
        r is None <==> (days > 0 && principal_minor > 0 && simple_interest_parts(
            principal_minor as int,
            annual_rate.parts(),
            days as int,
        ) is None),
        r matches Some(m) ==> (days <= 0 || principal_minor <= 0 ==> m.0 == 0),
        r matches Some(m) ==> (days > 0 && principal_minor > 0 ==> m.0 == rounded_i64(
            simple_interest_parts(principal_minor as int, annual_rate.parts(), days as int).unwrap(),
        )),
{
    if days > 0 && principal_minor > 0 && simple_interest_decimal(
        principal_minor,
        annual_rate,
        days,
    ).is_none() {
        return None;
    }
    Some(simple_interest_only(principal_minor, annual_rate, days))
}

/// The decimal `principal * (1 + rate / 365) ^ days`, or `None` where an
/// operation overflows.
fn compound_total_decimal(principal_minor: i64, annual_rate: Dec, days: i64) -> (r: Option<Dec>)
    ensures
        r is None <==> compound_total_parts(principal_minor as int, annual_rate.parts(), days as int)
            is None,
        r matches Some(c) ==> compound_total_parts(
            principal_minor as int,
            annual_rate.parts(),
            days as int,
        ) == Some(c.parts()),
        annual_rate.m() == 0 ==> (r is Some && r.unwrap().parts() == (principal_minor as int, 0int)),
{
    let principal = Dec::from_i64(principal_minor);
    let daily_rate = match annual_rate.checked_div(&Dec::from_i64(365)) {
        Some(x) => x,
        None => {
            return None;
        },
    };
    let one = Dec::from_i64(1);
    let base = match one.checked_add(&daily_rate) {
        Some(x) => x,
        None => {
            return None;
        },
    };
    let p = match decimal_pow_int(base, days) {
        Some(x) => x,
        None => {
            return None;
        },
    };
    proof {
        if annual_rate.m() == 0 {
            assert(base.parts() == (1int, 0int));
            assert(p.parts() == (1int, 0int));
            p.lemma_scale_bound();
            principal.lemma_scale_bound();
        }
    }
    principal.checked_mul(&p)
}

/// Compound-interest accrued value, compounded daily.
///
/// formula: principal * (1 + rate/365) ^ days
pub fn compound_accrued(principal_minor: i64, annual_rate: Dec, days: i64) -> (r: Money)
    requires
        days <= 0 || principal_minor <= 0 || compound_total_parts(
            principal_minor as int,
            annual_rate.parts(),
            days as int,
        ) is Some,
    ensures
        days <= 0 || principal_minor <= 0 ==> r.0 == principal_minor,
        days > 0 && principal_minor > 0 ==> r.0 == rounded_i64(
            compound_total_parts(principal_minor as int, annual_rate.parts(), days as int).unwrap(),
        ),
        annual_rate.m() == 0 ==> r.0 == principal_minor,
{
    if days <= 0 || principal_minor <= 0 {
        return Money::from_minor(principal_minor);
    }
    match compound_total_decimal(principal_minor, annual_rate, days) {
        Some(t) => Money::from_minor(round_half_to_even(t)),
        None => Money::from_minor(principal_minor),
    }
}

/// [`compound_accrued`], or `None` where its decimal operations overflow.
pub fn try_compound_accrued(principal_minor: i64, annual_rate: Dec, days: i64) -> (r: Option<Money>)
    ensures
        r is None <==> (days > 0 && principal_minor > 0 && compound_total_parts(
            principal_minor as int,
            annual_rate.parts(),
            days as int,
        ) is None),
        r matches Some(m) ==> (days <= 0 || principal_minor <= 0 ==> m.0 == principal_minor),
        r matches Some(m) ==> (days > 0 && principal_minor > 0 ==> m.0 == rounded_i64(
            compound_total_parts(principal_minor as int, annual_rate.parts(), days as int).unwrap(),
        )),
        annual_rate.m() == 0 ==> r == Some(Money(principal_minor)),
{
    if days > 0 && principal_minor > 0 && compound_total_decimal(
        principal_minor,
        annual_rate,
        days,
    ).is_none() {
        return None;
    }
    Some(compound_accrued(principal_minor, annual_rate, days))
}

/// Compute `base ^ exp` for positive integer exponents with decimal
/// products, by binary exponentiation (O(log n) multiplications) so that
/// long-tenor deposits do not pay linear-time cost. An exponent that is not
/// positive gives one; `None` where a product overflows.
fn decimal_pow_int(base: Dec, exp: i64) -> (r: Option<Dec>)
    ensures
        r is None <==> pow_int_parts(base.parts(), exp as int) is None,
        r matches Some(x) ==> pow_int_parts(base.parts(), exp as int) == Some(x.parts()),
        base.parts() == (1int, 0int) ==> (r is Some && r.unwrap().parts() == (1int, 0int)),
{
    if exp <= 0 {
        return Some(Dec::from_i64(1));
    }
    let ghost target = pow_int_parts(base.parts(), exp as int);
    let mut result = Dec::from_i64(1);
    let mut b = base;
    let mut e: u64 = exp as u64;
    while e > 0
        invariant
            target == pow_int_parts(base.parts(), exp as int),
            pow_loop(Some(result.parts()), Some(b.parts()), e as nat) == target,
            base.parts() == (1int, 0int) ==> (result.parts() == (1int, 0int) && b.parts() == (
                1int,
                0int,
            )),
        decreases e,
    {
        let ghost e0 = e as nat;
        let ghost r0 = result.parts();
        let ghost b0 = b.parts();
        let ghost r2 = if e0 % 2 == 1 {
            mul_opt(Some(r0), Some(b0))
        } else {
            Some(r0)
        };
        let ghost b2 = if e0 / 2 > 0 {
            mul_opt(Some(b0), Some(b0))
        } else {
            Some(b0)
        };
        assert(target == pow_loop(r2, b2, e0 / 2));
        if e % 2 == 1 {
            proof {
                result.lemma_scale_bound();
                b.lemma_scale_bound();
            }
            match result.checked_mul(&b) {
                Some(x) => {
                    result = x;
                },
                None => {
                    proof {
                        assert(r2 is None);
                        lemma_pow_loop_lost_result(b2, e0 / 2);
                    }
                    return None;
                },
            }
        }
        e = e / 2;
        if e > 0 {
            proof {
                b.lemma_scale_bound();
            }
            match b.checked_mul(&b) {
                Some(x) => {
                    b = x;
                },
                None => {
                    proof {
                        assert(b2 is None);
                        assert(r2 == Some(result.parts()));
                        lemma_pow_loop_lost_base(r2, e as nat);
                    }
                    return None;
                },
            }
        }
    }
    Some(result)
}

/// Round a decimal to the nearest integer, ties to even, saturating at
/// `i64::MAX` when it does not fit.
fn round_half_to_even(value: Dec) -> (r: i64)
    ensures
        r == rounded_i64(value.parts()),
{
    let rounded = value.round_dp0();
    proof {
        assert(rounded.s() == 0);
        assert(pow10(0) == 1);
        assert(rounded.m() / 1 == rounded.m());
    }
    match rounded.to_i64() {
        Some(v) => v,
        None => i64::MAX,
    }
}

/// Once the running result is lost to an overflow, so is the power.
proof fn lemma_pow_loop_lost_result(b: Option<(int, int)>, e: nat)
    ensures
        pow_loop(None, b, e) is None,
    decreases e,
{
    if e > 0 {
        let e2 = e / 2;
        lemma_pow_loop_lost_result(
            if e2 > 0 {
                mul_opt(b, b)
            } else {
                b
            },
            e2,
        );
    }
}

/// Once the base is lost to an overflow while bits remain, so is the power.
proof fn lemma_pow_loop_lost_base(result: Option<(int, int)>, e: nat)
    requires
        e > 0,
    ensures
        pow_loop(result, None, e) is None,
    decreases e,
{
    let e2 = e / 2;
    if e % 2 == 1 {
        lemma_pow_loop_lost_result(None, e2);
    } else {
        lemma_pow_loop_lost_base(result, e2);
    }
}

} // verus!
