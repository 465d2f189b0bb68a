//! Rate type: a decimal annual rate.
//!
//! The annual rate is kept as a decimal to avoid floating-point precision
//! loss on long-tenor interest calculations.

use crate::decimal::{
    decimal_checked_div, decimal_checked_mul, decimal_from_str, exact_product_parts, mul_exact,
    mul_no_overflow, Dec,
};
use vstd::prelude::*;
use vstd::std_specs::cmp::PartialEqSpecImpl;

verus! {

/// An annual rate as a fraction (0.055 for 5.5% p.a.).
#[derive(Debug, Clone, Copy)]
pub struct Rate(Dec);

/// Text that does not read as a decimal rate.
#[derive(Debug, Clone)]
pub struct RateParseError(pub String);

impl RateParseError {
    /// The error message.
    pub fn message(&self) -> (r: String)
        ensures
            r@ == "invalid rate string: "@ + self.0@,
    {
        String::from_str("invalid rate string: ").concat(self.0.as_str())
    }
}

impl Rate {
    /// The fraction this rate holds.
    pub closed spec fn spec_fraction(self) -> Dec {
        self.0
    }

    /// A zero rate.
    pub fn zero() -> (r: Rate)
        ensures
            r.spec_fraction().val() == 0,
            r.spec_fraction().parts() == (0int, 0int),
    {
        Rate(Dec::zero())
    }

    /// Build a rate from a fractional value (e.g. 0.055 for 5.5% p.a.).
    pub fn from_fraction(value: Dec) -> (r: Rate)
        ensures
            r.spec_fraction() == value,
    {
        Rate(value)
    }

    /// Build a rate from a percentage value (e.g. 5.5 for 5.5% p.a.):
    /// the percentage divided by one hundred.
    pub fn from_percent(percent: Dec) -> (r: Rate)
        ensures
            decimal_checked_div(percent.parts(), (100int, 0int)) == Some(
                r.spec_fraction().parts(),
            ),
            percent.m() == 0 ==> r.spec_fraction().parts() == (0int, 0int),
    {
        let hundred = Dec::from_i64(100);
        proof {
            crate::decimal::lemma_pow10_pos(28);
            assert(hundred.val() == 100 * crate::decimal::pow10(28));
        }
        match percent.checked_div(&hundred) {
            Some(d) => Rate(d),
            None => Rate(percent),
        }
    }

    /// Build a rate from its text; the error carries the text.
    pub fn parse(value: &str) -> (r: Result<Rate, RateParseError>)
        ensures
            r is Ok <==> decimal_from_str(value@) is Some,
            r matches Ok(q) ==> decimal_from_str(value@) == Some(q.spec_fraction().parts()),
            r matches Err(e) ==> e.0@ == value@,
    {
        match Dec::parse(value) {
            Some(d) => Ok(Rate(d)),
            None => Err(RateParseError(String::from_str(value))),
        }
    }

    pub fn fraction(self) -> (r: Dec)
        ensures
            r == self.spec_fraction(),
    {
        self.0
    }

    /// The rate as a percentage: the fraction times one hundred.
    pub fn percent(self) -> (r: Dec)
        requires
            mul_no_overflow(self.spec_fraction().m(), self.spec_fraction().s(), 100, 0),
        ensures
            decimal_checked_mul(self.spec_fraction().parts(), (100int, 0int)) == Some(r.parts()),
            mul_exact(self.spec_fraction().m(), self.spec_fraction().s(), 100, 0) ==> r.parts()
                == exact_product_parts(self.spec_fraction().parts(), (100int, 0int)),
    {
        let hundred = Dec::from_i64(100);
        match self.0.checked_mul(&hundred) {
            Some(d) => d,
            None => self.0,
        }
    }
}

/// Two rates are equal when their fractions are (`0.050 == 0.05`).
impl PartialEq for Rate {
    fn eq(&self, other: &Rate) -> (r: bool) {
        self.0 == other.0
    }
}

impl PartialEqSpecImpl for Rate {
    open spec fn obeys_eq_spec() -> bool {
        true
    }

    open spec fn eq_spec(&self, other: &Rate) -> bool {
        self.spec_fraction().val() == other.spec_fraction().val()
    }
}

} // verus!
