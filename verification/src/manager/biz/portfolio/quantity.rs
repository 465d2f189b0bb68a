//! Quantity type: a decimal quantity.
//!
//! Used for fractional shares, grams of gold, and any other non-money
//! scalar that needs more than integer precision.

use crate::decimal::{decimal_checked_sub, decimal_from_str, decimal_text, Dec};
use vstd::prelude::*;
use vstd::std_specs::cmp::PartialEqSpecImpl;

verus! {

/// A decimal quantity.
#[derive(Debug, Clone, Copy)]
pub struct Quantity(Dec);

/// Text that does not read as a decimal quantity.
#[derive(Debug, Clone)]
pub struct QuantityParseError(pub String);

impl QuantityParseError {
    /// The error message.
    pub fn message(&self) -> (r: String)
        ensures
            r@ == "invalid quantity string: "@ + self.0@,
    {
        String::from_str("invalid quantity string: ").concat(self.0.as_str())
    }
}

impl Quantity {
    /// The decimal this quantity holds.
    pub closed spec fn spec_decimal(self) -> Dec {
        self.0
    }

    /// No quantity.
    pub fn zero() -> (r: Quantity)
        ensures
            r.spec_decimal().val() == 0,
            r.spec_decimal().parts() == (0int, 0int),
    {
        Quantity(Dec::zero())
    }

    pub fn from_decimal(value: Dec) -> (r: Quantity)
        ensures
            r.spec_decimal() == value,
    {
        Quantity(value)
    }

    pub fn from_grams(value: Dec) -> (r: Quantity)
        ensures
            r.spec_decimal() == value,
    {
        Quantity(value)
    }

    /// Parses decimal text; the error carries the text.
    pub fn parse(value: &str) -> (r: Result<Quantity, QuantityParseError>)
        ensures
            r is Ok <==> decimal_from_str(value@) is Some,
            r matches Ok(q) ==> decimal_from_str(value@) == Some(q.spec_decimal().parts()),
            r matches Err(e) ==> e.0@ == value@,
    {
        match Dec::parse(value) {
            Some(d) => Ok(Quantity(d)),
            None => Err(QuantityParseError(String::from_str(value))),
        }
    }

    pub fn decimal(self) -> (r: Dec)
        ensures
            r == self.spec_decimal(),
    {
        self.0
    }

    pub fn is_positive(self) -> (r: bool)
        ensures
            r == (self.spec_decimal().val() > 0),
    {
        self.0.is_positive()
    }

    pub fn is_zero(self) -> (r: bool)
        ensures
            r == (self.spec_decimal().val() == 0),
    {
        self.0.is_zero()
    }

    /// The difference, or `None` when the decimal subtraction overflows.
    pub fn checked_sub(self, other: Quantity) -> (r: Option<Quantity>)
        ensures
            r is None <==> decimal_checked_sub(
                self.spec_decimal().parts(),
                other.spec_decimal().parts(),
            ) is None,
            r matches Some(q) ==> decimal_checked_sub(
                self.spec_decimal().parts(),
                other.spec_decimal().parts(),
            ) == Some(q.spec_decimal().parts()),
            crate::decimal::add_fits(
                self.spec_decimal().val() - other.spec_decimal().val(),
                self.spec_decimal().s(),
                other.spec_decimal().s(),
            ) ==> (r is Some && r.unwrap().spec_decimal().val() == self.spec_decimal().val()
                - other.spec_decimal().val()),
    {
        match self.0.checked_sub(&other.0) {
            Some(d) => Some(Quantity(d)),
            None => None,
        }
    }

    /// Plain decimal text of the quantity.
    pub fn to_display_string(self) -> (r: String)
        ensures
            r@ == decimal_text(self.spec_decimal().m(), self.spec_decimal().s()),
    {
        self.0.to_text()
    }
}

/// Two quantities are equal when their values are (`1.50 == 1.5`).
impl PartialEq for Quantity {
    fn eq(&self, other: &Quantity) -> (r: bool) {
        self.0 == other.0
    }
}

impl PartialEqSpecImpl for Quantity {
    open spec fn obeys_eq_spec() -> bool {
        true
    }

    open spec fn eq_spec(&self, other: &Quantity) -> bool {
        self.spec_decimal().val() == other.spec_decimal().val()
    }
}

} // verus!
