//! Money: an `i64` amount of minor currency units (e.g. 1 VND) with
//! overflow-aware arithmetic.

use vstd::prelude::*;

verus! {

/// An amount of minor currency units.
#[derive(Clone, Copy, Debug, PartialEq, Eq, Hash, Structural)]
pub struct Money(pub i64);

impl Money {
    /// No money.
    pub fn zero() -> (r: Money)
        ensures
            r.0 == 0,
    {
        Money(0)
    }

    pub fn from_minor(value: i64) -> (r: Money)
        ensures
            r.0 == value,
    {
        Money(value)
    }

    pub fn minor(self) -> (r: i64)
        ensures
            r == self.0,
    {
        self.0
    }

    pub fn is_positive(self) -> (r: bool)
        ensures
            r == (self.0 > 0),
    {
        self.0 > 0
    }

    pub fn is_non_negative(self) -> (r: bool)
        ensures
            r == (self.0 >= 0),
    {
        self.0 >= 0
    }

    /// The sum, or `None` when it leaves the `i64` range.
    pub fn checked_add(self, other: Money) -> (r: Option<Money>)
        ensures
            r == (if i64::MIN <= self.0 + other.0 <= i64::MAX {
                Some(Money((self.0 + other.0) as i64))
            } else {
                None::<Money>
            }),
    {
        match self.0.checked_add(other.0) {
            Some(v) => Some(Money(v)),
            None => None,
        }
    }

    /// The difference, or `None` when it leaves the `i64` range.
    pub fn checked_sub(self, other: Money) -> (r: Option<Money>)
        ensures
            r == (if i64::MIN <= self.0 - other.0 <= i64::MAX {
                Some(Money((self.0 - other.0) as i64))
            } else {
                None::<Money>
            }),
    {
        match self.0.checked_sub(other.0) {
            Some(v) => Some(Money(v)),
            None => None,
        }
    }

    /// The difference, clamped to the `i64` range.
    pub fn saturating_sub(self, other: Money) -> (r: Money)
        ensures
            r.0 == saturate(self.0 - other.0),
    {
        Money(saturating_sub_i64(self.0, other.0))
    }
}

/// Clamps an integer to the `i64` range.
pub open spec fn saturate(x: int) -> int {
    if x < i64::MIN {
        i64::MIN as int
    } else if x > i64::MAX {
        i64::MAX as int
    } else {
        x
    }
}

/// `a - b` clamped to the `i64` range (`i64::saturating_sub`).
pub fn saturating_sub_i64(a: i64, b: i64) -> (r: i64)
    ensures
        r == saturate(a - b),
{
    if b > 0 && a < i64::MIN + b {
        i64::MIN
    } else if b < 0 && a > i64::MAX + b {
        i64::MAX
    } else {
        a - b
    }
}

/// `a + b` clamped to the `i64` range (`i64::saturating_add`).
pub fn saturating_add_i64(a: i64, b: i64) -> (r: i64)
    ensures
        r == saturate(a + b),
{
    if b > 0 && a > i64::MAX - b {
        i64::MAX
    } else if b < 0 && a < i64::MIN - b {
        i64::MIN
    } else {
        a + b
    }
}

} // verus!
