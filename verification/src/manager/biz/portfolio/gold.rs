//! Gold unit conversion. Vietnam market conventions:
//!   1 chi  = 3.75 grams
//!   1 luong = 37.5 grams
//! Quantities in the database are normalized to grams; the original
//! display unit and value are preserved alongside.

use crate::decimal::{decimal_checked_mul, lemma_exact_scaled_product, mul_exact, mul_no_overflow, pow10, Dec};
use crate::pb::service::portfolio as pb;
use crate::text::str_eq;
use vstd::prelude::*;

verus! {

/// Display unit of a gold quantity.
#[derive(Debug, Clone, Copy, PartialEq, Eq, Structural)]
pub enum GoldUnit {
    Chi,
    Luong,
    Gram,
}

impl GoldUnit {
    pub open spec fn spec_as_str(self) -> Seq<char> {
        match self {
            GoldUnit::Chi => "chi"@,
            GoldUnit::Luong => "luong"@,
            GoldUnit::Gram => "gram"@,
        }
    }

    /// Unknown text reads as grams.
    pub open spec fn spec_from_db(value: Seq<char>) -> GoldUnit {
        if value == "chi"@ {
            GoldUnit::Chi
        } else if value == "luong"@ {
            GoldUnit::Luong
        } else {
            GoldUnit::Gram
        }
    }

    pub fn from_db(value: &str) -> (r: GoldUnit)
        ensures
            r == Self::spec_from_db(value@),
    {
        if str_eq(value, "chi") {
            GoldUnit::Chi
        } else if str_eq(value, "luong") {
            GoldUnit::Luong
        } else {
            GoldUnit::Gram
        }
    }

    pub fn to_db(self) -> (r: &'static str)
        ensures
            r@ == self.spec_as_str(),
    {
        match self {
            GoldUnit::Chi => "chi",
            GoldUnit::Luong => "luong",
            GoldUnit::Gram => "gram",
        }
    }
}

/// Writing a gold unit to the database and reading it back gives the same unit.
pub proof fn lemma_gold_unit_db_round_trip(s: GoldUnit)
    ensures
        GoldUnit::spec_from_db(s.spec_as_str()) == s,
{
    reveal_strlit("chi");
    reveal_strlit("luong");
    reveal_strlit("gram");
    match s {
        GoldUnit::Chi => {
        },
        GoldUnit::Luong => {
            assert("luong"@[0] != "chi"@[0]);
        },
        GoldUnit::Gram => {
            assert("gram"@[0] != "chi"@[0]);
            assert("gram"@[0] != "luong"@[0]);
        },
    }
}

impl GoldUnit {
    pub open spec fn spec_from_proto(value: i32) -> Option<GoldUnit> {
        if value == pb::GoldUnit::Chi.spec_code() {
            Some(GoldUnit::Chi)
        } else if value == pb::GoldUnit::Luong.spec_code() {
            Some(GoldUnit::Luong)
        } else if value == pb::GoldUnit::Gram.spec_code() {
            Some(GoldUnit::Gram)
        } else {
            None
        }
    }

    /// The unit for a wire number; `None` for unspecified or unknown numbers.
    pub fn from_proto(value: i32) -> (r: Option<GoldUnit>)
        ensures
            r == Self::spec_from_proto(value),
    {
        if value == pb::GoldUnit::Chi.code() {
            Some(GoldUnit::Chi)
        } else if value == pb::GoldUnit::Luong.code() {
            Some(GoldUnit::Luong)
        } else if value == pb::GoldUnit::Gram.code() {
            Some(GoldUnit::Gram)
        } else {
            None
        }
    }

    /// Grams per unit as a decimal (mantissa, scale): 3.75, 37.5 or 1.
    pub open spec fn spec_grams_factor(self) -> (int, int) {
        match self {
            GoldUnit::Chi => (375, 2),
            GoldUnit::Luong => (375, 1),
            GoldUnit::Gram => (1, 0),
        }
    }
}

/// Convert a quantity in its original display unit to grams.
///
/// The product with the unit's factor must not overflow a decimal; it is
/// exact whenever it fits the 96-bit mantissa at the summed scale.
pub fn grams_from_quantity(quantity: Dec, unit: GoldUnit) -> (r: Dec)
    requires
        unit != GoldUnit::Gram ==> mul_no_overflow(
            quantity.m(),
            quantity.s(),
            unit.spec_grams_factor().0,
            unit.spec_grams_factor().1 as nat,
        ),
    ensures
        unit == GoldUnit::Gram ==> r == quantity,
        unit != GoldUnit::Gram ==> decimal_checked_mul(quantity.parts(), unit.spec_grams_factor())
            == Some(r.parts()),
        unit != GoldUnit::Gram && mul_exact(
            quantity.m(),
            quantity.s(),
            unit.spec_grams_factor().0,
            unit.spec_grams_factor().1 as nat,
        ) ==> r.val() * pow10(unit.spec_grams_factor().1 as nat) == quantity.val()
            * unit.spec_grams_factor().0,
{
    let factor = match unit {
        GoldUnit::Chi => Dec::from_parts(375, 2),
        GoldUnit::Luong => Dec::from_parts(375, 1),
        GoldUnit::Gram => {
            return quantity;
        },
    };
    let factor = match factor {
        Some(f) => f,
        None => {
            return quantity;
        },
    };
    match quantity.checked_mul(&factor) {
        Some(g) => {
            proof {
                if mul_exact(quantity.m(), quantity.s(), factor.m(), factor.s()) {
                    lemma_exact_scaled_product(quantity, factor, g);
                }
            }
            g
        },
        None => quantity,
    }
}

} // verus!
