//! Portfolio domain primitives: money, rate, quantity, gold unit
//! conversion, interest math, FIFO disposal, and lifecycle.
//!
//! Everything here is pure: no database, no network and no clock. The only
//! time-related input is the caller-supplied "today".

pub mod create;
pub mod disposal;
pub mod fifo;
pub mod gold;
pub mod interest;
pub mod lifecycle;
pub mod maturity;
pub mod money;
pub mod outbox;
pub mod providers;
pub mod quantity;
pub mod rate;
pub mod refresh;
pub mod replay;
pub mod rollover;
pub mod snapshot;
pub mod summary;
pub mod transfers;
pub mod valuation;

pub use fifo::{fifo_disposal_allocations, DisposalAllocation, Lot};
pub use gold::{grams_from_quantity, GoldUnit};
pub use interest::{compound_accrued, simple_accrued, simple_interest_only, InterestMethod, PayoutType};
pub use lifecycle::{next_status, LifecycleError, Transition};
pub use money::Money;
pub use quantity::Quantity;
pub use rate::Rate;

use crate::pb::service::portfolio as pb;
use crate::text::str_eq;
use vstd::prelude::*;

verus! {

/// Asset class. Maps 1:1 to the wire `PortfolioAssetClass` enum.
#[derive(Clone, Copy, Debug, PartialEq, Eq, Structural)]
pub enum AssetClass {
    SavingsAccount,
    FixedDeposit,
    GoldLot,
    StockLot,
}

impl AssetClass {
    pub open spec fn spec_as_str(self) -> Seq<char> {
        match self {
            AssetClass::SavingsAccount => "savings_account"@,
            AssetClass::FixedDeposit => "fixed_deposit"@,
            AssetClass::GoldLot => "gold_lot"@,
            AssetClass::StockLot => "stock_lot"@,
        }
    }

    pub open spec fn spec_to_proto(self) -> pb::PortfolioAssetClass {
        match self {
            AssetClass::SavingsAccount => pb::PortfolioAssetClass::SavingsAccount,
            AssetClass::FixedDeposit => pb::PortfolioAssetClass::FixedDeposit,
            AssetClass::GoldLot => pb::PortfolioAssetClass::GoldLot,
            AssetClass::StockLot => pb::PortfolioAssetClass::StockLot,
        }
    }

    pub open spec fn spec_from_proto(value: i32) -> Option<AssetClass> {
        match pb::PortfolioAssetClass::spec_from_code(value) {
            Some(pb::PortfolioAssetClass::SavingsAccount) => Some(AssetClass::SavingsAccount),
            Some(pb::PortfolioAssetClass::FixedDeposit) => Some(AssetClass::FixedDeposit),
            Some(pb::PortfolioAssetClass::GoldLot) => Some(AssetClass::GoldLot),
            Some(pb::PortfolioAssetClass::StockLot) => Some(AssetClass::StockLot),
            _ => None,
        }
    }

    pub fn as_str(&self) -> (r: &'static str)
        ensures
            r@ == self.spec_as_str(),
    {
        match self {
            AssetClass::SavingsAccount => "savings_account",
            AssetClass::FixedDeposit => "fixed_deposit",
            AssetClass::GoldLot => "gold_lot",
            AssetClass::StockLot => "stock_lot",
        }
    }

    pub fn from_proto(value: i32) -> (r: Option<AssetClass>)
        ensures
            r == Self::spec_from_proto(value),
    {
        match pb::PortfolioAssetClass::from_code(value) {
            Some(pb::PortfolioAssetClass::SavingsAccount) => Some(AssetClass::SavingsAccount),
            Some(pb::PortfolioAssetClass::FixedDeposit) => Some(AssetClass::FixedDeposit),
            Some(pb::PortfolioAssetClass::GoldLot) => Some(AssetClass::GoldLot),
            Some(pb::PortfolioAssetClass::StockLot) => Some(AssetClass::StockLot),
            _ => None,
        }
    }

    pub fn to_proto(self) -> (r: i32)
        ensures
            r == self.spec_to_proto().spec_code(),
    {
        match self {
            AssetClass::SavingsAccount => pb::PortfolioAssetClass::SavingsAccount.code(),
            AssetClass::FixedDeposit => pb::PortfolioAssetClass::FixedDeposit.code(),
            AssetClass::GoldLot => pb::PortfolioAssetClass::GoldLot.code(),
            AssetClass::StockLot => pb::PortfolioAssetClass::StockLot.code(),
        }
    }
}

/// Converting an asset class to its wire number and back gives the same class.
pub proof fn lemma_asset_class_proto_round_trip(c: AssetClass)
    ensures
        AssetClass::spec_from_proto(c.spec_to_proto().spec_code()) == Some(c),
{
}

/// Asset status. Maps 1:1 to the wire `PortfolioAssetStatus` enum.
#[derive(Clone, Copy, Debug, PartialEq, Eq, Structural)]
pub enum AssetStatus {
    Active,
    Closed,
    Matured,
    Sold,
    Archived,
    RolledOver,
    Withdrawn,
    EarlyClosed,
}

impl AssetStatus {
    pub open spec fn spec_as_str(self) -> Seq<char> {
        match self {
            AssetStatus::Active => "active"@,
            AssetStatus::Closed => "closed"@,
            AssetStatus::Matured => "matured"@,
            AssetStatus::Sold => "sold"@,
            AssetStatus::Archived => "archived"@,
            AssetStatus::RolledOver => "rolled_over"@,
            AssetStatus::Withdrawn => "withdrawn"@,
            AssetStatus::EarlyClosed => "early_closed"@,
        }
    }

    /// Unknown text reads as `Active`; transitions are enforced on mutation.
    pub open spec fn spec_from_db(value: Seq<char>) -> AssetStatus {
        if value == "closed"@ {
            AssetStatus::Closed
        } else if value == "matured"@ {
            AssetStatus::Matured
        } else if value == "sold"@ {
            AssetStatus::Sold
        } else if value == "archived"@ {
            AssetStatus::Archived
        } else if value == "rolled_over"@ {
            AssetStatus::RolledOver
        } else if value == "withdrawn"@ {
            AssetStatus::Withdrawn
        } else if value == "early_closed"@ {
            AssetStatus::EarlyClosed
        } else {
            AssetStatus::Active
        }
    }

    pub fn as_str(&self) -> (r: &'static str)
        ensures
            r@ == self.spec_as_str(),
    {
        match self {
            AssetStatus::Active => "active",
            AssetStatus::Closed => "closed",
            AssetStatus::Matured => "matured",
            AssetStatus::Sold => "sold",
            AssetStatus::Archived => "archived",
            AssetStatus::RolledOver => "rolled_over",
            AssetStatus::Withdrawn => "withdrawn",
            AssetStatus::EarlyClosed => "early_closed",
        }
    }

    pub fn from_db(value: &str) -> (r: AssetStatus)
        ensures
            r == Self::spec_from_db(value@),
    {
        if str_eq(value, "closed") {
            AssetStatus::Closed
        } else if str_eq(value, "matured") {
            AssetStatus::Matured
        } else if str_eq(value, "sold") {
            AssetStatus::Sold
        } else if str_eq(value, "archived") {
            AssetStatus::Archived
        } else if str_eq(value, "rolled_over") {
            AssetStatus::RolledOver
        } else if str_eq(value, "withdrawn") {
            AssetStatus::Withdrawn
        } else if str_eq(value, "early_closed") {
            AssetStatus::EarlyClosed
        } else {
            AssetStatus::Active
        }
    }

    pub fn to_db(self) -> (r: &'static str)
        ensures
            r@ == self.spec_as_str(),
    {
        self.as_str()
    }
}

/// Writing a status to the database and reading it back gives the same status.
pub proof fn lemma_asset_status_db_round_trip(s: AssetStatus)
    ensures
        AssetStatus::spec_from_db(s.spec_as_str()) == s,
{
    reveal_strlit("active");
    reveal_strlit("closed");
    reveal_strlit("matured");
    reveal_strlit("sold");
    reveal_strlit("archived");
    reveal_strlit("rolled_over");
    reveal_strlit("withdrawn");
    reveal_strlit("early_closed");
    match s {
        AssetStatus::Active => {
            assert("active"@[0] != "closed"@[0]);
            assert("active"@[0] != "matured"@[0]);
            assert("active"@[0] != "sold"@[0]);
            assert("active"@[1] != "archived"@[1]);
            assert("active"@[0] != "rolled_over"@[0]);
            assert("active"@[0] != "withdrawn"@[0]);
            assert("active"@[0] != "early_closed"@[0]);
        },
        AssetStatus::Closed => {
        },
        AssetStatus::Matured => {
            assert("matured"@[0] != "closed"@[0]);
        },
        AssetStatus::Sold => {
            assert("sold"@[0] != "closed"@[0]);
            assert("sold"@[0] != "matured"@[0]);
        },
        AssetStatus::Archived => {
            assert("archived"@[0] != "closed"@[0]);
            assert("archived"@[0] != "matured"@[0]);
            assert("archived"@[0] != "sold"@[0]);
        },
        AssetStatus::RolledOver => {
            assert("rolled_over"@[0] != "closed"@[0]);
            assert("rolled_over"@[0] != "matured"@[0]);
            assert("rolled_over"@[0] != "sold"@[0]);
            assert("rolled_over"@[0] != "archived"@[0]);
        },
        AssetStatus::Withdrawn => {
            assert("withdrawn"@[0] != "closed"@[0]);
            assert("withdrawn"@[0] != "matured"@[0]);
            assert("withdrawn"@[0] != "sold"@[0]);
            assert("withdrawn"@[0] != "archived"@[0]);
            assert("withdrawn"@[0] != "rolled_over"@[0]);
        },
        AssetStatus::EarlyClosed => {
            assert("early_closed"@[0] != "closed"@[0]);
            assert("early_closed"@[0] != "matured"@[0]);
            assert("early_closed"@[0] != "sold"@[0]);
            assert("early_closed"@[0] != "archived"@[0]);
            assert("early_closed"@[0] != "rolled_over"@[0]);
            assert("early_closed"@[0] != "withdrawn"@[0]);
        },
    }
}

/// Quote side (bid / ask / mid) of a price observation.
#[derive(Clone, Copy, Debug, PartialEq, Eq, Structural)]
pub enum PriceSide {
    Bid,
    Ask,
    Mid,
}

impl PriceSide {
    pub open spec fn spec_as_str(self) -> Seq<char> {
        match self {
            PriceSide::Bid => "bid"@,
            PriceSide::Ask => "ask"@,
            PriceSide::Mid => "mid"@,
        }
    }

    /// Unknown text reads as `Mid`.
    pub open spec fn spec_from_db(value: Seq<char>) -> PriceSide {
        if value == "bid"@ {
            PriceSide::Bid
        } else if value == "ask"@ {
            PriceSide::Ask
        } else {
            PriceSide::Mid
        }
    }

    pub fn from_db(value: &str) -> (r: PriceSide)
        ensures
            r == Self::spec_from_db(value@),
    {
        if str_eq(value, "bid") {
            PriceSide::Bid
        } else if str_eq(value, "ask") {
            PriceSide::Ask
        } else {
            PriceSide::Mid
        }
    }

    pub fn to_db(self) -> (r: &'static str)
        ensures
            r@ == self.spec_as_str(),
    {
        match self {
            PriceSide::Bid => "bid",
            PriceSide::Ask => "ask",
            PriceSide::Mid => "mid",
        }
    }
}

/// Writing a price side to the database and reading it back gives the same side.
pub proof fn lemma_price_side_db_round_trip(s: PriceSide)
    ensures
        PriceSide::spec_from_db(s.spec_as_str()) == s,
{
    reveal_strlit("bid");
    reveal_strlit("ask");
    reveal_strlit("mid");
    match s {
        PriceSide::Bid => {
        },
        PriceSide::Ask => {
            assert("ask"@[0] != "bid"@[0]);
        },
        PriceSide::Mid => {
            assert("mid"@[0] != "bid"@[0]);
            assert("mid"@[0] != "ask"@[0]);
        },
    }
}

/// Age, in seconds, up to which a price observation counts as fresh (7 days).
pub open spec fn fresh_window_secs() -> int {
    604800
}

/// Freshness of the latest price of an asset.
#[derive(Clone, Copy, Debug, PartialEq, Eq, Structural)]
pub enum PriceFreshness {
    Fresh,
    Stale,
    Unpriced,
}

impl PriceFreshness {
    pub open spec fn spec_from_age_seconds(age_seconds: i64, has_observation: bool) -> PriceFreshness {
        if !has_observation {
            PriceFreshness::Unpriced
        } else if age_seconds <= fresh_window_secs() {
            PriceFreshness::Fresh
        } else {
            PriceFreshness::Stale
        }
    }

    /// Freshness from the age of the latest observation: unpriced without
    /// one, fresh up to seven days, stale after.
    pub fn from_age_seconds(age_seconds: i64, has_observation: bool) -> (r: PriceFreshness)
        ensures
            r == Self::spec_from_age_seconds(age_seconds, has_observation),
    {
        if !has_observation {
            return PriceFreshness::Unpriced;
        }
        if age_seconds <= 604800 {
            PriceFreshness::Fresh
        } else {
            PriceFreshness::Stale
        }
    }

    pub open spec fn spec_code(self) -> i32 {
        match self {
            PriceFreshness::Fresh => 0,
            PriceFreshness::Stale => 1,
            PriceFreshness::Unpriced => 2,
        }
    }

    /// The number that stands for this freshness in valuations.
    pub fn code(self) -> (r: i32)
        ensures
            r == self.spec_code(),
    {
        match self {
            PriceFreshness::Fresh => 0,
            PriceFreshness::Stale => 1,
            PriceFreshness::Unpriced => 2,
        }
    }
}

/// Freshness never improves with age: an observation that is stale stays
/// stale when it gets older, and a fresh one was fresh at every younger age.
pub proof fn lemma_freshness_monotone(a: i64, b: i64)
    requires
        a <= b,
    ensures
        PriceFreshness::spec_from_age_seconds(b, true) == PriceFreshness::Fresh
            ==> PriceFreshness::spec_from_age_seconds(a, true) == PriceFreshness::Fresh,
{
}

} // verus!
