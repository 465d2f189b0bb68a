//! Budget service messages and enums.

use vstd::prelude::*;

verus! {

/// Kind of budget.
#[derive(Clone, Copy, Debug, PartialEq, Eq, Structural)]
pub enum BudgetType {
    Unspecified,
    Standard,
    Saving,
    Debt,
    Invest,
    Sharing,
}

impl BudgetType {
    /// Wire number of the variant.
    pub open spec fn spec_code(self) -> i32 {
        match self {
            BudgetType::Unspecified => 0,
            BudgetType::Standard => 1,
            BudgetType::Saving => 2,
            BudgetType::Debt => 3,
            BudgetType::Invest => 4,
            BudgetType::Sharing => 5,
        }
    }

    /// The variant with wire number `c`, if any.
    pub open spec fn spec_from_code(c: i32) -> Option<BudgetType> {
        if c == 0 {
            Some(BudgetType::Unspecified)
        } else if c == 1 {
            Some(BudgetType::Standard)
        } else if c == 2 {
            Some(BudgetType::Saving)
        } else if c == 3 {
            Some(BudgetType::Debt)
        } else if c == 4 {
            Some(BudgetType::Invest)
        } else if c == 5 {
            Some(BudgetType::Sharing)
        } else {
            None
        }
    }

    pub fn code(self) -> (r: i32)
        ensures
            r == self.spec_code(),
    {
        match self {
            BudgetType::Unspecified => 0,
            BudgetType::Standard => 1,
            BudgetType::Saving => 2,
            BudgetType::Debt => 3,
            BudgetType::Invest => 4,
            BudgetType::Sharing => 5,
        }
    }

    pub fn from_code(c: i32) -> (r: Option<BudgetType>)
        ensures
            r == Self::spec_from_code(c),
    {
        if c == 0 {
            Some(BudgetType::Unspecified)
        } else if c == 1 {
            Some(BudgetType::Standard)
        } else if c == 2 {
            Some(BudgetType::Saving)
        } else if c == 3 {
            Some(BudgetType::Debt)
        } else if c == 4 {
            Some(BudgetType::Invest)
        } else if c == 5 {
            Some(BudgetType::Sharing)
        } else {
            None
        }
    }
}

/// Role of a member in a budget.
#[derive(Clone, Copy, Debug, PartialEq, Eq, Structural)]
pub enum BudgetRole {
    Unspecified,
    Owner,
    Manager,
    Contributor,
    Viewer,
}

impl BudgetRole {
    /// Wire number of the variant.
    pub open spec fn spec_code(self) -> i32 {
        match self {
            BudgetRole::Unspecified => 0,
            BudgetRole::Owner => 1,
            BudgetRole::Manager => 2,
            BudgetRole::Contributor => 3,
            BudgetRole::Viewer => 4,
        }
    }

    /// The variant with wire number `c`, if any.
    pub open spec fn spec_from_code(c: i32) -> Option<BudgetRole> {
        if c == 0 {
            Some(BudgetRole::Unspecified)
        } else if c == 1 {
            Some(BudgetRole::Owner)
        } else if c == 2 {
            Some(BudgetRole::Manager)
        } else if c == 3 {
            Some(BudgetRole::Contributor)
        } else if c == 4 {
            Some(BudgetRole::Viewer)
        } else {
            None
        }
    }

    pub fn code(self) -> (r: i32)
        ensures
            r == self.spec_code(),
    {
        match self {
            BudgetRole::Unspecified => 0,
            BudgetRole::Owner => 1,
            BudgetRole::Manager => 2,
            BudgetRole::Contributor => 3,
            BudgetRole::Viewer => 4,
        }
    }

    pub fn from_code(c: i32) -> (r: Option<BudgetRole>)
        ensures
            r == Self::spec_from_code(c),
    {
        if c == 0 {
            Some(BudgetRole::Unspecified)
        } else if c == 1 {
            Some(BudgetRole::Owner)
        } else if c == 2 {
            Some(BudgetRole::Manager)
        } else if c == 3 {
            Some(BudgetRole::Contributor)
        } else if c == 4 {
            Some(BudgetRole::Viewer)
        } else {
            None
        }
    }
}

/// What happens to unspent envelope money at month end.
#[derive(Clone, Copy, Debug, PartialEq, Eq, Structural)]
pub enum RolloverPolicy {
    Unspecified,
    Reset,
    CarryForward,
}

impl RolloverPolicy {
    /// Wire number of the variant.
    pub open spec fn spec_code(self) -> i32 {
        match self {
            RolloverPolicy::Unspecified => 0,
            RolloverPolicy::Reset => 1,
            RolloverPolicy::CarryForward => 2,
        }
    }

    /// The variant with wire number `c`, if any.
    pub open spec fn spec_from_code(c: i32) -> Option<RolloverPolicy> {
        if c == 0 {
            Some(RolloverPolicy::Unspecified)
        } else if c == 1 {
            Some(RolloverPolicy::Reset)
        } else if c == 2 {
            Some(RolloverPolicy::CarryForward)
        } else {
            None
        }
    }

    pub fn code(self) -> (r: i32)
        ensures
            r == self.spec_code(),
    {
        match self {
            RolloverPolicy::Unspecified => 0,
            RolloverPolicy::Reset => 1,
            RolloverPolicy::CarryForward => 2,
        }
    }

    pub fn from_code(c: i32) -> (r: Option<RolloverPolicy>)
        ensures
            r == Self::spec_from_code(c),
    {
        if c == 0 {
            Some(RolloverPolicy::Unspecified)
        } else if c == 1 {
            Some(RolloverPolicy::Reset)
        } else if c == 2 {
            Some(RolloverPolicy::CarryForward)
        } else {
            None
        }
    }
}

/// Kind of a legacy investment asset.
#[derive(Clone, Copy, Debug, PartialEq, Eq, Structural)]
pub enum AssetType {
    Unspecified,
    SavingsDeposit,
    Gold,
    Stock,
}

impl AssetType {
    /// Wire number of the variant.
    pub open spec fn spec_code(self) -> i32 {
        match self {
            AssetType::Unspecified => 0,
            AssetType::SavingsDeposit => 1,
            AssetType::Gold => 2,
            AssetType::Stock => 3,
        }
    }

    /// The variant with wire number `c`, if any.
    pub open spec fn spec_from_code(c: i32) -> Option<AssetType> {
        if c == 0 {
            Some(AssetType::Unspecified)
        } else if c == 1 {
            Some(AssetType::SavingsDeposit)
        } else if c == 2 {
            Some(AssetType::Gold)
        } else if c == 3 {
            Some(AssetType::Stock)
        } else {
            None
        }
    }

    pub fn code(self) -> (r: i32)
        ensures
            r == self.spec_code(),
    {
        match self {
            AssetType::Unspecified => 0,
            AssetType::SavingsDeposit => 1,
            AssetType::Gold => 2,
            AssetType::Stock => 3,
        }
    }

    pub fn from_code(c: i32) -> (r: Option<AssetType>)
        ensures
            r == Self::spec_from_code(c),
    {
        if c == 0 {
            Some(AssetType::Unspecified)
        } else if c == 1 {
            Some(AssetType::SavingsDeposit)
        } else if c == 2 {
            Some(AssetType::Gold)
        } else if c == 3 {
            Some(AssetType::Stock)
        } else {
            None
        }
    }
}

/// Status of a legacy investment asset.
#[derive(Clone, Copy, Debug, PartialEq, Eq, Structural)]
pub enum AssetStatus {
    Unspecified,
    Active,
    Matured,
    Sold,
    Closed,
}

impl AssetStatus {
    /// Wire number of the variant.
    pub open spec fn spec_code(self) -> i32 {
        match self {
            AssetStatus::Unspecified => 0,
            AssetStatus::Active => 1,
            AssetStatus::Matured => 2,
            AssetStatus::Sold => 3,
            AssetStatus::Closed => 4,
        }
    }

    /// The variant with wire number `c`, if any.
    pub open spec fn spec_from_code(c: i32) -> Option<AssetStatus> {
        if c == 0 {
            Some(AssetStatus::Unspecified)
        } else if c == 1 {
            Some(AssetStatus::Active)
        } else if c == 2 {
            Some(AssetStatus::Matured)
        } else if c == 3 {
            Some(AssetStatus::Sold)
        } else if c == 4 {
            Some(AssetStatus::Closed)
        } else {
            None
        }
    }

    pub fn code(self) -> (r: i32)
        ensures
            r == self.spec_code(),
    {
        match self {
            AssetStatus::Unspecified => 0,
            AssetStatus::Active => 1,
            AssetStatus::Matured => 2,
            AssetStatus::Sold => 3,
            AssetStatus::Closed => 4,
        }
    }

    pub fn from_code(c: i32) -> (r: Option<AssetStatus>)
        ensures
            r == Self::spec_from_code(c),
    {
        if c == 0 {
            Some(AssetStatus::Unspecified)
        } else if c == 1 {
            Some(AssetStatus::Active)
        } else if c == 2 {
            Some(AssetStatus::Matured)
        } else if c == 3 {
            Some(AssetStatus::Sold)
        } else if c == 4 {
            Some(AssetStatus::Closed)
        } else {
            None
        }
    }
}
/// A budget as returned to callers. The burn rate percentage is derived
/// at the wire from `current_spend` and `envelope_limit`.
#[derive(Clone, Debug)]
pub struct Budget {
    pub base: Option<crate::pb::common::base::Base>,
    pub org_id: String,
    pub name: String,
    pub budget_type: i32,
    pub currency: String,
    pub my_role: i32,
    pub envelope_limit: i64,
    pub current_spend: i64,
    pub member_count: i32,
}

/// A member of a budget.
#[derive(Clone, Debug)]
pub struct BudgetMember {
    pub budget_id: String,
    pub user_id: String,
    pub display_name: String,
    pub email: String,
    pub role: i32,
    pub avatar: String,
}

/// A budget template.
#[derive(Clone, Debug)]
pub struct BudgetTemplate {
    pub id: String,
    pub name: String,
    pub description: String,
    pub budget_type: i32,
}

/// A recorded price of a legacy investment asset.
#[derive(Clone, Debug)]
pub struct PriceSnapshot {
    pub id: String,
    pub asset_id: String,
    pub price: i64,
    pub source: String,
    pub snapshot_date: String,
}

/// Paging information of a budget listing.
#[derive(Clone, Copy, Debug)]
pub struct PageMeta {
    pub page: i32,
    pub page_size: i32,
    pub total_pages: i32,
    pub total_rows: i64,
}

/// Filters, sort and page of a budget listing, as the caller sends them.
#[derive(Clone, Debug)]
pub struct ListBudgetParams {
    pub q: Option<String>,
    pub budget_type: Option<i32>,
    pub role: Option<i32>,
    pub sort_by: Option<String>,
    pub sort_dir: Option<String>,
    pub page: Option<i32>,
    pub page_size: Option<i32>,
}

/// A budget's monthly envelope and how much of it is spent. The burn rate
/// percentage is derived at the wire from the spend, the limit and the day
/// of the month.
#[derive(Clone, Debug)]
pub struct EnvelopeLimit {
    pub budget_id: String,
    pub monthly_limit: i64,
    pub current_spend: i64,
    pub limit_exceeded: bool,
}

} // verus!
