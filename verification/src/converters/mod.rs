//! Database rows of budgets and legacy invest assets, and their mapping
//! to wire messages, with the text codes of the enums as stored.

pub mod portfolio;
pub mod requests;

use crate::pb::common::base::Base;
use crate::pb::service::budget::{
    AssetStatus, AssetType, Budget, BudgetMember, BudgetRole, BudgetType, PriceSnapshot,
    RolloverPolicy,
};
use crate::text::{opt_text, str_eq, string_or_empty};
use vstd::prelude::*;

verus! {

// ---------------------------------------------------------------------------
// DB row structs
// ---------------------------------------------------------------------------

/// A budget row, with what the joins add for the reading user.
#[derive(Debug, Clone)]
pub struct DbBudget {
    pub id: String,
    pub org_id: String,
    pub name: String,
    pub budget_type: String,
    pub currency: String,
    pub status: String,
    pub created_by: String,
    pub created_at: i64,
    pub updated_at: i64,
    pub deleted_at: Option<i64>,
    /// The reading user's role, from the members join.
    pub my_role: Option<String>,
    /// Envelope limit (0 if not set).
    pub envelope_limit: Option<i64>,
    /// Member count for this budget.
    pub member_count: Option<i32>,
    /// Current month spend for this budget.
    pub current_spend: Option<i64>,
}

/// A budget member row, with the user's profile when one exists.
#[derive(Debug, Clone)]
pub struct DbBudgetMember {
    pub budget_id: String,
    pub user_id: String,
    pub role: String,
    pub display_name: Option<String>,
    pub email: Option<String>,
    pub avatar: Option<String>,
}

/// A budget template row.
#[derive(Debug, Clone)]
pub struct DbTemplate {
    pub id: String,
    pub name: String,
    pub description: Option<String>,
    pub budget_type: String,
}

// ---------------------------------------------------------------------------
// String <-> enum helpers (single source of truth)
// ---------------------------------------------------------------------------


pub open spec fn spec_budget_type_to_db(t: BudgetType) -> Seq<char> {
    match t {
        BudgetType::Standard => "standard"@,
        BudgetType::Saving => "saving"@,
        BudgetType::Debt => "debt"@,
        BudgetType::Invest => "invest"@,
        BudgetType::Sharing => "sharing"@,
        BudgetType::Unspecified => "standard"@,
    }
}

/// Stored text of a budget type; unspecified is stored as `standard`.
pub fn budget_type_to_db(t: BudgetType) -> (r: &'static str)
    ensures
        r@ == spec_budget_type_to_db(t),
{
    match t {
        BudgetType::Standard => "standard",
        BudgetType::Saving => "saving",
        BudgetType::Debt => "debt",
        BudgetType::Invest => "invest",
        BudgetType::Sharing => "sharing",
        BudgetType::Unspecified => "standard",
    }
}

pub open spec fn spec_budget_type_from_db(s: Seq<char>) -> BudgetType {
    if s == "standard"@ {
        BudgetType::Standard
    } else if s == "saving"@ {
        BudgetType::Saving
    } else if s == "debt"@ {
        BudgetType::Debt
    } else if s == "invest"@ {
        BudgetType::Invest
    } else if s == "sharing"@ {
        BudgetType::Sharing
    } else {
        BudgetType::Unspecified
    }
}

/// Budget type of stored text; unknown text is unspecified.
pub fn budget_type_from_db(s: &str) -> (r: BudgetType)
    ensures
        r == spec_budget_type_from_db(s@),
{
    if str_eq(s, "standard") {
        BudgetType::Standard
    } else if str_eq(s, "saving") {
        BudgetType::Saving
    } else if str_eq(s, "debt") {
        BudgetType::Debt
    } else if str_eq(s, "invest") {
        BudgetType::Invest
    } else if str_eq(s, "sharing") {
        BudgetType::Sharing
    } else {
        BudgetType::Unspecified
    }
}

pub open spec fn spec_budget_role_to_db(r: BudgetRole) -> Seq<char> {
    match r {
        BudgetRole::Owner => "owner"@,
        BudgetRole::Manager => "manager"@,
        BudgetRole::Contributor => "contributor"@,
        BudgetRole::Viewer => "viewer"@,
        BudgetRole::Unspecified => "viewer"@,
    }
}

/// Stored text of a role; unspecified is stored as `viewer`.
pub fn budget_role_to_db(r: BudgetRole) -> (res: &'static str)
    ensures
        res@ == spec_budget_role_to_db(r),
{
    match r {
        BudgetRole::Owner => "owner",
        BudgetRole::Manager => "manager",
        BudgetRole::Contributor => "contributor",
        BudgetRole::Viewer => "viewer",
        BudgetRole::Unspecified => "viewer",
    }
}

pub open spec fn spec_budget_role_from_db(s: Seq<char>) -> BudgetRole {
    if s == "owner"@ {
        BudgetRole::Owner
    } else if s == "manager"@ {
        BudgetRole::Manager
    } else if s == "contributor"@ {
        BudgetRole::Contributor
    } else if s == "viewer"@ {
        BudgetRole::Viewer
    } else {
        BudgetRole::Unspecified
    }
}

/// Role of stored text; unknown text is unspecified.
pub fn budget_role_from_db(s: &str) -> (r: BudgetRole)
    ensures
        r == spec_budget_role_from_db(s@),
{
    if str_eq(s, "owner") {
        BudgetRole::Owner
    } else if str_eq(s, "manager") {
        BudgetRole::Manager
    } else if str_eq(s, "contributor") {
        BudgetRole::Contributor
    } else if str_eq(s, "viewer") {
        BudgetRole::Viewer
    } else {
        BudgetRole::Unspecified
    }
}

pub open spec fn spec_rollover_policy_from_db(s: Seq<char>) -> RolloverPolicy {
    if s == "carry_forward"@ {
        RolloverPolicy::CarryForward
    } else {
        RolloverPolicy::Reset
    }
}

/// Rollover policy of stored text; anything but `carry_forward` is reset.
pub fn rollover_policy_from_db(s: &str) -> (r: RolloverPolicy)
    ensures
        r == spec_rollover_policy_from_db(s@),
{
    if str_eq(s, "carry_forward") {
        RolloverPolicy::CarryForward
    } else {
        RolloverPolicy::Reset
    }
}

pub open spec fn spec_rollover_policy_to_db(p: RolloverPolicy) -> Seq<char> {
    match p {
        RolloverPolicy::CarryForward => "carry_forward"@,
        RolloverPolicy::Reset => "reset"@,
        RolloverPolicy::Unspecified => "reset"@,
    }
}

/// Stored text of a rollover policy; unspecified is stored as `reset`.
pub fn rollover_policy_to_db(p: RolloverPolicy) -> (r: &'static str)
    ensures
        r@ == spec_rollover_policy_to_db(p),
{
    match p {
        RolloverPolicy::CarryForward => "carry_forward",
        RolloverPolicy::Reset => "reset",
        RolloverPolicy::Unspecified => "reset",
    }
}

/// Storing a budget type and reading it back gives the same type, except that unspecified comes back as standard.
pub proof fn lemma_budget_type_db_round_trip(t: BudgetType)
    ensures
        spec_budget_type_from_db(spec_budget_type_to_db(t)) == match t {
            BudgetType::Standard => BudgetType::Standard,
            BudgetType::Saving => BudgetType::Saving,
            BudgetType::Debt => BudgetType::Debt,
            BudgetType::Invest => BudgetType::Invest,
            BudgetType::Sharing => BudgetType::Sharing,
            BudgetType::Unspecified => BudgetType::Standard,
        },
{
    reveal_strlit("debt");
    reveal_strlit("invest");
    reveal_strlit("saving");
    reveal_strlit("sharing");
    reveal_strlit("standard");
    match t {
        BudgetType::Standard => {
        },
        BudgetType::Saving => {
            assert("saving"@[1] != "standard"@[1]);
        },
        BudgetType::Debt => {
            assert("debt"@[0] != "standard"@[0]);
            assert("debt"@[0] != "saving"@[0]);
        },
        BudgetType::Invest => {
            assert("invest"@[0] != "standard"@[0]);
            assert("invest"@[0] != "saving"@[0]);
            assert("invest"@[0] != "debt"@[0]);
        },
        BudgetType::Sharing => {
            assert("sharing"@[1] != "standard"@[1]);
            assert("sharing"@[1] != "saving"@[1]);
            assert("sharing"@[0] != "debt"@[0]);
            assert("sharing"@[0] != "invest"@[0]);
        },
        BudgetType::Unspecified => {
        },
    }
}

/// Storing a role and reading it back gives the same role, except that unspecified comes back as viewer.
pub proof fn lemma_budget_role_db_round_trip(t: BudgetRole)
    ensures
        spec_budget_role_from_db(spec_budget_role_to_db(t)) == match t {
            BudgetRole::Owner => BudgetRole::Owner,
            BudgetRole::Manager => BudgetRole::Manager,
            BudgetRole::Contributor => BudgetRole::Contributor,
            BudgetRole::Viewer => BudgetRole::Viewer,
            BudgetRole::Unspecified => BudgetRole::Viewer,
        },
{
    reveal_strlit("contributor");
    reveal_strlit("manager");
    reveal_strlit("owner");
    reveal_strlit("viewer");
    match t {
        BudgetRole::Owner => {
        },
        BudgetRole::Manager => {
            assert("manager"@[0] != "owner"@[0]);
        },
        BudgetRole::Contributor => {
            assert("contributor"@[0] != "owner"@[0]);
            assert("contributor"@[0] != "manager"@[0]);
        },
        BudgetRole::Viewer => {
            assert("viewer"@[0] != "owner"@[0]);
            assert("viewer"@[0] != "manager"@[0]);
            assert("viewer"@[0] != "contributor"@[0]);
        },
        BudgetRole::Unspecified => {
            assert("viewer"@[0] != "owner"@[0]);
            assert("viewer"@[0] != "manager"@[0]);
            assert("viewer"@[0] != "contributor"@[0]);
        },
    }
}

/// Storing a rollover policy and reading it back gives the same policy, except that unspecified comes back as reset.
pub proof fn lemma_rollover_policy_db_round_trip(t: RolloverPolicy)
    ensures
        spec_rollover_policy_from_db(spec_rollover_policy_to_db(t)) == match t {
            RolloverPolicy::CarryForward => RolloverPolicy::CarryForward,
            RolloverPolicy::Reset => RolloverPolicy::Reset,
            RolloverPolicy::Unspecified => RolloverPolicy::Reset,
        },
{
    reveal_strlit("carry_forward");
    reveal_strlit("reset");
    match t {
        RolloverPolicy::CarryForward => {
        },
        RolloverPolicy::Reset => {
            assert("reset"@[0] != "carry_forward"@[0]);
        },
        RolloverPolicy::Unspecified => {
            assert("reset"@[0] != "carry_forward"@[0]);
        },
    }
}


// ---------------------------------------------------------------------------
// DB row -> wire message converters
// ---------------------------------------------------------------------------

/// What `map_budget` returns for a row.
pub open spec fn spec_map_budget(db: DbBudget, r: Budget) -> bool {
    &&& r.base is Some
    &&& r.base.unwrap().id == db.id
    &&& r.base.unwrap().created_at == db.created_at
    &&& r.base.unwrap().updated_at == db.updated_at
    &&& r.base.unwrap().deleted_at == db.deleted_at.unwrap_or(0)
    &&& r.base.unwrap().created_by == db.created_by
    &&& r.base.unwrap().updated_by@ == Seq::<char>::empty()
    &&& r.base.unwrap().owner_id@ == Seq::<char>::empty()
    &&& r.base.unwrap().status == 0
    &&& r.org_id == db.org_id
    &&& r.name == db.name
    &&& r.budget_type == spec_budget_type_from_db(db.budget_type@).spec_code()
    &&& r.currency == db.currency
    &&& r.my_role == spec_budget_role_from_db(
        match db.my_role {
            Some(s) => s@,
            None => "viewer"@,
        },
    ).spec_code()
    &&& r.envelope_limit == db.envelope_limit.unwrap_or(0)
    &&& r.current_spend == db.current_spend.unwrap_or(0)
    &&& r.member_count == db.member_count.unwrap_or(0)
}

/// A budget row as a wire message. A missing role reads as viewer, missing
/// numbers as zero.
pub fn map_budget(db: DbBudget) -> (r: Budget)
    ensures
        spec_map_budget(db, r),
{
    let my_role = match &db.my_role {
        Some(s) => budget_role_from_db(s.as_str()),
        None => budget_role_from_db("viewer"),
    };
    let budget_type = budget_type_from_db(db.budget_type.as_str());
    Budget {
        base: Some(
            Base {
                id: db.id,
                created_at: db.created_at,
                updated_at: db.updated_at,
                deleted_at: db.deleted_at.unwrap_or(0),
                created_by: db.created_by,
                updated_by: String::new(),
                owner_id: String::new(),
                status: 0,
            },
        ),
        org_id: db.org_id,
        name: db.name,
        budget_type: budget_type.code(),
        currency: db.currency,
        my_role: my_role.code(),
        envelope_limit: db.envelope_limit.unwrap_or(0),
        current_spend: db.current_spend.unwrap_or(0),
        member_count: db.member_count.unwrap_or(0),
    }
}

/// The text held by an optional profile field, or `fallback` when the field
/// is missing or empty.
pub open spec fn text_or(o: Option<String>, fallback: Seq<char>) -> Seq<char> {
    match o {
        Some(s) => if s@.len() > 0 {
            s@
        } else {
            fallback
        },
        None => fallback,
    }
}

fn non_empty_or(o: Option<String>, fallback: &String) -> (r: String)
    ensures
        r@ == text_or(o, fallback@),
{
    match o {
        Some(s) => {
            if s.as_str().unicode_len() > 0 {
                s
            } else {
                fallback.clone()
            }
        },
        None => fallback.clone(),
    }
}

/// A member row as a wire message. A member who was invited but has not
/// registered yet has no profile: the user id then holds the invited email
/// and stands in for both the email and the display name.
pub fn map_budget_member(db: DbBudgetMember) -> (r: BudgetMember)
    ensures
        r.budget_id == db.budget_id,
        r.user_id == db.user_id,
        r.email@ == text_or(db.email, db.user_id@),
        r.display_name@ == text_or(db.display_name, db.user_id@),
        r.role == spec_budget_role_from_db(db.role@).spec_code(),
        r.avatar@ == opt_text(db.avatar),
{
    let email = non_empty_or(db.email, &db.user_id);
    let display_name = non_empty_or(db.display_name, &db.user_id);
    let role = budget_role_from_db(db.role.as_str());
    BudgetMember {
        budget_id: db.budget_id,
        user_id: db.user_id,
        display_name,
        email,
        role: role.code(),
        avatar: string_or_empty(db.avatar),
    }
}

// ---------------------------------------------------------------------------
// Legacy invest assets
// ---------------------------------------------------------------------------

/// A price snapshot row of a legacy invest asset.
#[derive(Debug, Clone)]
pub struct DbPriceSnapshot {
    pub id: String,
    pub asset_id: String,
    pub price: i64,
    pub source: String,
    pub snapshot_date: String,
    pub created_at: i64,
}


pub open spec fn spec_asset_type_to_db(t: AssetType) -> Seq<char> {
    match t {
        AssetType::SavingsDeposit => "savings_deposit"@,
        AssetType::Gold => "gold"@,
        AssetType::Stock => "stock"@,
        AssetType::Unspecified => "savings_deposit"@,
    }
}

/// Stored text of an invest asset type; unspecified is stored as `savings_deposit`.
pub fn asset_type_to_db(t: AssetType) -> (r: &'static str)
    ensures
        r@ == spec_asset_type_to_db(t),
{
    match t {
        AssetType::SavingsDeposit => "savings_deposit",
        AssetType::Gold => "gold",
        AssetType::Stock => "stock",
        AssetType::Unspecified => "savings_deposit",
    }
}

pub open spec fn spec_asset_type_from_db(s: Seq<char>) -> AssetType {
    if s == "savings_deposit"@ {
        AssetType::SavingsDeposit
    } else if s == "gold"@ {
        AssetType::Gold
    } else if s == "stock"@ {
        AssetType::Stock
    } else {
        AssetType::Unspecified
    }
}

/// Invest asset type of stored text; unknown text is unspecified.
pub fn asset_type_from_db(s: &str) -> (r: AssetType)
    ensures
        r == spec_asset_type_from_db(s@),
{
    if str_eq(s, "savings_deposit") {
        AssetType::SavingsDeposit
    } else if str_eq(s, "gold") {
        AssetType::Gold
    } else if str_eq(s, "stock") {
        AssetType::Stock
    } else {
        AssetType::Unspecified
    }
}

pub open spec fn spec_asset_status_to_db(s: AssetStatus) -> Seq<char> {
    match s {
        AssetStatus::Active => "active"@,
        AssetStatus::Matured => "matured"@,
        AssetStatus::Sold => "sold"@,
        AssetStatus::Closed => "closed"@,
        AssetStatus::Unspecified => "active"@,
    }
}

/// Stored text of an invest asset status; unspecified is stored as `active`.
pub fn asset_status_to_db(s: AssetStatus) -> (r: &'static str)
    ensures
        r@ == spec_asset_status_to_db(s),
{
    match s {
        AssetStatus::Active => "active",
        AssetStatus::Matured => "matured",
        AssetStatus::Sold => "sold",
        AssetStatus::Closed => "closed",
        AssetStatus::Unspecified => "active",
    }
}

pub open spec fn spec_asset_status_from_db(s: Seq<char>) -> AssetStatus {
    if s == "active"@ {
        AssetStatus::Active
    } else if s == "matured"@ {
        AssetStatus::Matured
    } else if s == "sold"@ {
        AssetStatus::Sold
    } else if s == "closed"@ {
        AssetStatus::Closed
    } else {
        AssetStatus::Unspecified
    }
}

/// Invest asset status of stored text; unknown text is unspecified.
pub fn asset_status_from_db(s: &str) -> (r: AssetStatus)
    ensures
        r == spec_asset_status_from_db(s@),
{
    if str_eq(s, "active") {
        AssetStatus::Active
    } else if str_eq(s, "matured") {
        AssetStatus::Matured
    } else if str_eq(s, "sold") {
        AssetStatus::Sold
    } else if str_eq(s, "closed") {
        AssetStatus::Closed
    } else {
        AssetStatus::Unspecified
    }
}

/// Storing an invest asset type and reading it back gives the same type, except that unspecified comes back as a savings deposit.
pub proof fn lemma_asset_type_db_round_trip(t: AssetType)
    ensures
        spec_asset_type_from_db(spec_asset_type_to_db(t)) == match t {
            AssetType::SavingsDeposit => AssetType::SavingsDeposit,
            AssetType::Gold => AssetType::Gold,
            AssetType::Stock => AssetType::Stock,
            AssetType::Unspecified => AssetType::SavingsDeposit,
        },
{
    reveal_strlit("gold");
    reveal_strlit("savings_deposit");
    reveal_strlit("stock");
    match t {
        AssetType::SavingsDeposit => {
        },
        AssetType::Gold => {
            assert("gold"@[0] != "savings_deposit"@[0]);
        },
        AssetType::Stock => {
            assert("stock"@[1] != "savings_deposit"@[1]);
            assert("stock"@[0] != "gold"@[0]);
        },
        AssetType::Unspecified => {
        },
    }
}

/// Storing an invest asset status and reading it back gives the same status, except that unspecified comes back as active.
pub proof fn lemma_asset_status_db_round_trip(t: AssetStatus)
    ensures
        spec_asset_status_from_db(spec_asset_status_to_db(t)) == match t {
            AssetStatus::Active => AssetStatus::Active,
            AssetStatus::Matured => AssetStatus::Matured,
            AssetStatus::Sold => AssetStatus::Sold,
            AssetStatus::Closed => AssetStatus::Closed,
            AssetStatus::Unspecified => AssetStatus::Active,
        },
{
    reveal_strlit("active");
    reveal_strlit("closed");
    reveal_strlit("matured");
    reveal_strlit("sold");
    match t {
        AssetStatus::Active => {
        },
        AssetStatus::Matured => {
            assert("matured"@[0] != "active"@[0]);
        },
        AssetStatus::Sold => {
            assert("sold"@[0] != "active"@[0]);
            assert("sold"@[0] != "matured"@[0]);
        },
        AssetStatus::Closed => {
            assert("closed"@[0] != "active"@[0]);
            assert("closed"@[0] != "matured"@[0]);
            assert("closed"@[0] != "sold"@[0]);
        },
        AssetStatus::Unspecified => {
        },
    }
}


/// A price snapshot row as a wire message.
pub fn map_price_snapshot(db: DbPriceSnapshot) -> (r: PriceSnapshot)
    ensures
        r.id == db.id,
        r.asset_id == db.asset_id,
        r.price == db.price,
        r.source == db.source,
        r.snapshot_date == db.snapshot_date,
{
    PriceSnapshot {
        id: db.id,
        asset_id: db.asset_id,
        price: db.price,
        source: db.source,
        snapshot_date: db.snapshot_date,
    }
}

} // verus!
