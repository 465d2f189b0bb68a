//! Fixed deposit rollover.
//!
//! A rollover renews an active fixed deposit: the previous asset moves to
//! `ROLLED_OVER` and a new asset is created with `rollover_from_asset_id`
//! linking to its predecessor. Money does not move, so no transfer is
//! recorded. Re-rolling an asset that is no longer active is refused, and
//! rollover chains are bounded in depth.

use super::lifecycle::{spec_next_status, Transition};
use super::AssetStatus;
use crate::converters::portfolio::{
    AssetClassNew, DbFixedDeposit, DbPortfolioAsset, NewFixedDeposit, NewPortfolioAsset,
};
use crate::decimal::{decimal_text, Dec};
use crate::pb::service::portfolio as pb;
use crate::status::{is_status, Code, Status};
use crate::text::{int_to_text, str_eq};
use vstd::prelude::*;

verus! {

/// Deepest rollover chain that may be extended.
pub open spec fn max_rollover_chain_depth() -> int {
    5
}

/// The checks on a rollover request: both ids given, a maturity after
/// `today`, a principal that is not negative (zero keeps the old one), and
/// an annual rate that is not negative.
pub fn validate_rollover(
    budget_id: &str,
    asset_id: &str,
    new_maturity_date: i64,
    today: i64,
    new_principal: i64,
    new_annual_rate: Dec,
) -> (r: Result<(), Status>)
    ensures
        budget_id@.len() == 0 || asset_id@.len() == 0 ==> (r matches Err(s) && is_status(
            s,
            Code::InvalidArgument,
            "budget_id and asset_id are required"@,
        )),
        budget_id@.len() > 0 && asset_id@.len() > 0 && new_maturity_date <= today ==> (r matches Err(
            s,
        ) && is_status(s, Code::InvalidArgument, "new_maturity_date must be in the future"@)),
        budget_id@.len() > 0 && asset_id@.len() > 0 && new_maturity_date > today && new_principal
            < 0 ==> (r matches Err(s) && is_status(
            s,
            Code::InvalidArgument,
            "new_principal must be >= 0"@,
        )),
        budget_id@.len() > 0 && asset_id@.len() > 0 && new_maturity_date > today && new_principal
            >= 0 && new_annual_rate.val() < 0 ==> (r matches Err(s) && is_status(
            s,
            Code::InvalidArgument,
            "new_annual_rate must be >= 0"@,
        )),
        budget_id@.len() > 0 && asset_id@.len() > 0 && new_maturity_date > today && new_principal
            >= 0 && new_annual_rate.val() >= 0 ==> r is Ok,
{
    if budget_id.unicode_len() == 0 || asset_id.unicode_len() == 0 {
        return Err(Status::invalid_argument("budget_id and asset_id are required"));
    }
    if new_maturity_date <= today {
        return Err(Status::invalid_argument("new_maturity_date must be in the future"));
    }
    if new_principal < 0 {
        return Err(Status::invalid_argument("new_principal must be >= 0"));
    }
    if new_annual_rate.is_negative() {
        return Err(Status::invalid_argument("new_annual_rate must be >= 0"));
    }
    Ok(())
}

/// Only an active asset may be rolled over; the refusal names the stored
/// status.
pub fn check_rollover_status(status: &str) -> (r: Result<AssetStatus, Status>)
    ensures
        AssetStatus::spec_from_db(status@) == AssetStatus::Active ==> r == Ok::<AssetStatus, Status>(
            AssetStatus::RolledOver,
        ),
        AssetStatus::spec_from_db(status@) != AssetStatus::Active ==> (r matches Err(s) && is_status(
            s,
            Code::FailedPrecondition,
            "asset is in "@ + status@ + " state; only active assets can be rolled over"@,
        )),
        r matches Ok(next) ==> spec_next_status(AssetStatus::spec_from_db(status@), Transition::RollOver)
            == Some(next),
{
    let current = AssetStatus::from_db(status);
    if current != AssetStatus::Active {
        let msg = String::from_str("asset is in ").concat(status).concat(
            " state; only active assets can be rolled over",
        );
        return Err(Status { code: Code::FailedPrecondition, message: msg });
    }
    Ok(AssetStatus::RolledOver)
}

/// A walk up a rollover chain, one parent lookup at a time.
#[derive(Debug, Clone)]
pub struct ChainWalk {
    visited: Vec<String>,
    depth: u32,
}

/// What the walk needs next, or its verdict.
#[derive(Debug)]
pub enum ChainStep {
    /// Look up the parent of this asset.
    Lookup(String),
    /// The chain is short enough, or the refusal.
    Done(Result<(), Status>),
}

impl ChainWalk {
    pub closed spec fn spec_visited(self) -> Seq<Seq<char>> {
        self.visited@.map_values(|s: String| s@)
    }

    pub closed spec fn spec_depth(self) -> int {
        self.depth as int
    }

    /// The walk is within its bound and has visited one asset per level.
    pub closed spec fn wf(self) -> bool {
        &&& self.depth < max_rollover_chain_depth()
        &&& self.visited@.len() == self.depth + 1
    }

    /// Starts at the asset to roll over: its parent is looked up first.
    pub fn start(asset_id: &str) -> (r: (ChainWalk, ChainStep))
        ensures
            r.0.wf(),
            r.0.spec_depth() == 0,
            r.0.spec_visited() == seq![asset_id@],
            r.1 matches ChainStep::Lookup(id) && id@ == asset_id@,
    {
        let mut visited: Vec<String> = Vec::new();
        visited.push(String::from_str(asset_id));
        proof {
            assert(visited@.map_values(|s: String| s@) =~= seq![asset_id@]);
        }
        (ChainWalk { visited, depth: 0 }, ChainStep::Lookup(String::from_str(asset_id)))
    }

    /// Takes the parent of the asset last looked up. Without a parent the
    /// chain ends: accepted. A parent at the depth bound refuses the
    /// rollover; a parent already visited is a cycle and refuses it too;
    /// any other parent is looked up next.
    pub fn on_parent(&mut self, parent: Option<String>) -> (r: ChainStep)
        requires
            old(self).wf(),
        ensures
            parent is None ==> r matches ChainStep::Done(Ok(())),
            parent is Some && old(self).spec_depth() + 1 >= max_rollover_chain_depth() ==> (
            r matches ChainStep::Done(Err(s)) && is_status(
                s,
                Code::FailedPrecondition,
                "rollover chain depth exceeds 5; refusing to roll over"@,
            )),
            parent is Some && old(self).spec_depth() + 1 < max_rollover_chain_depth()
                && old(self).spec_visited().contains(parent.unwrap()@) ==> (r matches ChainStep::Done(Err(s))
                && is_status(
                s,
                Code::FailedPrecondition,
                "rollover chain depth cycle detected at depth "@ + decimal_text(
                    old(self).spec_depth() + 1,
                    0,
                ) + "; refusing to roll over"@,
            )),
            parent is Some && old(self).spec_depth() + 1 < max_rollover_chain_depth()
                && !old(self).spec_visited().contains(parent.unwrap()@) ==> (r matches ChainStep::Lookup(id) && id@
                == parent.unwrap()@ && final(self).wf() && final(self).spec_depth() == old(self).spec_depth() + 1
                && final(self).spec_visited() == old(self).spec_visited().push(parent.unwrap()@)),
    {
        let p = match parent {
            None => {
                return ChainStep::Done(Ok(()));
            },
            Some(p) => p,
        };
        if self.depth + 1 >= 5 {
            return ChainStep::Done(
                Err(Status::failed_precondition("rollover chain depth exceeds 5; refusing to roll over")),
            );
        }
        let depth = self.depth + 1;
        if contains_text(&self.visited, p.as_str()) {
            let d = int_to_text(depth as i64);
            let msg = String::from_str("rollover chain depth cycle detected at depth ").concat(
                d.as_str(),
            ).concat("; refusing to roll over");
            return ChainStep::Done(Err(Status { code: Code::FailedPrecondition, message: msg }));
        }
        let ghost before = self.visited@;
        self.visited.push(p.clone());
        self.depth = depth;
        proof {
            assert(self.visited@.map_values(|s: String| s@) =~= before.map_values(|s: String| s@).push(
                p@,
            ));
        }
        ChainStep::Lookup(p)
    }
}

/// Whether `v` holds the text `t`.
fn contains_text(v: &Vec<String>, t: &str) -> (r: bool)
    ensures
        r == v@.map_values(|s: String| s@).contains(t@),
{
    let ghost m = v@.map_values(|s: String| s@);
    let mut i: usize = 0;
    while i < v.len()
        invariant
            m == v@.map_values(|s: String| s@),
            i <= v.len(),
            forall|k: int| 0 <= k < i ==> m[k] != t@,
        decreases v.len() - i,
    {
        if str_eq(v[i].as_str(), t) {
            proof {
                assert(m[i as int] == t@);
            }
            return true;
        }
        i = i + 1;
    }
    false
}

/// The stored text of an asset class.
pub fn asset_class_to_db(c: &AssetClassNew) -> (r: &'static str)
    ensures
        r@ == match *c {
            AssetClassNew::SavingsAccount => "savings_account"@,
            AssetClassNew::FixedDeposit => "fixed_deposit"@,
            AssetClassNew::GoldLot => "gold_lot"@,
            AssetClassNew::StockLot => "stock_lot"@,
            AssetClassNew::EtfLot => "etf_lot"@,
            AssetClassNew::CryptoLot => "crypto_lot"@,
        },
{
    match c {
        AssetClassNew::SavingsAccount => "savings_account",
        AssetClassNew::FixedDeposit => "fixed_deposit",
        AssetClassNew::GoldLot => "gold_lot",
        AssetClassNew::StockLot => "stock_lot",
        AssetClassNew::EtfLot => "etf_lot",
        AssetClassNew::CryptoLot => "crypto_lot",
    }
}

pub open spec fn spec_underlying_index_to_db(v: i32) -> Seq<char> {
    match pb::EtfUnderlyingIndex::spec_from_code(v) {
        Some(pb::EtfUnderlyingIndex::Vn30) => "vn30"@,
        Some(pb::EtfUnderlyingIndex::Vn100) => "vn100"@,
        Some(pb::EtfUnderlyingIndex::Hnx30) => "hnx30"@,
        _ => "other"@,
    }
}

/// Stored lowercase text of a wire ETF underlying index; unknown values
/// are `other`, as the reading side treats them.
pub fn map_underlying_index_to_db(v: i32) -> (r: String)
    ensures
        r@ == spec_underlying_index_to_db(v),
{
    match pb::EtfUnderlyingIndex::from_code(v) {
        Some(pb::EtfUnderlyingIndex::Vn30) => String::from_str("vn30"),
        Some(pb::EtfUnderlyingIndex::Vn100) => String::from_str("vn100"),
        Some(pb::EtfUnderlyingIndex::Hnx30) => String::from_str("hnx30"),
        _ => String::from_str("other"),
    }
}

pub open spec fn spec_crypto_network_to_db(v: i32) -> Seq<char> {
    match pb::CryptoNetwork::spec_from_code(v) {
        Some(pb::CryptoNetwork::Bitcoin) => "bitcoin"@,
        Some(pb::CryptoNetwork::Ethereum) => "ethereum"@,
        Some(pb::CryptoNetwork::Solana) => "solana"@,
        Some(pb::CryptoNetwork::BnbChain) => "bnb_chain"@,
        Some(pb::CryptoNetwork::Polkadot) => "polkadot"@,
        _ => "other"@,
    }
}

/// Stored lowercase text of a wire crypto network; unknown values are
/// `other`.
pub fn map_crypto_network_to_db(v: i32) -> (r: String)
    ensures
        r@ == spec_crypto_network_to_db(v),
{
    match pb::CryptoNetwork::from_code(v) {
        Some(pb::CryptoNetwork::Bitcoin) => String::from_str("bitcoin"),
        Some(pb::CryptoNetwork::Ethereum) => String::from_str("ethereum"),
        Some(pb::CryptoNetwork::Solana) => String::from_str("solana"),
        Some(pb::CryptoNetwork::BnbChain) => String::from_str("bnb_chain"),
        Some(pb::CryptoNetwork::Polkadot) => String::from_str("polkadot"),
        _ => String::from_str("other"),
    }
}

/// The principal of the renewed deposit: the one asked for, or the old
/// deposit's principal when none (zero) was given.
pub open spec fn rollover_principal(new_principal: i64, old_principal: i64) -> i64 {
    if new_principal == 0 {
        old_principal
    } else {
        new_principal
    }
}

/// What a rollover asks for besides the ids.
#[derive(Debug, Clone)]
pub struct RolloverTerms {
    pub asset_id: String,
    pub new_display_name: String,
    pub new_principal: i64,
    /// The new annual rate as decimal text.
    pub new_annual_rate: String,
    pub new_maturity_date: i64,
}

/// The rows a rollover stores: the new asset (named as before unless a new
/// name is given, in the same budget and currency, opened at the new
/// maturity date) and its fixed deposit (the old deposit's provider,
/// product, methods and certificate, the new principal (the old one when
/// zero is given), the new rate and dates,
/// linked to the old asset), and the asset row read back (active, created
/// at `now`).
pub fn rollover_rows(
    new_id: &str,
    now: i64,
    terms: &RolloverTerms,
    existing: &DbPortfolioAsset,
    old_fd: &DbFixedDeposit,
) -> (r: (NewPortfolioAsset, NewFixedDeposit, DbPortfolioAsset))
    ensures
        r.0.id matches Some(i) && i@ == new_id@,
        r.0.budget_id == existing.budget_id,
        r.0.asset_class == AssetClassNew::FixedDeposit,
        r.0.display_name@ == if terms.new_display_name@.len() == 0 {
            existing.display_name@
        } else {
            terms.new_display_name@
        },
        r.0.currency == existing.currency,
        r.0.opened_on == terms.new_maturity_date,
        r.0.closed_on is None,
        r.0.legacy_asset_id is None,
        r.0.notes matches Some(n) && n@ == "Rollover from "@ + terms.asset_id@,
        r.0.created_by == existing.created_by,
        r.1.provider == old_fd.provider,
        r.1.product_name == old_fd.product_name,
        r.1.principal == rollover_principal(terms.new_principal, old_fd.principal),
        r.1.annual_rate == terms.new_annual_rate,
        r.1.interest_method == old_fd.interest_method,
        r.1.payout_type == old_fd.payout_type,
        r.1.deposit_date == terms.new_maturity_date,
        r.1.maturity_date == terms.new_maturity_date,
        r.1.auto_renewal_policy == old_fd.auto_renewal_policy,
        r.1.rollover_from_asset_id matches Some(a) && a@ == terms.asset_id@,
        r.1.certificate_reference_masked == old_fd.certificate_reference_masked,
        r.1.notes matches Some(n) && n@ == "Rollover from "@ + terms.asset_id@,
        r.2.id@ == new_id@,
        r.2.budget_id == existing.budget_id,
        r.2.asset_class@ == "fixed_deposit"@,
        r.2.display_name@ == r.0.display_name@,
        r.2.currency == existing.currency,
        r.2.status@ == "active"@,
        r.2.opened_on == terms.new_maturity_date,
        r.2.closed_on is None,
        r.2.legacy_asset_id is None,
        r.2.notes matches Some(n) && n@ == "Rollover from "@ + terms.asset_id@,
        r.2.created_by == existing.created_by,
        r.2.created_at == now,
        r.2.updated_at == now,
        r.2.deleted_at is None,
{
    let display_name = if terms.new_display_name.as_str().unicode_len() == 0 {
        existing.display_name.clone()
    } else {
        terms.new_display_name.clone()
    };
    let note = String::from_str("Rollover from ").concat(terms.asset_id.as_str());
    let asset_class = AssetClassNew::FixedDeposit;
    let new_asset = NewPortfolioAsset {
        id: Some(String::from_str(new_id)),
        budget_id: existing.budget_id.clone(),
        asset_class,
        display_name: display_name.clone(),
        currency: existing.currency.clone(),
        opened_on: terms.new_maturity_date,
        closed_on: None,
        legacy_asset_id: None,
        notes: Some(note.clone()),
        created_by: existing.created_by.clone(),
    };
    let new_fd = NewFixedDeposit {
        provider: old_fd.provider.clone(),
        product_name: old_fd.product_name.clone(),
        principal: if terms.new_principal == 0 {
            old_fd.principal
        } else {
            terms.new_principal
        },
        annual_rate: terms.new_annual_rate.clone(),
        interest_method: old_fd.interest_method.clone(),
        payout_type: old_fd.payout_type.clone(),
        deposit_date: terms.new_maturity_date,
        maturity_date: terms.new_maturity_date,
        auto_renewal_policy: old_fd.auto_renewal_policy.clone(),
        rollover_from_asset_id: Some(terms.asset_id.clone()),
        certificate_reference_masked: old_fd.certificate_reference_masked.clone(),
        notes: Some(note.clone()),
    };
    let stored = DbPortfolioAsset {
        id: String::from_str(new_id),
        budget_id: existing.budget_id.clone(),
        asset_class: String::from_str(asset_class_to_db(&asset_class)),
        display_name,
        currency: existing.currency.clone(),
        status: String::from_str(AssetStatus::Active.to_db()),
        opened_on: terms.new_maturity_date,
        closed_on: None,
        legacy_asset_id: None,
        notes: Some(note),
        created_by: existing.created_by.clone(),
        created_at: now,
        updated_at: now,
        deleted_at: None,
    };
    (new_asset, new_fd, stored)
}

/// The payload logged on the old asset of a rollover.
pub fn rolled_over_payload(new_asset_id: &str, new_maturity_date: i64) -> (r: String)
    ensures
        r@ == "{\"new_asset_id\":\""@ + new_asset_id@ + "\",\"new_maturity_date\":"@ + decimal_text(
            new_maturity_date as int,
            0,
        ) + "}"@,
{
    let d = int_to_text(new_maturity_date);
    String::from_str("{\"new_asset_id\":\"").concat(new_asset_id).concat("\",\"new_maturity_date\":").concat(
        d.as_str(),
    ).concat("}")
}

/// The payload logged on the new asset of a rollover.
pub fn rollover_created_payload(rollover_from: &str, principal: i64) -> (r: String)
    ensures
        r@ == "{\"rollover_from\":\""@ + rollover_from@ + "\",\"principal\":"@ + decimal_text(
            principal as int,
            0,
        ) + "}"@,
{
    let p = int_to_text(principal);
    String::from_str("{\"rollover_from\":\"").concat(rollover_from).concat("\",\"principal\":").concat(
        p.as_str(),
    ).concat("}")
}

} // verus!
