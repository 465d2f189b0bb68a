//! Maturity scan for fixed deposits.
//!
//! A daily scan takes the active fixed deposits whose maturity date has
//! come, moves each still-active one to `MATURED`, logs a
//! `MATURITY_REACHED` activity and queues an outbox event for the
//! notification service. An asset that moved on meanwhile is skipped, and
//! the lifecycle refuses to mature an asset twice.

use super::lifecycle::{spec_next_status, Transition};
use super::AssetStatus;
use crate::converters::portfolio::NewOutboxEvent;
use crate::decimal::decimal_text;
use crate::text::int_to_text;
use vstd::prelude::*;

verus! {

/// What the scan does with one due asset, given its stored status: the
/// status it moves to, or `None` to skip an asset that is no longer active.
pub fn maturity_transition(status: &str) -> (r: Option<AssetStatus>)
    ensures
        AssetStatus::spec_from_db(status@) == AssetStatus::Active ==> r == Some(AssetStatus::Matured),
        AssetStatus::spec_from_db(status@) != AssetStatus::Active ==> r is None,
        r matches Some(next) ==> spec_next_status(AssetStatus::spec_from_db(status@), Transition::Mature)
            == Some(next),
{
    let current = AssetStatus::from_db(status);
    if current != AssetStatus::Active {
        return None;
    }
    Some(AssetStatus::Matured)
}

/// The indices, in order, of the due assets among `statuses[..n]` that are
/// still active and so are matured.
pub open spec fn matured_indices(statuses: Seq<Seq<char>>, n: int) -> Seq<usize>
    decreases n,
{
    if n <= 0 || n > statuses.len() {
        Seq::empty()
    } else if AssetStatus::spec_from_db(statuses[n - 1]) == AssetStatus::Active {
        matured_indices(statuses, n - 1).push((n - 1) as usize)
    } else {
        matured_indices(statuses, n - 1)
    }
}

/// What a maturity scan does with the due assets it found.
#[derive(Debug, Clone)]
pub struct MaturityPlan {
    /// The positions of the due assets to mature, in order.
    pub to_mature: Vec<usize>,
    /// What the scan reports: the number of assets it matured (wrapping as
    /// a `u32` cast does).
    pub reported: u32,
}

/// Plans a maturity scan from the stored statuses of the due assets: each
/// still-active asset is matured, any other skipped; the scan reports how
/// many it matured.
pub fn plan_maturity_scan(statuses: &[String]) -> (r: MaturityPlan)
    ensures
        r.to_mature@ == matured_indices(statuses@.map_values(|s: String| s@), statuses@.len() as int),
        r.reported == r.to_mature@.len() as u32,
{
    let ghost st = statuses@.map_values(|s: String| s@);
    let mut to_mature: Vec<usize> = Vec::new();
    let mut i: usize = 0;
    while i < statuses.len()
        invariant
            st == statuses@.map_values(|s: String| s@),
            i <= statuses@.len(),
            to_mature@ == matured_indices(st, i as int),
        decreases statuses@.len() - i,
    {
        proof {
            assert(st[i as int] == statuses@[i as int]@);
        }
        if maturity_transition(statuses[i].as_str()).is_some() {
            to_mature.push(i);
        }
        i = i + 1;
    }
    let n = to_mature.len();
    MaturityPlan {
        to_mature,
        reported: #[verifier::truncate] (n as u32),
    }
}

/// The activity payload of a matured deposit.
pub fn maturity_activity_payload(today: i64) -> (r: String)
    ensures
        r@ == "{\"maturity_date\":"@ + decimal_text(today as int, 0) + "}"@,
{
    let t = int_to_text(today);
    String::from_str("{\"maturity_date\":").concat(t.as_str()).concat("}")
}

/// The outbox event queued for a matured deposit.
pub fn maturity_event(id: &str, asset_id: &str, budget_id: &str, today: i64, now: i64) -> (r: NewOutboxEvent)
    ensures
        r.id@ == id@,
        r.event_type@ == "MATURITY_REACHED"@,
        r.asset_id matches Some(a) && a@ == asset_id@,
        r.budget_id matches Some(b) && b@ == budget_id@,
        r.payload_json@ == "{\"asset_id\":\""@ + asset_id@ + "\",\"budget_id\":\""@ + budget_id@
            + "\",\"maturity_date\":"@ + decimal_text(today as int, 0) + "}"@,
        r.enqueued_at == now,
{
    let t = int_to_text(today);
    let payload = String::from_str("{\"asset_id\":\"").concat(asset_id).concat("\",\"budget_id\":\"").concat(
        budget_id,
    ).concat("\",\"maturity_date\":").concat(t.as_str()).concat("}");
    NewOutboxEvent {
        id: String::from_str(id),
        event_type: String::from_str("MATURITY_REACHED"),
        asset_id: Some(String::from_str(asset_id)),
        budget_id: Some(String::from_str(budget_id)),
        payload_json: payload,
        enqueued_at: now,
    }
}

} // verus!
