//! Portfolio transfers between a standard budget and an investment budget.
//!
//! A transfer needs a positive amount, two different budgets, and a caller
//! who is at least a manager on both. It is recorded completed, with
//! both legs linked by a group id, and logged on the asset it concerns.
//! A client-supplied idempotency key makes a retry return the stored
//! transfer without writing again (see `replay`).

use super::replay::{lookup_replays, transfer_after_lookup, TransferDecision};
use crate::converters::portfolio::{transfer_mapped, DbTransfer, NewTransfer};
use crate::decimal::decimal_text;
use crate::pb::service::budget::BudgetRole;
use crate::pb::service::portfolio as pb;
use crate::status::{is_status, Code, Status};
use crate::text::int_to_text;
use vstd::prelude::*;

verus! {

/// A transfer moves a positive amount between two different budgets.
pub fn validate_transfer(amount_minor: i64, source_budget_id: &str, counterparty_budget_id: &str) -> (r: Result<(), Status>)
    ensures
        amount_minor <= 0 ==> (r matches Err(s) && is_status(
            s,
            Code::InvalidArgument,
            "amount must be > 0"@,
        )),
        amount_minor > 0 && source_budget_id@ == counterparty_budget_id@ ==> (r matches Err(s)
            && is_status(s, Code::InvalidArgument, "source and counterparty must differ"@)),
        amount_minor > 0 && source_budget_id@ != counterparty_budget_id@ ==> r is Ok,
{
    if amount_minor <= 0 {
        return Err(Status::invalid_argument("amount must be > 0"));
    }
    if crate::text::str_eq(source_budget_id, counterparty_budget_id) {
        return Err(Status::invalid_argument("source and counterparty must differ"));
    }
    Ok(())
}

pub open spec fn spec_transfer_role_allowed(role: Option<BudgetRole>) -> bool {
    role == Some(BudgetRole::Manager) || role == Some(BudgetRole::Owner)
}

/// Whether a caller's role on one side allows a transfer: at least a
/// manager (owner or manager); a role that could not be resolved does not.
pub fn transfer_role_allowed(role: Option<BudgetRole>) -> (r: bool)
    ensures
        r == spec_transfer_role_allowed(role),
{
    match role {
        Some(BudgetRole::Manager) | Some(BudgetRole::Owner) => true,
        _ => false,
    }
}

/// Whether the caller's roles on every budget of the transfer allow it.
pub fn transfer_roles_allowed(roles: &[Option<BudgetRole>]) -> (r: bool)
    ensures
        r == (forall|i: int| 0 <= i < roles@.len() ==> spec_transfer_role_allowed(#[trigger] roles@[i])),
{
    let mut i: usize = 0;
    while i < roles.len()
        invariant
            i <= roles.len(),
            forall|k: int| 0 <= k < i ==> spec_transfer_role_allowed(#[trigger] roles@[k]),
        decreases roles.len() - i,
    {
        if !transfer_role_allowed(roles[i]) {
            return false;
        }
        i = i + 1;
    }
    true
}

/// An optional text that counts only when not empty.
pub fn key_if_present(key: &str) -> (r: Option<String>)
    ensures
        key@.len() == 0 ==> r is None,
        key@.len() > 0 ==> (r matches Some(k) && k@ == key@),
{
    if key.unicode_len() == 0 {
        None
    } else {
        Some(String::from_str(key))
    }
}

/// The transfer row recorded for a request: completed at `now`, its own
/// group, no linked entries, notes only when given.
pub fn build_new_transfer(
    transfer_id: &str,
    user_id: &str,
    source_budget_id: &str,
    counterparty_budget_id: &str,
    direction: i32,
    amount_minor: i64,
    currency: &str,
    idempotency_key: &str,
    notes: &str,
    now: i64,
) -> (r: NewTransfer)
    ensures
        r.id@ == transfer_id@,
        r.group_id@ == transfer_id@,
        r.source_budget_id@ == source_budget_id@,
        r.counterparty_budget_id@ == counterparty_budget_id@,
        r.direction == direction,
        r.amount_minor == amount_minor,
        r.currency@ == currency@,
        r.status == pb::TransferStatus::Completed.spec_code(),
        r.linked_entry_source_id is None,
        r.linked_entry_counterparty_id is None,
        r.idempotency_key@ == idempotency_key@,
        r.actor_user_id@ == user_id@,
        r.created_at == now,
        r.completed_at == Some(now),
        notes@.len() == 0 ==> r.notes is None,
        notes@.len() > 0 ==> (r.notes matches Some(n) && n@ == notes@),
{
    NewTransfer {
        id: String::from_str(transfer_id),
        group_id: String::from_str(transfer_id),
        source_budget_id: String::from_str(source_budget_id),
        counterparty_budget_id: String::from_str(counterparty_budget_id),
        direction,
        amount_minor,
        currency: String::from_str(currency),
        status: pb::TransferStatus::Completed.code(),
        linked_entry_source_id: None,
        linked_entry_counterparty_id: None,
        idempotency_key: String::from_str(idempotency_key),
        actor_user_id: String::from_str(user_id),
        created_at: now,
        completed_at: Some(now),
        notes: key_if_present(notes),
    }
}

/// The logged payload of a started transfer.
pub fn transfer_initiated_payload(counterparty_budget_id: &str, amount_minor: i64, currency: &str) -> (r: String)
    ensures
        r@ == "{\"counterparty\":\""@ + counterparty_budget_id@ + "\",\"amount\":"@ + decimal_text(
            amount_minor as int,
            0,
        ) + ",\"currency\":\""@ + currency@ + "\"}"@,
{
    let amount = int_to_text(amount_minor);
    String::from_str("{\"counterparty\":\"").concat(counterparty_budget_id).concat(
        "\",\"amount\":",
    ).concat(amount.as_str()).concat(",\"currency\":\"").concat(currency).concat("\"}")
}

/// The logged payload of a completed transfer.
pub fn transfer_completed_payload(counterparty_budget_id: &str, amount_minor: i64) -> (r: String)
    ensures
        r@ == "{\"counterparty\":\""@ + counterparty_budget_id@ + "\",\"amount\":"@ + decimal_text(
            amount_minor as int,
            0,
        ) + ",\"status\":\"completed\"}"@,
{
    let amount = int_to_text(amount_minor);
    String::from_str("{\"counterparty\":\"").concat(counterparty_budget_id).concat(
        "\",\"amount\":",
    ).concat(amount.as_str()).concat(",\"status\":\"completed\"}")
}


// ---------------------------------------------------------------------------
// A transfer request, step by step
// ---------------------------------------------------------------------------

/// Where a transfer request stands.
#[derive(Debug, Clone, Copy, PartialEq, Eq, Structural)]
pub enum TransferStage {
    /// The caller's roles on the two budgets are needed.
    AwaitRoles,
    /// The answer of the lookup by idempotency key is needed.
    AwaitLookup,
    /// Nothing more is decided for this request.
    Finished,
}

/// A transfer request between its steps: its budgets, its idempotency key
/// and its stage.
#[derive(Debug, Clone)]
pub struct TransferRequestState {
    pub source_budget_id: String,
    pub counterparty_budget_id: String,
    pub idempotency_key: String,
    pub stage: TransferStage,
}

/// What the outside world answers during a transfer request.
#[derive(Debug, Clone)]
pub enum TransferEvent {
    /// The caller's roles on the source and the counterparty budget
    /// (`None` where none could be resolved).
    Roles(Vec<Option<BudgetRole>>),
    /// The transfer stored for the two budgets and the key, if any.
    Lookup(Option<DbTransfer>),
}

/// What a transfer request asks for next.
#[derive(Debug, Clone)]
pub enum TransferAction {
    /// Resolve the caller's roles on the two budgets.
    ResolveRoles,
    /// Look up the transfer stored for the two budgets and the key.
    LookupKey,
    /// Answer with the stored transfer; nothing is written.
    Replay(pb::PortfolioTransfer),
    /// Store the new transfer (and log it on its asset).
    Insert,
    /// Answer with this refusal; nothing is written.
    Refuse(Status),
    /// The answer does not fit the stage; nothing changes.
    Ignore,
}

/// Starts a transfer request: an amount that is not positive, or one
/// budget on both sides, is refused at once; otherwise the caller's roles
/// come next.
pub fn transfer_start(
    amount_minor: i64,
    source_budget_id: &str,
    counterparty_budget_id: &str,
    idempotency_key: &str,
) -> (r: (TransferRequestState, TransferAction))
    ensures
        r.0.source_budget_id@ == source_budget_id@,
        r.0.counterparty_budget_id@ == counterparty_budget_id@,
        r.0.idempotency_key@ == idempotency_key@,
        amount_minor <= 0 ==> r.0.stage == TransferStage::Finished,
        amount_minor <= 0 ==> (r.1 matches TransferAction::Refuse(s) && is_status(
            s,
            Code::InvalidArgument,
            "amount must be > 0"@,
        )),
        amount_minor > 0 && source_budget_id@ == counterparty_budget_id@ ==> r.0.stage
            == TransferStage::Finished,
        amount_minor > 0 && source_budget_id@ == counterparty_budget_id@ ==> (r.1 matches TransferAction::Refuse(
            s,
        ) && is_status(s, Code::InvalidArgument, "source and counterparty must differ"@)),
        amount_minor > 0 && source_budget_id@ != counterparty_budget_id@ ==> (r.0.stage
            == TransferStage::AwaitRoles && r.1 is ResolveRoles),
{
    let checked = validate_transfer(amount_minor, source_budget_id, counterparty_budget_id);
    let (stage, action) = match checked {
        Ok(()) => (TransferStage::AwaitRoles, TransferAction::ResolveRoles),
        Err(s) => (TransferStage::Finished, TransferAction::Refuse(s)),
    };
    (
        TransferRequestState {
            source_budget_id: String::from_str(source_budget_id),
            counterparty_budget_id: String::from_str(counterparty_budget_id),
            idempotency_key: String::from_str(idempotency_key),
            stage,
        },
        action,
    )
}

/// One step of a transfer request. A caller who is not at least a manager
/// on every budget is refused; a request without a key is stored; one with
/// a key is looked up, and a transfer already stored for the two budgets
/// and the key answers it with nothing written; otherwise it is stored. A
/// finished request stays finished.
pub fn transfer_step(state: TransferRequestState, event: TransferEvent) -> (r: (
    TransferRequestState,
    TransferAction,
))
    ensures
        r.0.source_budget_id == state.source_budget_id,
        r.0.counterparty_budget_id == state.counterparty_budget_id,
        r.0.idempotency_key == state.idempotency_key,
        match (state.stage, event) {
            (TransferStage::AwaitRoles, TransferEvent::Roles(roles)) => if forall|i: int|
                0 <= i < roles@.len() ==> spec_transfer_role_allowed(#[trigger] roles@[i]) {
                if state.idempotency_key@.len() > 0 {
                    r.0.stage == TransferStage::AwaitLookup && r.1 is LookupKey
                } else {
                    r.0.stage == TransferStage::Finished && r.1 is Insert
                }
            } else {
                r.0.stage == TransferStage::Finished && (r.1 matches TransferAction::Refuse(s)
                    && is_status(
                    s,
                    Code::PermissionDenied,
                    "requires member on both source and counterparty"@,
                ))
            },
            (TransferStage::AwaitLookup, TransferEvent::Lookup(found)) => r.0.stage
                == TransferStage::Finished && (lookup_replays(state.idempotency_key@, found is Some)
                ==> (r.1 matches TransferAction::Replay(t) && transfer_mapped(t, found.unwrap())))
                && (!lookup_replays(state.idempotency_key@, found is Some) ==> r.1 is Insert),
            _ => r.0.stage == state.stage && r.1 is Ignore,
        },
{
    let stage = state.stage;
    match (stage, event) {
        (TransferStage::AwaitRoles, TransferEvent::Roles(roles)) => {
            if !transfer_roles_allowed(roles.as_slice()) {
                let s = Status::permission_denied("requires member on both source and counterparty");
                return (TransferRequestState { stage: TransferStage::Finished, ..state }, TransferAction::Refuse(s));
            }
            if state.idempotency_key.unicode_len() > 0 {
                (TransferRequestState { stage: TransferStage::AwaitLookup, ..state }, TransferAction::LookupKey)
            } else {
                (TransferRequestState { stage: TransferStage::Finished, ..state }, TransferAction::Insert)
            }
        },
        (TransferStage::AwaitLookup, TransferEvent::Lookup(found)) => {
            let action = match transfer_after_lookup(state.idempotency_key.as_str(), found) {
                TransferDecision::Replay(t) => TransferAction::Replay(t),
                TransferDecision::Insert => TransferAction::Insert,
            };
            (TransferRequestState { stage: TransferStage::Finished, ..state }, action)
        },
        (stage, event) => (TransferRequestState { stage, ..state }, TransferAction::Ignore),
    }
}

} // verus!
