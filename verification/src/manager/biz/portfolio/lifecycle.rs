//! Asset lifecycle state machine. Any transition not listed here is illegal.

use super::AssetStatus;
use vstd::prelude::*;

verus! {

/// A lifecycle action on an asset.
#[derive(Clone, Copy, Debug, PartialEq, Eq, Structural)]
pub enum Transition {
    Close,
    Mature,
    Sell,
    Archive,
    RollOver,
    Withdraw,
    EarlyClose,
}

/// A refused transition, naming the state and the action.
#[derive(Clone, Copy, Debug, PartialEq, Eq, Structural)]
pub enum LifecycleError {
    Illegal { from: AssetStatus, transition: Transition },
}

/// The state reached from `from` by `transition`, if the move is allowed.
pub open spec fn spec_next_status(from: AssetStatus, transition: Transition) -> Option<AssetStatus> {
    match (from, transition) {
        (AssetStatus::Active, Transition::Close) => Some(AssetStatus::Closed),
        (AssetStatus::Active, Transition::Mature) => Some(AssetStatus::Matured),
        (AssetStatus::Active, Transition::Sell) => Some(AssetStatus::Sold),
        (AssetStatus::Active, Transition::Archive) => Some(AssetStatus::Archived),
        (AssetStatus::Active, Transition::RollOver) => Some(AssetStatus::RolledOver),
        (AssetStatus::Active, Transition::Withdraw) => Some(AssetStatus::Withdrawn),
        (AssetStatus::Active, Transition::EarlyClose) => Some(AssetStatus::EarlyClosed),
        (AssetStatus::Matured, Transition::RollOver) => Some(AssetStatus::RolledOver),
        (AssetStatus::Matured, Transition::Withdraw) => Some(AssetStatus::Withdrawn),
        (AssetStatus::Matured, Transition::Archive) => Some(AssetStatus::Archived),
        (AssetStatus::Closed, Transition::Archive) => Some(AssetStatus::Archived),
        (AssetStatus::Sold, Transition::Archive) => Some(AssetStatus::Archived),
        (AssetStatus::RolledOver, Transition::Archive) => Some(AssetStatus::Archived),
        (AssetStatus::Withdrawn, Transition::Archive) => Some(AssetStatus::Archived),
        (AssetStatus::EarlyClosed, Transition::Archive) => Some(AssetStatus::Archived),
        _ => None,
    }
}

/// Returns the new status if the transition is allowed.
pub fn next_status(from: AssetStatus, transition: Transition) -> (r: Result<AssetStatus, LifecycleError>)
    ensures
        match spec_next_status(from, transition) {
            Some(to) => r == Ok::<AssetStatus, LifecycleError>(to),
            None => r == Err::<AssetStatus, LifecycleError>(LifecycleError::Illegal { from, transition }),
        },
{
    let to = match (from, transition) {
        (AssetStatus::Active, Transition::Close) => AssetStatus::Closed,
        (AssetStatus::Active, Transition::Mature) => AssetStatus::Matured,
        (AssetStatus::Active, Transition::Sell) => AssetStatus::Sold,
        (AssetStatus::Active, Transition::Archive) => AssetStatus::Archived,
        (AssetStatus::Active, Transition::RollOver) => AssetStatus::RolledOver,
        (AssetStatus::Active, Transition::Withdraw) => AssetStatus::Withdrawn,
        (AssetStatus::Active, Transition::EarlyClose) => AssetStatus::EarlyClosed,
        (AssetStatus::Matured, Transition::RollOver) => AssetStatus::RolledOver,
        (AssetStatus::Matured, Transition::Withdraw) => AssetStatus::Withdrawn,
        (AssetStatus::Matured, Transition::Archive) => AssetStatus::Archived,
        (AssetStatus::Closed, Transition::Archive) => AssetStatus::Archived,
        (AssetStatus::Sold, Transition::Archive) => AssetStatus::Archived,
        (AssetStatus::RolledOver, Transition::Archive) => AssetStatus::Archived,
        (AssetStatus::Withdrawn, Transition::Archive) => AssetStatus::Archived,
        (AssetStatus::EarlyClosed, Transition::Archive) => AssetStatus::Archived,
        _ => {
            return Err(LifecycleError::Illegal { from, transition });
        },
    };
    Ok(to)
}

/// `Archived` is terminal: no transition leaves it.
pub proof fn lemma_archived_is_terminal(t: Transition)
    ensures
        spec_next_status(AssetStatus::Archived, t) is None,
{
}

/// Every state other than `Archived` can be archived.
pub proof fn lemma_archive_from_any_live_state(s: AssetStatus)
    requires
        s != AssetStatus::Archived,
    ensures
        spec_next_status(s, Transition::Archive) == Some(AssetStatus::Archived),
{
}

/// No transition leads back to `Active`, and every allowed transition
/// changes the state.
pub proof fn lemma_transitions_leave_state(s: AssetStatus, t: Transition)
    requires
        spec_next_status(s, t) is Some,
    ensures
        spec_next_status(s, t) != Some(AssetStatus::Active),
        spec_next_status(s, t) != Some(s),
{
}

/// Only `Active` and `Matured` assets can be rolled over or withdrawn.
pub proof fn lemma_rollover_needs_active_or_matured(s: AssetStatus)
    ensures
        spec_next_status(s, Transition::RollOver) is Some <==> (s == AssetStatus::Active || s == AssetStatus::Matured),
        spec_next_status(s, Transition::Withdraw) is Some <==> (s == AssetStatus::Active || s == AssetStatus::Matured),
{
}

/// A matured asset can only be rolled over, withdrawn or archived.
pub proof fn lemma_matured_transitions(t: Transition)
    ensures
        spec_next_status(AssetStatus::Matured, t) is Some <==> (t == Transition::RollOver || t
            == Transition::Withdraw || t == Transition::Archive),
{
}

/// Closing, maturing, selling and early-closing are moves of an active
/// asset only.
pub proof fn lemma_active_only_transitions(s: AssetStatus, t: Transition)
    requires
        t == Transition::Close || t == Transition::Mature || t == Transition::Sell || t
            == Transition::EarlyClose,
    ensures
        spec_next_status(s, t) is Some <==> s == AssetStatus::Active,
{
}

/// A closed, sold, rolled-over, withdrawn or early-closed asset can only be
/// archived.
pub proof fn lemma_ended_assets_only_archive(s: AssetStatus, t: Transition)
    requires
        s == AssetStatus::Closed || s == AssetStatus::Sold || s == AssetStatus::RolledOver || s
            == AssetStatus::Withdrawn || s == AssetStatus::EarlyClosed,
    ensures
        spec_next_status(s, t) is Some <==> t == Transition::Archive,
{
}

/// An allowed move reaches the state its action names, whatever state it
/// starts from.
pub proof fn lemma_transition_targets(s: AssetStatus, t: Transition)
    ensures
        spec_next_status(s, t) is Some ==> spec_next_status(s, t).unwrap() == match t {
            Transition::Close => AssetStatus::Closed,
            Transition::Mature => AssetStatus::Matured,
            Transition::Sell => AssetStatus::Sold,
            Transition::Archive => AssetStatus::Archived,
            Transition::RollOver => AssetStatus::RolledOver,
            Transition::Withdraw => AssetStatus::Withdrawn,
            Transition::EarlyClose => AssetStatus::EarlyClosed,
        },
{
}

} // verus!
