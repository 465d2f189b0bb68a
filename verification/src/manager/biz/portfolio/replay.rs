//! Replay by idempotency key.
//!
//! A transfer or a price observation that carries a non-empty idempotency
//! key is looked up first, by its scope (the two budgets of a transfer, the
//! asset of an observation) and key. A stored row answers the request as it
//! was and nothing is written; otherwise the new row is stored. Here the
//! store is seen as the lookup sees it: rows of (scope, key, row), the first
//! match answering.

use crate::converters::portfolio::{
    map_price_observation, map_transfer, price_observation_mapped, transfer_mapped,
    DbPriceObservation, DbTransfer,
};
use crate::pb::service::portfolio as pb;
use vstd::prelude::*;

verus! {

/// The first stored row of `scope` with key `key`.
pub open spec fn first_keyed<S, V>(store: Seq<(S, Seq<char>, V)>, scope: S, key: Seq<char>) -> Option<
    (S, Seq<char>, V),
>
    decreases store.len(),
{
    if store.len() == 0 {
        None
    } else if store[0].0 == scope && store[0].1 == key {
        Some(store[0])
    } else {
        first_keyed(store.drop_first(), scope, key)
    }
}

/// Whether a lookup answers a request: its key is not empty and a stored
/// row was found for it.
pub open spec fn lookup_replays(key: Seq<char>, found: bool) -> bool {
    key.len() > 0 && found
}

/// What a keyed request leaves: with a non-empty key that is already
/// stored for its scope, the store as it was and the stored row; otherwise
/// the store with the new row added, and the new row.
pub open spec fn keyed_effect<S, V>(store: Seq<(S, Seq<char>, V)>, scope: S, key: Seq<char>, fresh: V) -> (
    Seq<(S, Seq<char>, V)>,
    (S, Seq<char>, V),
) {
    if lookup_replays(key, first_keyed(store, scope, key) is Some) {
        (store, first_keyed(store, scope, key).unwrap())
    } else {
        (store.push((scope, key, fresh)), (scope, key, fresh))
    }
}

proof fn lemma_first_keyed_push<S, V>(store: Seq<(S, Seq<char>, V)>, scope: S, key: Seq<char>, x: (S, Seq<char>, V))
    requires
        first_keyed(store, scope, key) is None,
        x.0 == scope,
        x.1 == key,
    ensures
        first_keyed(store.push(x), scope, key) == Some(x),
    decreases store.len(),
{
    if store.len() > 0 {
        assert(store.push(x).drop_first() =~= store.drop_first().push(x));
        lemma_first_keyed_push(store.drop_first(), scope, key, x);
    } else {
        assert(store.push(x)[0] == x);
    }
}

/// Repeating a request with a non-empty idempotency key answers with the row
/// of the first request and writes nothing, whatever new row the repeat
/// would have made. (`transfer_step` and `observation_after_lookup` replay
/// exactly where `lookup_replays` holds of the lookup's answer, as
/// `keyed_effect` does.)
pub proof fn lemma_keyed_replay<S, V>(
    store: Seq<(S, Seq<char>, V)>,
    scope: S,
    key: Seq<char>,
    fresh1: V,
    fresh2: V,
)
    requires
        key.len() > 0,
    ensures
        ({
            let (s1, row1) = keyed_effect(store, scope, key, fresh1);
            let (s2, row2) = keyed_effect(s1, scope, key, fresh2);
            s2 == s1 && row2 == row1
        }),
{
    if first_keyed(store, scope, key) is None {
        lemma_first_keyed_push(store, scope, key, (scope, key, fresh1));
    }
}

/// The lookup decides the effect of a request: when it answers (with the
/// first stored row of the scope and key), the store is left as it was and
/// the found row is the answer; otherwise the new row is stored and is the
/// answer.
pub proof fn lemma_lookup_decides_effect<S, V>(
    store: Seq<(S, Seq<char>, V)>,
    scope: S,
    key: Seq<char>,
    fresh: V,
)
    ensures
        lookup_replays(key, first_keyed(store, scope, key) is Some) ==> keyed_effect(
            store,
            scope,
            key,
            fresh,
        ) == (store, first_keyed(store, scope, key).unwrap()),
        !lookup_replays(key, first_keyed(store, scope, key) is Some) ==> keyed_effect(
            store,
            scope,
            key,
            fresh,
        ) == (store.push((scope, key, fresh)), (scope, key, fresh)),
{
}

/// What a transfer request does once the lookup by its key has answered.
#[derive(Debug, Clone)]
pub enum TransferDecision {
    /// The stored transfer answers the request; nothing is written.
    Replay(pb::PortfolioTransfer),
    /// The new transfer is stored.
    Insert,
}

/// A transfer with a non-empty key that the lookup found is replayed as
/// stored; any other goes on to be inserted.
pub fn transfer_after_lookup(idempotency_key: &str, found: Option<DbTransfer>) -> (r: TransferDecision)
    ensures
        lookup_replays(idempotency_key@, found is Some) ==> (r matches TransferDecision::Replay(t)
            && transfer_mapped(t, found.unwrap())),
        !lookup_replays(idempotency_key@, found is Some) ==> r is Insert,
{
    if idempotency_key.unicode_len() == 0 {
        return TransferDecision::Insert;
    }
    match found {
        Some(t) => TransferDecision::Replay(map_transfer(t)),
        None => TransferDecision::Insert,
    }
}

/// What a price observation does once the lookup by its key has answered.
#[derive(Debug, Clone)]
pub enum ObservationDecision {
    /// The stored observation answers the request; nothing is written.
    Replay(pb::PriceObservation),
    /// The new observation is stored.
    Insert,
}

/// An observation with a non-empty key that the lookup found is replayed
/// as stored; any other goes on to be inserted.
pub fn observation_after_lookup(idempotency_key: Option<&str>, found: Option<DbPriceObservation>) -> (r:
    ObservationDecision)
    ensures
        (idempotency_key matches Some(k) && k@.len() > 0) && found is Some ==> (r matches ObservationDecision::Replay(o)
            && price_observation_mapped(o, found.unwrap())),
        !(idempotency_key matches Some(k) && k@.len() > 0) || found is None ==> r is Insert,
{
    let keyed = match idempotency_key {
        Some(k) => k.unicode_len() > 0,
        None => false,
    };
    if !keyed {
        return ObservationDecision::Insert;
    }
    match found {
        Some(o) => ObservationDecision::Replay(map_price_observation(o)),
        None => ObservationDecision::Insert,
    }
}

} // verus!
