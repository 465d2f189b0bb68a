//! Manual price observations.
//!
//! A recorded price must not be negative. An observation carrying an
//! idempotency key that was already recorded returns the earlier one; a new
//! one gets the `manual` provider when none is named and the current time
//! when none is given.

use super::PriceSide;
use crate::converters::portfolio::NewPriceObservation;
use crate::status::{is_status, Code, Status};
use vstd::prelude::*;

verus! {

/// A price must not be negative.
pub fn check_unit_price(unit_price: i64) -> (r: Result<(), Status>)
    ensures
        unit_price < 0 ==> (r matches Err(s) && is_status(s, Code::InvalidArgument, "unit_price must be >= 0"@)),
        unit_price >= 0 ==> r is Ok,
{
    if unit_price < 0 {
        return Err(Status::invalid_argument("unit_price must be >= 0"));
    }
    Ok(())
}

/// The idempotency key to look up first: a given, non-empty key.
pub fn lookup_key(idempotency_key: Option<&str>) -> (r: Option<String>)
    ensures
        match idempotency_key {
            Some(k) => if k@.len() > 0 {
                r matches Some(x) && x@ == k@
            } else {
                r is None
            },
            None => r is None,
        },
{
    match idempotency_key {
        Some(k) => if k.unicode_len() > 0 {
            Some(String::from_str(k))
        } else {
            None
        },
        None => None,
    }
}

/// The side of a price from its stored text; unknown text is mid.
pub fn parse_price_side(s: &str) -> (r: PriceSide)
    ensures
        r == PriceSide::spec_from_db(s@),
{
    PriceSide::from_db(s)
}

/// The observation stored for a manual price.
pub fn new_manual_observation(
    asset_id: &str,
    provider: &str,
    price_side: &str,
    unit_price: i64,
    currency: &str,
    observed_at: i64,
    source_reference: &str,
    idempotency_key: Option<&str>,
    notes: Option<&str>,
    now: i64,
) -> (r: NewPriceObservation)
    ensures
        r.id is None,
        r.asset_id@ == asset_id@,
        provider@.len() == 0 ==> r.provider@ == "manual"@,
        provider@.len() > 0 ==> r.provider@ == provider@,
        r.price_side == PriceSide::spec_from_db(price_side@),
        r.unit_price == unit_price,
        r.currency@ == currency@,
        r.observed_at == if observed_at == 0 {
            now
        } else {
            observed_at
        },
        r.source_reference@ == source_reference@,
        match idempotency_key {
            Some(k) => if k@.len() > 0 {
                r.idempotency_key matches Some(x) && x@ == k@
            } else {
                r.idempotency_key is None
            },
            None => r.idempotency_key is None,
        },
        match notes {
            Some(n) => r.notes matches Some(x) && x@ == n@,
            None => r.notes is None,
        },
{
    NewPriceObservation {
        id: None,
        asset_id: String::from_str(asset_id),
        provider: if provider.unicode_len() == 0 {
            String::from_str("manual")
        } else {
            String::from_str(provider)
        },
        price_side: parse_price_side(price_side),
        unit_price,
        currency: String::from_str(currency),
        observed_at: if observed_at == 0 {
            now
        } else {
            observed_at
        },
        source_reference: String::from_str(source_reference),
        idempotency_key: lookup_key(idempotency_key),
        notes: match notes {
            Some(n) => Some(String::from_str(n)),
            None => None,
        },
    }
}

} // verus!
