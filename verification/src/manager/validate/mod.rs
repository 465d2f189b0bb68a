//! Request field validation.

use crate::pb::service::budget::{BudgetRole, BudgetType, RolloverPolicy};
use crate::status::{is_status, Code, Status};
use crate::text::{trim_seq, trimmed_len_capped, utf8_len};
use vstd::prelude::*;

verus! {

/// A budget name: not empty and at most 255 bytes once surrounding white
/// space is trimmed.
pub fn budget_name(name: &str) -> (r: Result<(), Status>)
    ensures
        trim_seq(name@).len() == 0 ==> (r matches Err(s) && is_status(
            s,
            Code::InvalidArgument,
            "Budget name must not be empty"@,
        )),
        trim_seq(name@).len() > 0 && utf8_len(trim_seq(name@)) > 255 ==> (r matches Err(s)
            && is_status(s, Code::InvalidArgument, "Budget name must be 255 characters or fewer"@)),
        trim_seq(name@).len() > 0 && utf8_len(trim_seq(name@)) <= 255 ==> r is Ok,
{
    let (empty, len) = trimmed_len_capped(name, 255);
    if empty {
        return Err(Status::invalid_argument("Budget name must not be empty"));
    }
    if len > 255 {
        return Err(Status::invalid_argument("Budget name must be 255 characters or fewer"));
    }
    Ok(())
}

/// A currency code: not empty and at most 8 bytes once surrounding white
/// space is trimmed.
pub fn currency(code: &str) -> (r: Result<(), Status>)
    ensures
        trim_seq(code@).len() == 0 ==> (r matches Err(s) && is_status(
            s,
            Code::InvalidArgument,
            "Currency must not be empty"@,
        )),
        trim_seq(code@).len() > 0 && utf8_len(trim_seq(code@)) > 8 ==> (r matches Err(s)
            && is_status(s, Code::InvalidArgument, "Currency code must be 8 characters or fewer"@)),
        trim_seq(code@).len() > 0 && utf8_len(trim_seq(code@)) <= 8 ==> r is Ok,
{
    let (empty, len) = trimmed_len_capped(code, 8);
    if empty {
        return Err(Status::invalid_argument("Currency must not be empty"));
    }
    if len > 8 {
        return Err(Status::invalid_argument("Currency code must be 8 characters or fewer"));
    }
    Ok(())
}

/// The budget type with wire number `t`.
pub fn budget_type(t: i32) -> (r: Result<BudgetType, Status>)
    ensures
        BudgetType::spec_from_code(t) matches Some(v) ==> r == Ok::<BudgetType, Status>(v),
        BudgetType::spec_from_code(t) is None ==> (r matches Err(s) && is_status(
            s,
            Code::InvalidArgument,
            "Unknown budget type"@,
        )),
{
    match BudgetType::from_code(t) {
        Some(v) => Ok(v),
        None => Err(Status::invalid_argument("Unknown budget type")),
    }
}

/// The budget role with wire number `r`.
pub fn budget_role(r: i32) -> (res: Result<BudgetRole, Status>)
    ensures
        BudgetRole::spec_from_code(r) matches Some(v) ==> res == Ok::<BudgetRole, Status>(v),
        BudgetRole::spec_from_code(r) is None ==> (res matches Err(s) && is_status(
            s,
            Code::InvalidArgument,
            "Unknown budget role"@,
        )),
{
    match BudgetRole::from_code(r) {
        Some(v) => Ok(v),
        None => Err(Status::invalid_argument("Unknown budget role")),
    }
}

/// The rollover policy with wire number `p`.
pub fn rollover_policy(p: i32) -> (r: Result<RolloverPolicy, Status>)
    ensures
        RolloverPolicy::spec_from_code(p) matches Some(v) ==> r == Ok::<RolloverPolicy, Status>(v),
        RolloverPolicy::spec_from_code(p) is None ==> (r matches Err(s) && is_status(
            s,
            Code::InvalidArgument,
            "Unknown rollover policy"@,
        )),
{
    match RolloverPolicy::from_code(p) {
        Some(v) => Ok(v),
        None => Err(Status::invalid_argument("Unknown rollover policy")),
    }
}

/// An envelope limit: not negative.
pub fn envelope_limit(limit: i64) -> (r: Result<(), Status>)
    ensures
        limit < 0 ==> (r matches Err(s) && is_status(
            s,
            Code::InvalidArgument,
            "Envelope limit must not be negative"@,
        )),
        limit >= 0 ==> r is Ok,
{
    if limit < 0 {
        return Err(Status::invalid_argument("Envelope limit must not be negative"));
    }
    Ok(())
}

/// The user id that the gateway puts in the `x-user-id` header: present
/// and not empty.
pub fn user_id_from_metadata(value: Option<&str>) -> (r: Result<String, Status>)
    ensures
        match value {
            Some(v) => v@.len() > 0,
            None => false,
        } ==> (r matches Ok(u) && u@ == value.unwrap()@),
        !match value {
            Some(v) => v@.len() > 0,
            None => false,
        } ==> (r matches Err(s) && is_status(s, Code::Unauthenticated, "missing x-user-id metadata"@)),
{
    match value {
        Some(v) => {
            if v.unicode_len() > 0 {
                return Ok(String::from_str(v));
            }
        },
        None => {},
    }
    Err(Status::unauthenticated("missing x-user-id metadata"))
}

} // verus!
