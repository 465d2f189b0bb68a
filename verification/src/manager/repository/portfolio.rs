//! Portfolio repository helpers that need no database.

use crate::decimal::{decimal_text, Dec};
use crate::manager::biz::portfolio::fifo::{
    fifo_disposal_allocations, fifo_fits, fifo_plan, open_total, open_total_parts, parts_text,
    DisposalAllocation, Lot,
};
use vstd::prelude::*;

verus! {

/// The prefix of the message that a failed allocation is reported with.
pub open spec fn fifo_failure_prefix() -> Seq<char> {
    "fifo allocation failed: "@
}

/// Run the FIFO allocation for a disposal, reporting a failure as a message
/// that starts with `fifo allocation failed: `.
pub fn run_fifo(lots: &[Lot], qty: Dec) -> (r: Result<Vec<DisposalAllocation>, String>)
    requires
        fifo_fits(lots@, qty),
    ensures
        qty.val() <= 0 ==> (r is Err && r->Err_0@ == fifo_failure_prefix()
            + "disposal quantity must be positive"@),
        qty.val() > 0 && qty.val() > open_total(lots@, lots@.len() as int) ==> (r is Err
            && open_total_parts(lots@, lots@.len() as int) is Some && r->Err_0@
            == fifo_failure_prefix() + "disposal quantity "@ + decimal_text(qty.m(), qty.s())
            + " exceeds open quantity "@ + parts_text(
            open_total_parts(lots@, lots@.len() as int).unwrap(),
        )),
        0 < qty.val() <= open_total(lots@, lots@.len() as int) ==> (r is Ok
            && r.unwrap()@.map_values(|a: DisposalAllocation| a.view_parts()) == fifo_plan(
            lots@,
            0,
            qty.val(),
        )),
{
    match fifo_disposal_allocations(lots, qty) {
        Ok(v) => Ok(v),
        Err(e) => {
            let m = e.message();
            let s = String::from_str("fifo allocation failed: ");
            Err(s.concat(m.as_str()))
        },
    }
}

} // verus!
