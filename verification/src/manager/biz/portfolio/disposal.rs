//! Recording the sale of a stock lot: the checks on the quantity sold, the
//! FIFO allocation of the sale, the realized profit and the lot's new
//! state.

use super::fifo::{
    abs_total, alloc_cost, allocation_parts, fifo_defined, fifo_disposal_allocations, fifo_fits,
    fifo_plan, fifo_plan_parts, fifo_rest_parts, fifo_scale, fifo_total, lot_cost, max_scale_of,
    open_total, parts_text, parts_value, try_fifo_disposal_allocations, DisposalAllocation, Lot,
};
use super::AssetStatus;
use crate::decimal::{abs, decimal_checked_sub, decimal_from_str, decimal_text, in_i64, max_nat, Dec};
use crate::status::{is_status, Code, Status};
use crate::text::int_to_text;
use vstd::prelude::*;

verus! {

/// Parses a decimal text of a request or a stored row.
pub fn parse_decimal_field(value: &str) -> (r: Result<Dec, Status>)
    ensures
        decimal_from_str(value@) is None ==> (r matches Err(s) && is_status(
            s,
            Code::InvalidArgument,
            "invalid decimal: "@ + value@,
        )),
        decimal_from_str(value@) is Some ==> (r is Ok && r.unwrap().parts() == decimal_from_str(
            value@,
        ).unwrap()),
{
    match Dec::parse(value) {
        Some(d) => Ok(d),
        None => {
            let m = String::from_str("invalid decimal: ").concat(value);
            Err(Status::invalid_argument(m.as_str()))
        },
    }
}

/// A sale goes ahead only for a stock lot found in the budget; otherwise it
/// is refused before anything is written.
pub fn check_lot_in_budget(found: bool) -> (r: Result<(), Status>)
    ensures
        !found ==> (r matches Err(s) && is_status(s, Code::NotFound, "stock lot not found"@)),
        found ==> r is Ok,
{
    if found {
        Ok(())
    } else {
        Err(Status::not_found("stock lot not found"))
    }
}

/// The one open lot that a stock sale is allocated against.
pub open spec fn sale_lot(lot_id: String, buy_price_per_share: i64, quantity_open: Dec) -> Lot {
    Lot { id: lot_id, quantity_open, cost_per_unit_minor: buy_price_per_share }
}

/// Sale proceeds less the fees that were charged (negative fees count as none).
pub open spec fn net_proceeds(sale_proceeds: i64, sale_fees: i64) -> int {
    sale_proceeds - if sale_fees > 0 {
        sale_fees as int
    } else {
        0
    }
}

/// What selling a quantity of a stock lot changes.
#[derive(Debug, Clone)]
pub struct StockDisposalPlan {
    /// The FIFO allocation of the sale.
    pub allocations: Vec<DisposalAllocation>,
    /// The quantity still open after the sale.
    pub new_open: Dec,
    /// The cost basis of what was sold.
    pub cost_basis_allocated: i64,
    /// Net proceeds less the cost basis.
    pub realized_pnl: i64,
    /// `SOLD` once nothing is open, else `ACTIVE`.
    pub new_status: AssetStatus,
    /// Whether the lot is closed by the sale.
    pub closes: bool,
}

/// What a sale of `q` takes from a lot with `open` open: the whole lot
/// when it is all that is needed, else the quantity sold.
pub open spec fn sale_take(open: Dec, q: Dec) -> (int, int) {
    if open.val() <= q.val() {
        open.parts()
    } else {
        q.parts()
    }
}

/// Whether the FIFO allocation of a sale succeeds, as `rust_decimal`
/// computes it: the sale is within the open total and nothing is left
/// unallocated.
pub open spec fn sale_allocated(lots: Seq<Lot>, q: Dec) -> bool {
    q.val() <= parts_value(fifo_total(lots)) && parts_value(fifo_rest_parts(lots, 0, q.parts())) <= 0
}

/// The open quantity that a refused allocation names.
pub open spec fn sale_refusal_available(lots: Seq<Lot>, q: Dec) -> (int, int) {
    if q.val() > parts_value(fifo_total(lots)) {
        fifo_total(lots)
    } else {
        decimal_checked_sub(fifo_total(lots), fifo_rest_parts(lots, 0, q.parts())).unwrap()
    }
}

/// Whether planning a sale stays within what `rust_decimal` and `i64` hold:
/// for a sale within the open quantity, the allocation and the new open
/// quantity do not overflow `rust_decimal` (they never do when exact,
/// `fifo_fits`), and for an allocated sale the net proceeds and the
/// realized profit fit in `i64`.
pub open spec fn stock_disposal_defined(
    lot_id: String,
    price: i64,
    open: Dec,
    sold: Dec,
    proceeds: i64,
    fees: i64,
) -> bool {
    let lots = seq![sale_lot(lot_id, price, open)];
    &&& 0 < sold.val() <= open.val() ==> (fifo_fits(lots, sold) || (fifo_defined(lots, sold)
        && decimal_checked_sub(open.parts(), sold.parts()) is Some))
    &&& 0 < sold.val() <= open.val() && sale_allocated(lots, sold) ==> in_i64(
        net_proceeds(proceeds, fees),
    ) && in_i64(net_proceeds(proceeds, fees) - lot_cost(price, sale_take(open, sold)))
}

/// What planning the sale of `sold` from a lot with `open` open, bought at
/// `price`, gives: refusal of a quantity that is not positive or exceeds
/// what is open; refusal, with the allocation's own words, of a sale that
/// the allocation leaves partly unallocated; otherwise the one allocation
/// entry, its cost basis, the realized profit and the lot's new state.
/// Where the arithmetic is exact the quantities and the cost are the exact
/// ones.
pub open spec fn stock_disposal_outcome(
    lot_id: String,
    price: i64,
    open: Dec,
    sold: Dec,
    proceeds: i64,
    fees: i64,
    r: Result<StockDisposalPlan, Status>,
) -> bool {
    let lots = seq![sale_lot(lot_id, price, open)];
    &&& sold.val() <= 0 ==> (r matches Err(s) && is_status(
        s,
        Code::InvalidArgument,
        "quantity_sold must be > 0"@,
    ))
    &&& 0 < sold.val() && sold.val() > open.val() ==> (r matches Err(s) && is_status(
        s,
        Code::InvalidArgument,
        "quantity_sold exceeds open quantity"@,
    ))
    &&& 0 < sold.val() <= open.val() && !sale_allocated(lots, sold) ==> (r matches Err(s)
        && is_status(
        s,
        Code::InvalidArgument,
        "fifo: disposal quantity "@ + decimal_text(sold.m(), sold.s()) + " exceeds open quantity "@
            + parts_text(sale_refusal_available(lots, sold)),
    ))
    &&& 0 < sold.val() <= open.val() && sale_allocated(lots, sold) ==> (r is Ok && ({
        let p = r.unwrap();
        let take = sale_take(open, sold);
        let cost = lot_cost(price, take);
        &&& p.allocations@.map_values(|a: DisposalAllocation| allocation_parts(a)) == seq![
            (lot_id@, take, cost),
        ]
        &&& p.cost_basis_allocated == cost
        &&& p.realized_pnl == net_proceeds(proceeds, fees) - cost
        &&& p.new_open.parts() == decimal_checked_sub(open.parts(), sold.parts()).unwrap()
        &&& p.closes == (p.new_open.val() == 0)
        &&& p.new_status == if p.closes {
            AssetStatus::Sold
        } else {
            AssetStatus::Active
        }
    }))
    &&& 0 < sold.val() <= open.val() && fifo_fits(lots, sold) ==> (r is Ok && ({
        let p = r.unwrap();
        let cost = alloc_cost(price as int, sold.val());
        &&& p.allocations@.map_values(|a: DisposalAllocation| a.view_parts()) == seq![
            (lot_id@, sold.val(), cost),
        ]
        &&& p.cost_basis_allocated == cost
        &&& p.realized_pnl == net_proceeds(proceeds, fees) - cost
        &&& p.new_open.val() == open.val() - sold.val()
        &&& p.closes == (sold.val() == open.val())
    }))
}

/// Plans the sale of `quantity_sold` from a stock lot with `quantity_open`
/// open, bought at `buy_price_per_share`: the quantity must be positive and
/// no more than what is open. The arithmetic must not overflow
/// `rust_decimal` or `i64` (`stock_disposal_defined`).
pub fn plan_stock_disposal(
    lot_id: &String,
    buy_price_per_share: i64,
    quantity_open: Dec,
    quantity_sold: Dec,
    sale_proceeds: i64,
    sale_fees: i64,
) -> (r: Result<StockDisposalPlan, Status>)
    requires
        stock_disposal_defined(
            *lot_id,
            buy_price_per_share,
            quantity_open,
            quantity_sold,
            sale_proceeds,
            sale_fees,
        ),
    ensures
        stock_disposal_outcome(
            *lot_id,
            buy_price_per_share,
            quantity_open,
            quantity_sold,
            sale_proceeds,
            sale_fees,
            r,
        ),
{
    if !quantity_sold.is_positive() {
        return Err(Status::invalid_argument("quantity_sold must be > 0"));
    }
    if quantity_open.lt(&quantity_sold) {
        return Err(Status::invalid_argument("quantity_sold exceeds open quantity"));
    }
    let ghost lots = seq![sale_lot(*lot_id, buy_price_per_share, quantity_open)];
    let ghost exact = fifo_fits(lots, quantity_sold);
    proof {
        quantity_open.lemma_scale_bound();
        quantity_sold.lemma_scale_bound();
        assert(lots[0] == sale_lot(*lot_id, buy_price_per_share, quantity_open));
        assert(abs_total(lots, 0) == 0);
        assert(abs_total(lots, 1) == abs(quantity_open.val()));
        assert(max_scale_of(lots, 0) == 0);
        assert(max_scale_of(lots, 1) == quantity_open.s());
        assert(fifo_scale(lots, quantity_sold) == max_nat(quantity_open.s(), quantity_sold.s()));
        assert(open_total(lots, 0) == 0);
        assert(open_total(lots, 1) == quantity_open.val());
    }
    let new_open = match quantity_open.checked_sub(&quantity_sold) {
        Some(d) => d,
        None => {
            return Err(Status::invalid_argument("quantity_sold exceeds open quantity"));
        },
    };
    let lot = Lot {
        id: lot_id.clone(),
        quantity_open,
        cost_per_unit_minor: buy_price_per_share,
    };
    let lots_for_fifo = vec![lot];
    proof {
        assert(lots_for_fifo@ =~= lots);
    }
    let allocations = match fifo_disposal_allocations(lots_for_fifo.as_slice(), quantity_sold) {
        Ok(a) => a,
        Err(e) => {
            let em = e.message();
            let m = String::from_str("fifo: ").concat(em.as_str());
            proof {
                let avail = sale_refusal_available(lots, quantity_sold);
                let req = decimal_text(quantity_sold.m(), quantity_sold.s());
                assert(em@ == "disposal quantity "@ + req + " exceeds open quantity "@ + parts_text(
                    avail,
                ));
                assert(m@ =~= "fifo: disposal quantity "@ + req + " exceeds open quantity "@
                    + parts_text(avail)) by {
                    reveal_strlit("fifo: ");
                    reveal_strlit("disposal quantity ");
                    reveal_strlit("fifo: disposal quantity ");
                }
            }
            return Err(Status::invalid_argument(m.as_str()));
        },
    };
    let ghost take = sale_take(quantity_open, quantity_sold);
    let ghost cost = lot_cost(buy_price_per_share, take);
    proof {
        assert(parts_value(quantity_sold.parts()) == quantity_sold.val());
        assert(parts_value(quantity_open.parts()) == quantity_open.val());
        assert(parts_value(take) > 0);
        reveal_with_fuel(fifo_plan_parts, 2);
        assert(fifo_plan_parts(lots, 1, decimal_checked_sub(quantity_sold.parts(), take).unwrap())
            =~= Seq::<(Seq<char>, (int, int), int)>::empty());
        assert(fifo_plan_parts(lots, 0, quantity_sold.parts()) =~= seq![(lot_id@, take, cost)]);
        assert(allocations@.map_values(|a: DisposalAllocation| allocation_parts(a)).len() == 1);
        assert(allocations@.len() == 1);
        assert(allocations@.map_values(|a: DisposalAllocation| allocation_parts(a))[0]
            == allocation_parts(allocations@[0]));
        if exact {
            reveal_with_fuel(fifo_plan, 3);
            let ecost = alloc_cost(buy_price_per_share as int, quantity_sold.val());
            assert(fifo_plan(lots, 1, 0) =~= Seq::<(Seq<char>, int, int)>::empty());
            assert(fifo_plan(lots, 0, quantity_sold.val()) =~= seq![
                (lot_id@, quantity_sold.val(), ecost),
            ]);
            assert(allocations@.map_values(|a: DisposalAllocation| a.view_parts())[0]
                == allocations@[0].view_parts());
        }
    }
    let mut cost_basis_allocated: i64 = 0;
    let mut k: usize = 0;
    while k < allocations.len()
        invariant
            allocations@.len() == 1,
            allocations@[0].cost_basis_minor == cost,
            in_i64(cost),
            k <= 1,
            cost_basis_allocated == if k == 0 {
                0
            } else {
                cost
            },
        decreases 1 - k,
    {
        cost_basis_allocated = cost_basis_allocated + allocations[k].cost_basis_minor;
        k = k + 1;
    }
    let fees: i64 = if sale_fees > 0 {
        sale_fees
    } else {
        0
    };
    let net = sale_proceeds - fees;
    let realized_pnl = net - cost_basis_allocated;
    let closes = new_open.is_zero();
    let new_status = if closes {
        AssetStatus::Sold
    } else {
        AssetStatus::Active
    };
    Ok(StockDisposalPlan {
        allocations,
        new_open,
        cost_basis_allocated,
        realized_pnl,
        new_status,
        closes,
    })
}

/// Plans a sale as `plan_stock_disposal` does where its arithmetic stays
/// within `rust_decimal` and `i64`; `None` where it would not.
pub fn try_plan_stock_disposal(
    lot_id: &String,
    buy_price_per_share: i64,
    quantity_open: Dec,
    quantity_sold: Dec,
    sale_proceeds: i64,
    sale_fees: i64,
) -> (r: Option<Result<StockDisposalPlan, Status>>)
    ensures
        r is None <==> !stock_disposal_defined(
            *lot_id,
            buy_price_per_share,
            quantity_open,
            quantity_sold,
            sale_proceeds,
            sale_fees,
        ),
        r is Some ==> stock_disposal_outcome(
            *lot_id,
            buy_price_per_share,
            quantity_open,
            quantity_sold,
            sale_proceeds,
            sale_fees,
            r.unwrap(),
        ),
{
    if !quantity_sold.is_positive() || quantity_open.lt(&quantity_sold) {
        return Some(
            plan_stock_disposal(
                lot_id,
                buy_price_per_share,
                quantity_open,
                quantity_sold,
                sale_proceeds,
                sale_fees,
            ),
        );
    }
    let ghost lots = seq![sale_lot(*lot_id, buy_price_per_share, quantity_open)];
    proof {
        quantity_open.lemma_scale_bound();
        quantity_sold.lemma_scale_bound();
        assert(lots[0] == sale_lot(*lot_id, buy_price_per_share, quantity_open));
        assert(abs_total(lots, 0) == 0);
        assert(abs_total(lots, 1) == abs(quantity_open.val()));
        assert(max_scale_of(lots, 0) == 0);
        assert(max_scale_of(lots, 1) == quantity_open.s());
        assert(fifo_scale(lots, quantity_sold) == max_nat(quantity_open.s(), quantity_sold.s()));
        assert(open_total(lots, 0) == 0);
        assert(open_total(lots, 1) == quantity_open.val());
    }
    let lot = Lot {
        id: lot_id.clone(),
        quantity_open,
        cost_per_unit_minor: buy_price_per_share,
    };
    let lots_for_fifo = vec![lot];
    proof {
        assert(lots_for_fifo@ =~= lots);
    }
    let outcome = match try_fifo_disposal_allocations(lots_for_fifo.as_slice(), quantity_sold) {
        Some(o) => o,
        None => {
            return None;
        },
    };
    if quantity_open.checked_sub(&quantity_sold).is_none() {
        return None;
    }
    let cost = match outcome {
        Ok(allocations) => {
            let ghost take = sale_take(quantity_open, quantity_sold);
            let ghost cost = lot_cost(buy_price_per_share, take);
            proof {
                assert(parts_value(quantity_sold.parts()) == quantity_sold.val());
                assert(parts_value(quantity_open.parts()) == quantity_open.val());
                assert(parts_value(take) > 0);
                reveal_with_fuel(fifo_plan_parts, 2);
                assert(fifo_plan_parts(
                    lots,
                    1,
                    decimal_checked_sub(quantity_sold.parts(), take).unwrap(),
                ) =~= Seq::<(Seq<char>, (int, int), int)>::empty());
                assert(fifo_plan_parts(lots, 0, quantity_sold.parts()) =~= seq![
                    (lot_id@, take, cost),
                ]);
                assert(allocations@.map_values(|a: DisposalAllocation| allocation_parts(a)).len()
                    == 1);
                assert(allocations@.map_values(|a: DisposalAllocation| allocation_parts(a))[0]
                    == allocation_parts(allocations@[0]));
            }
            allocations[0].cost_basis_minor
        },
        Err(_) => {
            return Some(
                plan_stock_disposal(
                    lot_id,
                    buy_price_per_share,
                    quantity_open,
                    quantity_sold,
                    sale_proceeds,
                    sale_fees,
                ),
            );
        },
    };
    let fees: i64 = if sale_fees > 0 {
        sale_fees
    } else {
        0
    };
    let net = match sale_proceeds.checked_sub(fees) {
        Some(n) => n,
        None => {
            return None;
        },
    };
    if net.checked_sub(cost).is_none() {
        return None;
    }
    Some(
        plan_stock_disposal(
            lot_id,
            buy_price_per_share,
            quantity_open,
            quantity_sold,
            sale_proceeds,
            sale_fees,
        ),
    )
}

/// The day a disposal is recorded for: the given one, or `now` when none
/// (zero) was given.
pub fn effective_disposal_date(disposal_date: i64, now: i64) -> (r: i64)
    ensures
        r == if disposal_date == 0 {
            now
        } else {
            disposal_date
        },
{
    if disposal_date == 0 {
        now
    } else {
        disposal_date
    }
}

/// The payload of a `DISPOSAL_RECORDED` activity.
pub fn disposal_recorded_payload(quantity_sold: &str, sale_proceeds: i64, realized_pnl: i64) -> (r: String)
    ensures
        r@ == "{\"qty\":\""@ + quantity_sold@ + "\",\"proceeds\":"@ + decimal_text(
            sale_proceeds as int,
            0,
        ) + ",\"pnl\":"@ + decimal_text(realized_pnl as int, 0) + "}"@,
{
    let p = int_to_text(sale_proceeds);
    let n = int_to_text(realized_pnl);
    String::from_str("{\"qty\":\"").concat(quantity_sold).concat("\",\"proceeds\":").concat(
        p.as_str(),
    ).concat(",\"pnl\":").concat(n.as_str()).concat("}")
}

} // verus!
