//! FIFO disposal allocation.
//!
//! Given a list of open lots sorted by acquisition order, return the
//! allocation that consumes the disposal quantity. Deterministic: the lots
//! are walked exactly in the order given, so two callers always get the
//! same result for the same input.

use crate::decimal::{
    abs, decimal_checked_mul, decimal_checked_add, decimal_checked_sub, decimal_text, in_i64, mant_bound, max_nat,
    mul_exact, pow10, rounded_i64, round_half_even, scaled_value, Dec, lemma_pow10_mono,
    lemma_pow10_pos, lemma_round0_is_value_round,
};
use vstd::prelude::*;

verus! {

/// An open lot: what is left of one acquisition.
#[derive(Debug, Clone)]
pub struct Lot {
    pub id: String,
    pub quantity_open: Dec,
    pub cost_per_unit_minor: i64,
}

/// The part of a disposal taken from one lot.
#[derive(Debug, Clone)]
pub struct DisposalAllocation {
    pub lot_id: String,
    pub quantity: Dec,
    pub cost_basis_minor: i64,
}

impl DisposalAllocation {
    /// (lot id, quantity in units of `10^-28`, cost basis).
    pub open spec fn view_parts(self) -> (Seq<char>, int, int) {
        (self.lot_id@, self.quantity.val(), self.cost_basis_minor as int)
    }
}

/// Why a disposal cannot be allocated.
#[derive(Debug, Clone)]
pub enum FifoError {
    NonPositiveQuantity,
    InsufficientOpenQuantity { requested: String, available: String },
}

impl FifoError {
    /// The error message.
    pub fn message(&self) -> (r: String)
        ensures
            r@ == self.spec_message(),
    {
        match self {
            FifoError::NonPositiveQuantity => String::from_str("disposal quantity must be positive"),
            FifoError::InsufficientOpenQuantity { requested, available } => {
                let s = String::from_str("disposal quantity ");
                let s = s.concat(requested.as_str());
                let s = s.concat(" exceeds open quantity ");
                s.concat(available.as_str())
            },
        }
    }

    pub open spec fn spec_message(self) -> Seq<char> {
        match self {
            FifoError::NonPositiveQuantity => "disposal quantity must be positive"@,
            FifoError::InsufficientOpenQuantity { requested, available } => "disposal quantity "@
                + requested@ + " exceeds open quantity "@ + available@,
        }
    }
}

/// Sum of the open quantities of the first `n` lots, in units of `10^-28`.
pub open spec fn open_total(lots: Seq<Lot>, n: int) -> int
    decreases n,
{
    if n <= 0 || n > lots.len() {
        0
    } else {
        open_total(lots, n - 1) + lots[n - 1].quantity_open.val()
    }
}

/// The (mantissa, scale) that adding up the first `n` open quantities with
/// `rust_decimal`, starting from zero, produces (`None` on overflow).
pub open spec fn open_total_parts(lots: Seq<Lot>, n: int) -> Option<(int, int)>
    decreases n,
{
    if n <= 0 || n > lots.len() {
        Some((0, 0))
    } else {
        match open_total_parts(lots, n - 1) {
            Some(p) => decimal_checked_add(p, lots[n - 1].quantity_open.parts()),
            None => None,
        }
    }
}

/// Sum of the magnitudes of the first `n` open quantities.
pub open spec fn abs_total(lots: Seq<Lot>, n: int) -> int
    decreases n,
{
    if n <= 0 || n > lots.len() {
        0
    } else {
        abs_total(lots, n - 1) + abs(lots[n - 1].quantity_open.val())
    }
}

/// Sum of the positive open quantities of the first `n` lots.
pub open spec fn positive_total(lots: Seq<Lot>, n: int) -> int
    decreases n,
{
    if n <= 0 || n > lots.len() {
        0
    } else {
        positive_total(lots, n - 1) + if lots[n - 1].quantity_open.val() > 0 {
            lots[n - 1].quantity_open.val()
        } else {
            0
        }
    }
}

/// The largest scale among the first `n` open quantities.
pub open spec fn max_scale_of(lots: Seq<Lot>, n: int) -> nat
    decreases n,
{
    if n <= 0 || n > lots.len() {
        0
    } else {
        max_nat(max_scale_of(lots, n - 1), lots[n - 1].quantity_open.s())
    }
}

/// The finest scale in play: that of the lots and of the disposal.
pub open spec fn fifo_scale(lots: Seq<Lot>, q: Dec) -> nat {
    max_nat(max_scale_of(lots, lots.len() as int), q.s())
}

/// What a 96-bit mantissa can hold at the finest scale in play.
pub open spec fn fifo_bound(lots: Seq<Lot>, q: Dec) -> int {
    mant_bound() * pow10((28 - fifo_scale(lots, q)) as nat)
}

/// Every sum, difference and cost product of the allocation is held
/// exactly by a decimal: the quantities are within the 96-bit precision
/// of `rust_decimal` at the finest scale in play.
pub open spec fn fifo_fits(lots: Seq<Lot>, q: Dec) -> bool {
    let b = abs_total(lots, lots.len() as int) + abs(q.val());
    &&& b < fifo_bound(lots, q)
    &&& forall|i: int|
        0 <= i < lots.len() ==> abs(#[trigger] lots[i].cost_per_unit_minor as int) * b < fifo_bound(
            lots,
            q,
        )
}

/// Cost of `take` (units of `10^-28`) at `cost` minor units each, rounded
/// half-to-even to a whole minor unit; `i64::MAX` when it does not fit.
pub open spec fn alloc_cost(cost: int, take: int) -> int {
    let c = round_half_even(cost * take, pow10(28));
    if in_i64(c) {
        c
    } else {
        i64::MAX as int
    }
}

/// The allocation of `rem` over the lots from index `i` on, as
/// (lot id, quantity, cost basis): each lot in turn gives all of its open
/// quantity or what is still needed, whichever is smaller; lots that would
/// give nothing are skipped, and the walk stops once nothing is needed.
pub open spec fn fifo_plan(lots: Seq<Lot>, i: int, rem: int) -> Seq<(Seq<char>, int, int)>
    decreases lots.len() - i,
{
    if i < 0 || i >= lots.len() || rem <= 0 {
        Seq::empty()
    } else {
        let lot = lots[i];
        let q = lot.quantity_open.val();
        let take = if q <= rem {
            q
        } else {
            rem
        };
        if take <= 0 {
            fifo_plan(lots, i + 1, rem)
        } else {
            seq![(lot.id@, take, alloc_cost(lot.cost_per_unit_minor as int, take))] + fifo_plan(
                lots,
                i + 1,
                rem - take,
            )
        }
    }
}

/// The value of a (mantissa, scale) pair in units of `10^-28`.
pub open spec fn parts_value(p: (int, int)) -> int {
    scaled_value(p.0, p.1 as nat)
}

/// The cost basis of `take` at `cost` minor units each, as `rust_decimal`
/// computes it: the product rounded half-to-even to a whole minor unit, or
/// `i64::MAX` when that does not fit.
pub open spec fn lot_cost(cost: i64, take: (int, int)) -> int {
    rounded_i64(decimal_checked_mul((cost as int, 0int), take).unwrap())
}

/// The same walk as `fifo_plan`, on decimals as `rust_decimal` holds them:
/// (lot id, quantity as (mantissa, scale), cost basis). A lot gives its
/// open quantity as stored, or what is still needed; what is still needed
/// after a lot is the `rust_decimal` difference.
pub open spec fn fifo_plan_parts(lots: Seq<Lot>, i: int, rem: (int, int)) -> Seq<
    (Seq<char>, (int, int), int),
>
    decreases lots.len() - i,
{
    if i < 0 || i >= lots.len() || parts_value(rem) <= 0 {
        Seq::empty()
    } else {
        let lot = lots[i];
        let take = if lot.quantity_open.val() <= parts_value(rem) {
            lot.quantity_open.parts()
        } else {
            rem
        };
        if parts_value(take) <= 0 {
            fifo_plan_parts(lots, i + 1, rem)
        } else {
            seq![(lot.id@, take, lot_cost(lot.cost_per_unit_minor, take))] + fifo_plan_parts(
                lots,
                i + 1,
                decimal_checked_sub(rem, take).unwrap(),
            )
        }
    }
}

/// What is still needed after the walk from lot `i` on.
pub open spec fn fifo_rest_parts(lots: Seq<Lot>, i: int, rem: (int, int)) -> (int, int)
    decreases lots.len() - i,
{
    if i < 0 || i >= lots.len() || parts_value(rem) <= 0 {
        rem
    } else {
        let lot = lots[i];
        let take = if lot.quantity_open.val() <= parts_value(rem) {
            lot.quantity_open.parts()
        } else {
            rem
        };
        if parts_value(take) <= 0 {
            fifo_rest_parts(lots, i + 1, rem)
        } else {
            fifo_rest_parts(lots, i + 1, decimal_checked_sub(rem, take).unwrap())
        }
    }
}

/// No cost product and no difference of the walk from lot `i` on
/// overflows in `rust_decimal`.
pub open spec fn fifo_walk_defined(lots: Seq<Lot>, i: int, rem: (int, int)) -> bool
    decreases lots.len() - i,
{
    if i < 0 || i >= lots.len() || parts_value(rem) <= 0 {
        true
    } else {
        let lot = lots[i];
        let take = if lot.quantity_open.val() <= parts_value(rem) {
            lot.quantity_open.parts()
        } else {
            rem
        };
        if parts_value(take) <= 0 {
            fifo_walk_defined(lots, i + 1, rem)
        } else {
            &&& decimal_checked_mul((lot.cost_per_unit_minor as int, 0int), take) is Some
            &&& decimal_checked_sub(rem, take) is Some
            &&& fifo_walk_defined(lots, i + 1, decimal_checked_sub(rem, take).unwrap())
        }
    }
}

/// The `rust_decimal` sum of all open quantities.
pub open spec fn fifo_total(lots: Seq<Lot>) -> (int, int) {
    open_total_parts(lots, lots.len() as int).unwrap()
}

/// The allocation does not overflow `rust_decimal`: for a positive
/// disposal, the sum of the open quantities, and, when the disposal does
/// not exceed that sum, every cost product and difference of the walk and
/// the open quantity left unallocated.
pub open spec fn fifo_defined(lots: Seq<Lot>, q: Dec) -> bool {
    q.val() > 0 ==> {
        &&& open_total_parts(lots, lots.len() as int) is Some
        &&& q.val() <= parts_value(fifo_total(lots)) ==> {
            &&& fifo_walk_defined(lots, 0, q.parts())
            &&& parts_value(fifo_rest_parts(lots, 0, q.parts())) > 0 ==> decimal_checked_sub(
                fifo_total(lots),
                fifo_rest_parts(lots, 0, q.parts()),
            ) is Some
        }
    }
}

/// (lot id, quantity as (mantissa, scale), cost basis) of an allocation.
pub open spec fn allocation_parts(a: DisposalAllocation) -> (Seq<char>, (int, int), int) {
    (a.lot_id@, a.quantity.parts(), a.cost_basis_minor as int)
}

/// What allocating `q` over `lots` gives, as `rust_decimal` computes it:
/// refusal of a disposal that is not positive; refusal, naming the open
/// total, of one above the open total; refusal, naming what was allocated,
/// when the walk leaves some of it unallocated; otherwise the walk's plan.
pub open spec fn fifo_outcome(lots: Seq<Lot>, q: Dec, r: Result<Vec<DisposalAllocation>, FifoError>) -> bool {
    let t = fifo_total(lots);
    let rest = fifo_rest_parts(lots, 0, q.parts());
    if q.val() <= 0 {
        r matches Err(FifoError::NonPositiveQuantity)
    } else if q.val() > parts_value(t) {
        r matches Err(FifoError::InsufficientOpenQuantity { requested, available })
            && requested@ == decimal_text(q.m(), q.s()) && available@ == parts_text(t)
    } else if parts_value(rest) > 0 {
        r matches Err(FifoError::InsufficientOpenQuantity { requested, available })
            && requested@ == decimal_text(q.m(), q.s()) && available@ == parts_text(
            decimal_checked_sub(t, rest).unwrap(),
        )
    } else {
        r is Ok && r.unwrap()@.map_values(|a: DisposalAllocation| allocation_parts(a))
            == fifo_plan_parts(lots, 0, q.parts())
    }
}

/// Total quantity of an allocation plan.
pub open spec fn plan_quantity(p: Seq<(Seq<char>, int, int)>) -> int
    decreases p.len(),
{
    if p.len() == 0 {
        0
    } else {
        p[0].1 + plan_quantity(p.drop_first())
    }
}

/// Decimal text of a (mantissa, scale) pair.
pub open spec fn parts_text(p: (int, int)) -> Seq<char> {
    decimal_text(p.0, p.1 as nat)
}

/// The cost basis of `quantity` units at `cost_per_unit_minor` each,
/// rounded half-to-even to a whole minor unit, or `i64::MAX` when that does
/// not fit; zero for a quantity that is not positive; `None` when the
/// product overflows (an exact product, `mul_exact`, never does).
fn per_unit_cost(cost_per_unit_minor: i64, quantity: Dec) -> (r: Option<i64>)
    ensures
        quantity.val() <= 0 ==> r == Some(0i64),
        quantity.val() > 0 ==> (r is None <==> decimal_checked_mul(
            (cost_per_unit_minor as int, 0int),
            quantity.parts(),
        ) is None),
        quantity.val() > 0 && r is Some ==> r.unwrap() == lot_cost(
            cost_per_unit_minor,
            quantity.parts(),
        ),
        quantity.val() > 0 && mul_exact(cost_per_unit_minor as int, 0, quantity.m(), quantity.s())
            ==> r == Some(alloc_cost(cost_per_unit_minor as int, quantity.val()) as i64),
{
    if !quantity.is_positive() {
        return Some(0);
    }
    let c = Dec::from_i64(cost_per_unit_minor);
    let cost = match c.checked_mul(&quantity) {
        Some(x) => x,
        None => {
            return None;
        },
    };
    let rounded = cost.round_dp0();
    proof {
        cost.lemma_scale_bound();
        lemma_round0_is_value_round(cost.m(), cost.s());
        assert(rounded.s() == 0);
        assert(pow10(0) == 1);
        assert(rounded.m() / 1 == rounded.m());
        if mul_exact(cost_per_unit_minor as int, 0, quantity.m(), quantity.s()) {
            quantity.lemma_scale_bound();
            let c = cost_per_unit_minor as int;
            let p = pow10((28 - quantity.s()) as nat);
            assert(quantity.val() == quantity.m() * p);
            if c != 0 && quantity.m() != 0 {
                assert(cost.parts() == (c * quantity.m(), quantity.s() as int));
                assert(cost.val() == (c * quantity.m()) * p);
                assert((c * quantity.m()) * p == c * (quantity.m() * p)) by (nonlinear_arith);
            } else {
                assert(cost.parts() == (0int, 0int));
                let cp = pow10((28 - cost.s()) as nat);
                assert(cost.m() == 0);
                assert(cost.m() * cp == 0) by (nonlinear_arith)
                    requires
                        cost.m() == 0,
                ;
                assert(c * (quantity.m() * p) == 0) by (nonlinear_arith)
                    requires
                        c == 0 || quantity.m() == 0,
                ;
            }
            assert(cost.val() == c * quantity.val());
        }
    }
    match rounded.to_i64() {
        Some(v) => Some(v),
        None => Some(i64::MAX),
    }
}

/// What allocating `q` gives when every sum, difference and cost product
/// is exact (`fifo_fits`): a disposal within the open total is allocated
/// by the plan over exact values; one above it is refused, naming the
/// open total.
pub open spec fn fifo_exact_outcome(lots: Seq<Lot>, q: Dec, r: Result<Vec<DisposalAllocation>, FifoError>) -> bool {
    &&& 0 < q.val() <= open_total(lots, lots.len() as int) ==> (r is Ok
        && r.unwrap()@.map_values(|a: DisposalAllocation| a.view_parts()) == fifo_plan(
        lots,
        0,
        q.val(),
    ))
    &&& q.val() > 0 && q.val() > open_total(lots, lots.len() as int) ==> (r matches Err(
        FifoError::InsufficientOpenQuantity { requested, available },
    ) && requested@ == decimal_text(q.m(), q.s()) && open_total_parts(lots, lots.len() as int) is Some
        && available@ == parts_text(open_total_parts(lots, lots.len() as int).unwrap()))
}

/// Allocate a disposal across open lots in FIFO order, or `None` where
/// `rust_decimal` overflows on the way.
///
/// `lots` must be sorted by acquisition order (oldest first). The
/// algorithm walks the list and consumes each lot's `quantity_open`
/// until the disposal is fully allocated or the lots are exhausted.
pub fn try_fifo_disposal_allocations(lots: &[Lot], disposal_quantity: Dec) -> (r: Option<
    Result<Vec<DisposalAllocation>, FifoError>,
>)
    ensures
        r is None ==> !fifo_defined(lots@, disposal_quantity) && !fifo_fits(
            lots@,
            disposal_quantity,
        ),
        r is Some ==> fifo_defined(lots@, disposal_quantity),
        r is Some ==> fifo_outcome(lots@, disposal_quantity, r.unwrap()),
        r is Some && fifo_fits(lots@, disposal_quantity) ==> fifo_exact_outcome(
            lots@,
            disposal_quantity,
            r.unwrap(),
        ),
{
    let ghost n = lots@.len() as int;
    let ghost exact = fifo_fits(lots@, disposal_quantity);
    let ghost bound = fifo_bound(lots@, disposal_quantity);
    let ghost b = abs_total(lots@, n) + abs(disposal_quantity.val());
    proof {
        disposal_quantity.lemma_scale_bound();
        lemma_fifo_bound_pos(lots@, disposal_quantity);
        lemma_abs_total_mono(lots@, 0, n);
    }
    if !disposal_quantity.is_positive() {
        return Some(Err(FifoError::NonPositiveQuantity));
    }
    let mut total_open = Dec::zero();
    let mut i: usize = 0;
    while i < lots.len()
        invariant
            n == lots@.len(),
            0 <= i <= lots.len(),
            exact == fifo_fits(lots@, disposal_quantity),
            bound == fifo_bound(lots@, disposal_quantity),
            fifo_scale(lots@, disposal_quantity) <= 28,
            b == abs_total(lots@, n) + abs(disposal_quantity.val()),
            abs_total(lots@, n) >= 0,
            disposal_quantity.val() > 0,
            open_total_parts(lots@, i as int) == Some(total_open.parts()),
            exact ==> total_open.val() == open_total(lots@, i as int) && total_open.s()
                <= fifo_scale(lots@, disposal_quantity),
        decreases lots.len() - i,
    {
        let lot = &lots[i];
        proof {
            lot.quantity_open.lemma_scale_bound();
            total_open.lemma_scale_bound();
            if exact {
                lemma_abs_open_total(lots@, i as int + 1);
                lemma_abs_total_mono(lots@, i as int + 1, n);
                lemma_max_scale_of(lots@, i as int, n);
                lemma_bound_mono(
                    fifo_scale(lots@, disposal_quantity),
                    max_nat(total_open.s(), lot.quantity_open.s()),
                );
            }
        }
        match total_open.checked_add(&lot.quantity_open) {
            Some(t) => {
                total_open = t;
            },
            None => {
                proof {
                    lemma_open_total_parts_none(lots@, i as int + 1, n);
                }
                return None;
            },
        }
        i = i + 1;
    }
    let ghost t = total_open.parts();
    proof {
        assert(parts_value(t) == total_open.val());
        assert(fifo_total(lots@) == t);
    }
    if total_open.lt(&disposal_quantity) {
        return Some(
            Err(
                FifoError::InsufficientOpenQuantity {
                    requested: disposal_quantity.to_text(),
                    available: total_open.to_text(),
                },
            ),
        );
    }
    proof {
        if exact {
            lemma_open_le_positive(lots@, n);
        }
    }
    let mut allocations: Vec<DisposalAllocation> = Vec::new();
    let mut remaining = disposal_quantity;
    let mut i: usize = 0;
    while i < lots.len()
        invariant
            n == lots@.len(),
            0 <= i <= lots.len(),
            exact == fifo_fits(lots@, disposal_quantity),
            bound == fifo_bound(lots@, disposal_quantity),
            fifo_scale(lots@, disposal_quantity) <= 28,
            b == abs_total(lots@, n) + abs(disposal_quantity.val()),
            abs_total(lots@, n) >= 0,
            t == total_open.parts(),
            t == fifo_total(lots@),
            0 < disposal_quantity.val() <= parts_value(t),
            fifo_rest_parts(lots@, i as int, remaining.parts()) == fifo_rest_parts(
                lots@,
                0,
                disposal_quantity.parts(),
            ),
            fifo_walk_defined(lots@, i as int, remaining.parts()) == fifo_walk_defined(
                lots@,
                0,
                disposal_quantity.parts(),
            ),
            allocations@.map_values(|a: DisposalAllocation| allocation_parts(a))
                + fifo_plan_parts(lots@, i as int, remaining.parts()) == fifo_plan_parts(
                lots@,
                0,
                disposal_quantity.parts(),
            ),
            exact ==> {
                &&& 0 < disposal_quantity.val() <= open_total(lots@, n)
                &&& 0 <= remaining.val() <= disposal_quantity.val()
                &&& remaining.val() <= positive_total(lots@, n) - positive_total(lots@, i as int)
                &&& remaining.s() <= fifo_scale(lots@, disposal_quantity)
                &&& allocations@.map_values(|a: DisposalAllocation| a.view_parts()) + fifo_plan(
                    lots@,
                    i as int,
                    remaining.val(),
                ) == fifo_plan(lots@, 0, disposal_quantity.val())
            },
        ensures
            i == lots.len() || remaining.val() <= 0,
        decreases lots.len() - i,
    {
        if !remaining.is_positive() {
            break;
        }
        let lot = &lots[i];
        proof {
            lot.quantity_open.lemma_scale_bound();
            remaining.lemma_scale_bound();
            if exact {
                lemma_max_scale_of(lots@, i as int, n);
                lemma_positive_total_step(lots@, i as int, n);
            }
        }
        let take = if lot.quantity_open.le(&remaining) {
            lot.quantity_open
        } else {
            remaining
        };
        let ghost before = allocations@.map_values(|a: DisposalAllocation| a.view_parts());
        let ghost before_parts = allocations@.map_values(
            |a: DisposalAllocation| allocation_parts(a),
        );
        proof {
            assert(parts_value(remaining.parts()) == remaining.val());
            assert(parts_value(lot.quantity_open.parts()) == lot.quantity_open.val());
            assert(parts_value(take.parts()) == take.val());
        }
        if take.is_positive() {
            proof {
                take.lemma_scale_bound();
                if exact {
                    lemma_bound_mono(fifo_scale(lots@, disposal_quantity), take.s());
                    lemma_bound_mono(
                        fifo_scale(lots@, disposal_quantity),
                        max_nat(remaining.s(), take.s()),
                    );
                    assert(abs(lots@[i as int].cost_per_unit_minor as int) * b < bound);
                    lemma_cost_product_fits(
                        lot.cost_per_unit_minor as int,
                        take.m(),
                        take.s(),
                        b,
                        fifo_scale(lots@, disposal_quantity),
                    );
                }
            }
            let cost_basis = match per_unit_cost(lot.cost_per_unit_minor, take) {
                Some(c) => c,
                None => {
                    return None;
                },
            };
            let next = match remaining.checked_sub(&take) {
                Some(x) => x,
                None => {
                    return None;
                },
            };
            allocations.push(
                DisposalAllocation {
                    lot_id: lot.id.clone(),
                    quantity: take,
                    cost_basis_minor: cost_basis,
                },
            );
            proof {
                if exact {
                    let entry = (lot.id@, take.val(), cost_basis as int);
                    assert(allocations@.map_values(|a: DisposalAllocation| a.view_parts())
                        =~= before.push(entry));
                    assert(fifo_plan(lots@, i as int, remaining.val()) == seq![entry] + fifo_plan(
                        lots@,
                        i as int + 1,
                        remaining.val() - take.val(),
                    ));
                    assert(before.push(entry) + fifo_plan(
                        lots@,
                        i as int + 1,
                        next.val(),
                    ) =~= before + (seq![entry] + fifo_plan(lots@, i as int + 1, next.val())));
                }
                let pentry = (lot.id@, take.parts(), cost_basis as int);
                assert(allocations@.map_values(|a: DisposalAllocation| allocation_parts(a))
                    =~= before_parts.push(pentry));
                assert(fifo_plan_parts(lots@, i as int, remaining.parts()) == seq![pentry]
                    + fifo_plan_parts(lots@, i as int + 1, next.parts()));
                assert(before_parts.push(pentry) + fifo_plan_parts(
                    lots@,
                    i as int + 1,
                    next.parts(),
                ) =~= before_parts + (seq![pentry] + fifo_plan_parts(
                    lots@,
                    i as int + 1,
                    next.parts(),
                )));
            }
            remaining = next;
        }
        i = i + 1;
    }
    proof {
        assert(parts_value(remaining.parts()) == remaining.val());
        assert(fifo_rest_parts(lots@, i as int, remaining.parts()) == remaining.parts());
    }
    if remaining.is_positive() {
        let available = match total_open.checked_sub(&remaining) {
            Some(a) => a,
            None => {
                return None;
            },
        };
        return Some(
            Err(
                FifoError::InsufficientOpenQuantity {
                    requested: disposal_quantity.to_text(),
                    available: available.to_text(),
                },
            ),
        );
    }
    proof {
        assert(fifo_plan_parts(lots@, i as int, remaining.parts()) =~= Seq::empty());
        assert(allocations@.map_values(|a: DisposalAllocation| allocation_parts(a))
            + Seq::empty() =~= allocations@.map_values(
            |a: DisposalAllocation| allocation_parts(a),
        ));
        if exact {
            assert(fifo_plan(lots@, i as int, remaining.val()) =~= Seq::empty());
            assert(allocations@.map_values(|a: DisposalAllocation| a.view_parts()) + Seq::empty()
                =~= allocations@.map_values(|a: DisposalAllocation| a.view_parts()));
        }
    }
    Some(Ok(allocations))
}

/// Allocate a disposal across open lots in FIFO order.
///
/// `lots` must be sorted by acquisition order (oldest first). The
/// algorithm walks the list and consumes each lot's `quantity_open`
/// until the disposal is fully allocated or the lots are exhausted.
///
/// Returns an error if the disposal is not positive or exceeds the total
/// open quantity. The arithmetic must not overflow `rust_decimal`
/// (`fifo_defined`), which it never does when it is exact (`fifo_fits`).
pub fn fifo_disposal_allocations(lots: &[Lot], disposal_quantity: Dec) -> (r: Result<
    Vec<DisposalAllocation>,
    FifoError,
>)
    requires
        fifo_defined(lots@, disposal_quantity) || fifo_fits(lots@, disposal_quantity),
    ensures
        fifo_outcome(lots@, disposal_quantity, r),
        fifo_fits(lots@, disposal_quantity) ==> fifo_exact_outcome(lots@, disposal_quantity, r),
{
    match try_fifo_disposal_allocations(lots, disposal_quantity) {
        Some(r) => r,
        None => Err(FifoError::NonPositiveQuantity),
    }
}

// ---------------------------------------------------------------------------
// Laws
// ---------------------------------------------------------------------------

/// A positive disposal that does not exceed the open quantity is allocated
/// exactly: the quantities of the plan add up to the disposal.
pub proof fn lemma_fifo_allocates_exactly(lots: Seq<Lot>, q: int)
    requires
        0 < q <= open_total(lots, lots.len() as int),
    ensures
        plan_quantity(fifo_plan(lots, 0, q)) == q,
{
    lemma_open_le_positive(lots, lots.len() as int);
    lemma_plan_quantity(lots, 0, q);
}

/// Every entry of a plan takes a positive quantity, no more than the open
/// quantity of the lot it names, and the entries follow the order of the
/// lots: entry `k` comes from a lot at an index no smaller than that of
/// entry `k - 1`'s lot plus one.
pub proof fn lemma_fifo_plan_entries(lots: Seq<Lot>, i: int, rem: int)
    requires
        0 <= i,
    ensures
        forall|k: int|
            0 <= k < fifo_plan(lots, i, rem).len() ==> exists|j: int|
                i <= j < lots.len() && #[trigger] fifo_plan(lots, i, rem)[k].0 == lots[j].id@ && 0
                    < fifo_plan(lots, i, rem)[k].1 <= lots[j].quantity_open.val(),
        fifo_plan(lots, i, rem).len() <= lots.len() - i || i >= lots.len(),
    decreases lots.len() - i,
{
    if i >= lots.len() || rem <= 0 {
    } else {
        lemma_fifo_plan_entries(lots, i + 1, rem);
        let lot = lots[i];
        let qv = lot.quantity_open.val();
        let take = if qv <= rem {
            qv
        } else {
            rem
        };
        if take > 0 {
            let tail = fifo_plan(lots, i + 1, rem - take);
            lemma_fifo_plan_entries(lots, i + 1, rem - take);
            let p = fifo_plan(lots, i, rem);
            assert forall|k: int| 0 <= k < p.len() implies exists|j: int|
                i <= j < lots.len() && #[trigger] p[k].0 == lots[j].id@ && 0 < p[k].1
                    <= lots[j].quantity_open.val() by {
                if k == 0 {
                    assert(p[0].0 == lots[i].id@);
                } else {
                    assert(p[k] == tail[k - 1]);
                    let j = choose|j: int|
                        i + 1 <= j < lots.len() && #[trigger] tail[k - 1].0 == lots[j].id@ && 0
                            < tail[k - 1].1 <= lots[j].quantity_open.val();
                    assert(p[k].0 == lots[j].id@);
                }
            }
        }
    }
}

// ---------------------------------------------------------------------------
// Lemmas
// ---------------------------------------------------------------------------

proof fn lemma_plan_quantity(lots: Seq<Lot>, i: int, rem: int)
    requires
        0 <= i <= lots.len(),
        0 <= rem <= positive_total(lots, lots.len() as int) - positive_total(lots, i),
    ensures
        plan_quantity(fifo_plan(lots, i, rem)) == rem,
    decreases lots.len() - i,
{
    if i >= lots.len() {
        lemma_positive_total_nonneg(lots, i);
    } else if rem <= 0 {
    } else {
        lemma_positive_total_step(lots, i, lots.len() as int);
        let lot = lots[i];
        let qv = lot.quantity_open.val();
        let take = if qv <= rem {
            qv
        } else {
            rem
        };
        if take <= 0 {
            lemma_plan_quantity(lots, i + 1, rem);
        } else {
            lemma_positive_total_mono(lots, i + 1, lots.len() as int);
            lemma_plan_quantity(lots, i + 1, rem - take);
            let p = fifo_plan(lots, i, rem);
            assert(p.drop_first() =~= fifo_plan(lots, i + 1, rem - take));
        }
    }
}

proof fn lemma_fifo_bound_pos(lots: Seq<Lot>, q: Dec)
    ensures
        fifo_bound(lots, q) > 0,
        fifo_scale(lots, q) <= 28,
{
    lemma_max_scale_le_28(lots, lots.len() as int);
    q.lemma_scale_bound();
    lemma_pow10_pos((28 - fifo_scale(lots, q)) as nat);
    vstd::arithmetic::mul::lemma_mul_strictly_positive(
        mant_bound(),
        pow10((28 - fifo_scale(lots, q)) as nat),
    );
}

/// A coarser scale leaves at least as much room as a finer one.
proof fn lemma_bound_mono(fine: nat, s: nat)
    requires
        s <= fine,
        fine <= 28,
    ensures
        mant_bound() * pow10((28 - fine) as nat) <= mant_bound() * pow10((28 - s) as nat),
{
    lemma_pow10_mono((28 - fine) as nat, (28 - s) as nat);
    vstd::arithmetic::mul::lemma_mul_inequality(
        pow10((28 - fine) as nat),
        pow10((28 - s) as nat),
        mant_bound(),
    );
    vstd::arithmetic::mul::lemma_mul_is_commutative(mant_bound(), pow10((28 - fine) as nat));
    vstd::arithmetic::mul::lemma_mul_is_commutative(mant_bound(), pow10((28 - s) as nat));
}

proof fn lemma_abs_open_total(lots: Seq<Lot>, n: int)
    ensures
        abs(open_total(lots, n)) <= abs_total(lots, n),
    decreases n,
{
    if n > 0 && n <= lots.len() {
        lemma_abs_open_total(lots, n - 1);
    }
}

proof fn lemma_abs_total_mono(lots: Seq<Lot>, i: int, j: int)
    requires
        i <= j <= lots.len(),
    ensures
        abs_total(lots, i) <= abs_total(lots, j),
    decreases j - i,
{
    if i < j {
        lemma_abs_total_mono(lots, i, j - 1);
    }
}

proof fn lemma_positive_total_nonneg(lots: Seq<Lot>, n: int)
    ensures
        positive_total(lots, n) >= 0,
    decreases n,
{
    if n > 0 && n <= lots.len() {
        lemma_positive_total_nonneg(lots, n - 1);
    }
}

proof fn lemma_positive_total_mono(lots: Seq<Lot>, i: int, j: int)
    requires
        i <= j <= lots.len(),
    ensures
        positive_total(lots, i) <= positive_total(lots, j),
    decreases j - i,
{
    if i < j {
        lemma_positive_total_mono(lots, i, j - 1);
    }
}

proof fn lemma_positive_total_step(lots: Seq<Lot>, i: int, n: int)
    requires
        0 <= i < n,
        n == lots.len(),
    ensures
        positive_total(lots, i + 1) == positive_total(lots, i) + if lots[i].quantity_open.val()
            > 0 {
            lots[i].quantity_open.val()
        } else {
            0
        },
        positive_total(lots, i + 1) <= positive_total(lots, n),
{
    lemma_positive_total_mono(lots, i + 1, n);
}

proof fn lemma_open_le_positive(lots: Seq<Lot>, n: int)
    ensures
        open_total(lots, n) <= positive_total(lots, n),
    decreases n,
{
    if n > 0 && n <= lots.len() {
        lemma_open_le_positive(lots, n - 1);
    }
}

proof fn lemma_max_scale_of(lots: Seq<Lot>, i: int, n: int)
    requires
        0 <= i < n <= lots.len(),
    ensures
        lots[i].quantity_open.s() <= max_scale_of(lots, n),
    decreases n,
{
    if i < n - 1 {
        lemma_max_scale_of(lots, i, n - 1);
    }
}

proof fn lemma_open_total_parts_none(lots: Seq<Lot>, j: int, k: int)
    requires
        0 < j <= k <= lots.len(),
        open_total_parts(lots, j) is None,
    ensures
        open_total_parts(lots, k) is None,
    decreases k - j,
{
    if j < k {
        lemma_open_total_parts_none(lots, j + 1, k);
    }
}

proof fn lemma_max_scale_le_28(lots: Seq<Lot>, n: int)
    ensures
        max_scale_of(lots, n) <= 28,
    decreases n,
{
    if n > 0 && n <= lots.len() {
        lemma_max_scale_le_28(lots, n - 1);
        lots[n - 1].quantity_open.lemma_scale_bound();
    }
}

/// The cost product of a quantity bounded by `b` fits a 96-bit mantissa.
proof fn lemma_cost_product_fits(cost: int, m: int, s: nat, b: int, fine: nat)
    requires
        s <= fine <= 28,
        0 < m * pow10((28 - s) as nat) <= b,
        abs(cost) * b < mant_bound() * pow10((28 - fine) as nat),
        mant_bound() * pow10((28 - fine) as nat) <= mant_bound() * pow10((28 - s) as nat),
    ensures
        mul_exact(cost, 0, m, s),
{
    let p = pow10((28 - s) as nat);
    lemma_pow10_pos((28 - s) as nat);
    let mb = mant_bound();
    assert(abs(cost * m) * p == abs(cost) * (m * p)) by (nonlinear_arith)
        requires
            m * p > 0,
            p > 0,
    ;
    assert(abs(cost) * (m * p) <= abs(cost) * b) by (nonlinear_arith)
        requires
            m * p <= b,
            abs(cost) >= 0,
    ;
    assert(abs(cost * m) < mb) by (nonlinear_arith)
        requires
            abs(cost * m) * p < mb * p,
            p > 0,
    ;
}

} // verus!
