use budget::decimal::Dec;
use budget::manager::biz::portfolio::fifo::{
    fifo_disposal_allocations, try_fifo_disposal_allocations, FifoError, Lot,
};

fn dec(s: &str) -> Dec {
    Dec::parse(s).unwrap()
}

fn lot(id: &str, qty: &str, cost: i64) -> Lot {
    Lot {
        id: id.to_string(),
        quantity_open: dec(qty),
        cost_per_unit_minor: cost,
    }
}

#[test]
fn empty_lots_returns_error() {
    let err = fifo_disposal_allocations(&[], dec("1")).unwrap_err();
    match err {
        FifoError::InsufficientOpenQuantity { .. } => {}
        other => panic!("unexpected error: {other:?}"),
    }
}

#[test]
fn zero_quantity_returns_error() {
    let lots = vec![lot("a", "10", 100)];
    let err = fifo_disposal_allocations(&lots, dec("0")).unwrap_err();
    assert!(matches!(err, FifoError::NonPositiveQuantity));
}

#[test]
fn exceeds_open_quantity_returns_error() {
    let lots = vec![lot("a", "10", 100)];
    let err = fifo_disposal_allocations(&lots, dec("11")).unwrap_err();
    assert!(matches!(err, FifoError::InsufficientOpenQuantity { .. }));
}

#[test]
fn single_lot_partial_fill() {
    let lots = vec![lot("a", "10", 100)];
    let alloc = fifo_disposal_allocations(&lots, dec("4")).unwrap();
    assert_eq!(alloc.len(), 1);
    assert_eq!(alloc[0].lot_id, "a");
    assert_eq!(alloc[0].quantity, dec("4"));
    assert_eq!(alloc[0].cost_basis_minor, 400);
}

#[test]
fn multiple_lots_fifo_order() {
    let lots = vec![
        lot("a", "10", 100), // oldest
        lot("b", "10", 200),
        lot("c", "10", 300), // newest
    ];
    let alloc = fifo_disposal_allocations(&lots, dec("25")).unwrap();
    assert_eq!(alloc.len(), 3);
    assert_eq!(alloc[0].lot_id, "a");
    assert_eq!(alloc[0].quantity, dec("10"));
    assert_eq!(alloc[0].cost_basis_minor, 1000);
    assert_eq!(alloc[1].lot_id, "b");
    assert_eq!(alloc[1].quantity, dec("10"));
    assert_eq!(alloc[1].cost_basis_minor, 2000);
    assert_eq!(alloc[2].lot_id, "c");
    assert_eq!(alloc[2].quantity, dec("5"));
    assert_eq!(alloc[2].cost_basis_minor, 1500);
}

#[test]
fn exact_fill() {
    let lots = vec![lot("a", "5", 100), lot("b", "5", 100)];
    let alloc = fifo_disposal_allocations(&lots, dec("10")).unwrap();
    assert_eq!(alloc.len(), 2);
    assert_eq!(alloc[0].quantity, dec("5"));
    assert_eq!(alloc[1].quantity, dec("5"));
}

#[test]
fn deterministic_tie_break_by_lot_id() {
    // The caller is responsible for the order; the lots are walked as given.
    let lots = vec![lot("b", "10", 100), lot("a", "10", 100)];
    let alloc = fifo_disposal_allocations(&lots, dec("10")).unwrap();
    assert_eq!(alloc[0].lot_id, "b");
}

#[test]
fn fifo_allocated_quantities_add_up_to_the_disposal() {
    let lots = vec![lot("a", "1.5", 100), lot("b", "1.75", 200), lot("c", "4", 300)];
    let alloc = fifo_disposal_allocations(&lots, dec("3.5")).unwrap();
    let mut total = Dec::zero();
    for a in &alloc {
        total = total.checked_add(&a.quantity).unwrap();
    }
    assert_eq!(total, dec("3.5"));
    assert_eq!(alloc.len(), 3);
    assert_eq!(alloc[2].quantity, dec("0.25"));
}

#[test]
fn fifo_skips_empty_and_negative_lots() {
    let lots = vec![lot("a", "0", 100), lot("b", "-2", 100), lot("c", "5", 100)];
    let alloc = fifo_disposal_allocations(&lots, dec("1")).unwrap();
    assert_eq!(alloc.len(), 1);
    assert_eq!(alloc[0].lot_id, "c");
}

#[test]
fn fifo_cost_rounds_half_to_even() {
    // 0.5 * 3 = 1.5 -> 2; 0.5 * 5 = 2.5 -> 2.
    let alloc = fifo_disposal_allocations(&[lot("a", "10", 3)], dec("0.5")).unwrap();
    assert_eq!(alloc[0].cost_basis_minor, 2);
    let alloc = fifo_disposal_allocations(&[lot("a", "10", 5)], dec("0.5")).unwrap();
    assert_eq!(alloc[0].cost_basis_minor, 2);
}

#[test]
fn fifo_insufficient_error_texts() {
    let err = fifo_disposal_allocations(&[lot("a", "1.50", 1), lot("b", "2", 1)], dec("7.25")).unwrap_err();
    match &err {
        FifoError::InsufficientOpenQuantity { requested, available } => {
            assert_eq!(requested, "7.25");
            assert_eq!(available, "3.50");
        }
        other => panic!("unexpected error: {other:?}"),
    }
    assert_eq!(err.message(), "disposal quantity 7.25 exceeds open quantity 3.50");
    assert_eq!(FifoError::NonPositiveQuantity.message(), "disposal quantity must be positive");
}

#[test]
fn negative_quantity_returns_error() {
    let err = fifo_disposal_allocations(&[lot("a", "1", 1)], dec("-1")).unwrap_err();
    assert!(matches!(err, FifoError::NonPositiveQuantity));
}

#[test]
fn fifo_large_cost_on_a_finely_scaled_quantity() {
    // 10^12 minor units per share times 10^6 shares written at scale 18:
    // the product is rescaled, not refused.
    let lots = vec![lot("a", "2000000", 1_000_000_000_000)];
    let q = dec("1000000.000000000000000000");
    let alloc = try_fifo_disposal_allocations(&lots, q).unwrap().unwrap();
    assert_eq!(alloc.len(), 1);
    assert_eq!(alloc[0].lot_id, "a");
    assert_eq!(alloc[0].quantity, dec("1000000"));
    assert_eq!(alloc[0].cost_basis_minor, 1_000_000_000_000_000_000);
    let alloc = fifo_disposal_allocations(&lots, q).unwrap();
    assert_eq!(alloc[0].cost_basis_minor, 1_000_000_000_000_000_000);
}

#[test]
fn fifo_cost_beyond_i64_saturates() {
    let lots = vec![lot("a", "10", i64::MAX)];
    let alloc = fifo_disposal_allocations(&lots, dec("2")).unwrap();
    assert_eq!(alloc[0].cost_basis_minor, i64::MAX);
}
