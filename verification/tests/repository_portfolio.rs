use budget::decimal::Dec;
use budget::manager::biz::portfolio::fifo::Lot;
use budget::manager::repository::portfolio::run_fifo;

fn dec(s: &str) -> Dec {
    Dec::parse(s).unwrap()
}

#[test]
fn fifo_helper_compiles() {
    let lots = vec![
        Lot {
            id: "a".into(),
            quantity_open: dec("1"),
            cost_per_unit_minor: 100,
        },
        Lot {
            id: "b".into(),
            quantity_open: dec("2"),
            cost_per_unit_minor: 200,
        },
    ];
    let alloc = run_fifo(&lots, dec("2.5")).unwrap();
    assert_eq!(alloc.len(), 2);
    assert_eq!(alloc[0].lot_id, "a");
    assert_eq!(alloc[1].lot_id, "b");
}

#[test]
fn fifo_helper_rejects_excess() {
    let lots = vec![Lot {
        id: "a".into(),
        quantity_open: dec("1"),
        cost_per_unit_minor: 100,
    }];
    let err = run_fifo(&lots, dec("5")).unwrap_err();
    assert!(err.contains("fifo"));
}

#[test]
fn fifo_helper_reports_the_full_message() {
    let lots = vec![Lot {
        id: "a".into(),
        quantity_open: dec("1"),
        cost_per_unit_minor: 100,
    }];
    let err = run_fifo(&lots, dec("5")).unwrap_err();
    assert_eq!(err, "fifo allocation failed: disposal quantity 5 exceeds open quantity 1");
    let err = run_fifo(&lots, dec("0")).unwrap_err();
    assert_eq!(err, "fifo allocation failed: disposal quantity must be positive");
}
