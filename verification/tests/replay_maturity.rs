use budget::converters::portfolio::{DbPriceObservation, DbTransfer};
use budget::manager::biz::portfolio::maturity::plan_maturity_scan;
use budget::manager::biz::portfolio::replay::{
    observation_after_lookup, transfer_after_lookup, ObservationDecision, TransferDecision,
};

fn stored_transfer() -> DbTransfer {
    DbTransfer {
        id: "t1".into(),
        group_id: "g1".into(),
        source_budget_id: "s".into(),
        counterparty_budget_id: "c".into(),
        direction: "standard_to_invest".into(),
        amount_minor: 500,
        currency: "VND".into(),
        status: "completed".into(),
        linked_entry_source_id: None,
        linked_entry_counterparty_id: None,
        idempotency_key: Some("k".into()),
        actor_user_id: "u".into(),
        created_at: 7,
        completed_at: Some(7),
        notes: None,
    }
}

#[test]
fn transfer_with_a_stored_key_is_replayed() {
    match transfer_after_lookup("k", Some(stored_transfer())) {
        TransferDecision::Replay(t) => {
            assert_eq!(t.id, "t1");
            assert_eq!(t.group_id, "g1");
            assert_eq!(t.amount_minor, 500);
        }
        other => panic!("unexpected {other:?}"),
    }
    assert!(matches!(transfer_after_lookup("k", None), TransferDecision::Insert));
    assert!(matches!(transfer_after_lookup("", Some(stored_transfer())), TransferDecision::Insert));
}

fn stored_observation() -> DbPriceObservation {
    DbPriceObservation {
        id: "o1".into(),
        asset_id: "a1".into(),
        provider: "manual".into(),
        price_side: "bid".into(),
        unit_price: 120,
        currency: "VND".into(),
        observed_at: 9,
        source_reference: "".into(),
        idempotency_key: Some("k".into()),
        notes: None,
    }
}

#[test]
fn observation_with_a_stored_key_is_replayed() {
    match observation_after_lookup(Some("k"), Some(stored_observation())) {
        ObservationDecision::Replay(o) => {
            assert_eq!(o.id, "o1");
            assert_eq!(o.unit_price, 120);
        }
        other => panic!("unexpected {other:?}"),
    }
    assert!(matches!(observation_after_lookup(Some(""), Some(stored_observation())), ObservationDecision::Insert));
    assert!(matches!(observation_after_lookup(None, Some(stored_observation())), ObservationDecision::Insert));
    assert!(matches!(observation_after_lookup(Some("k"), None), ObservationDecision::Insert));
}

#[test]
fn maturity_scan_matures_active_assets_and_reports_all_due() {
    let statuses = vec!["active".to_string(), "rolled_over".to_string(), "active".to_string()];
    let plan = plan_maturity_scan(&statuses);
    assert_eq!(plan.to_mature, vec![0, 2]);
    assert_eq!(plan.reported, 2);
    let none = plan_maturity_scan(&[]);
    assert!(none.to_mature.is_empty());
    assert_eq!(none.reported, 0);
}
