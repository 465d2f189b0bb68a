use budget::converters::portfolio::DbTransfer;
use budget::manager::biz::portfolio::transfers::{
    transfer_start, transfer_step, TransferAction, TransferEvent, TransferStage,
};
use budget::pb::service::budget::BudgetRole;
use budget::status::Code;

fn stored(id: &str) -> DbTransfer {
    DbTransfer {
        id: id.into(),
        group_id: id.into(),
        source_budget_id: "s".into(),
        counterparty_budget_id: "c".into(),
        direction: "standard_to_invest".into(),
        amount_minor: 500,
        currency: "VND".into(),
        status: "completed".into(),
        linked_entry_source_id: None,
        linked_entry_counterparty_id: None,
        idempotency_key: Some("k".into()),
        actor_user_id: "u".into(),
        created_at: 7,
        completed_at: Some(7),
        notes: None,
    }
}

fn managers() -> TransferEvent {
    TransferEvent::Roles(vec![Some(BudgetRole::Owner), Some(BudgetRole::Manager)])
}

#[test]
fn transfer_request_refuses_bad_amounts_and_one_budget() {
    let (st, a) = transfer_start(0, "s", "c", "k");
    assert_eq!(st.stage, TransferStage::Finished);
    match a {
        TransferAction::Refuse(s) => assert_eq!(s.message, "amount must be > 0"),
        other => panic!("unexpected {other:?}"),
    }
    let (_, a) = transfer_start(5, "s", "s", "k");
    match a {
        TransferAction::Refuse(s) => assert_eq!(s.message, "source and counterparty must differ"),
        other => panic!("unexpected {other:?}"),
    }
}

#[test]
fn transfer_request_refuses_a_contributor() {
    let (st, a) = transfer_start(5, "s", "c", "k");
    assert!(matches!(a, TransferAction::ResolveRoles));
    let roles = TransferEvent::Roles(vec![Some(BudgetRole::Owner), Some(BudgetRole::Contributor)]);
    let (st, a) = transfer_step(st, roles);
    assert_eq!(st.stage, TransferStage::Finished);
    match a {
        TransferAction::Refuse(s) => {
            assert_eq!(s.code, Code::PermissionDenied);
            assert_eq!(s.message, "requires member on both source and counterparty");
        }
        other => panic!("unexpected {other:?}"),
    }
}

#[test]
fn keyed_transfer_is_replayed_or_stored() {
    let (st, _) = transfer_start(5, "s", "c", "k");
    let (st, a) = transfer_step(st, managers());
    assert!(matches!(a, TransferAction::LookupKey));
    let (done, a) = transfer_step(st.clone(), TransferEvent::Lookup(Some(stored("t1"))));
    assert_eq!(done.stage, TransferStage::Finished);
    match a {
        TransferAction::Replay(t) => assert_eq!(t.id, "t1"),
        other => panic!("unexpected {other:?}"),
    }
    let (_, a) = transfer_step(st, TransferEvent::Lookup(None));
    assert!(matches!(a, TransferAction::Insert));
    // A finished request ignores further answers.
    let (still, a) = transfer_step(done, managers());
    assert_eq!(still.stage, TransferStage::Finished);
    assert!(matches!(a, TransferAction::Ignore));
}

#[test]
fn unkeyed_transfer_is_stored_without_lookup() {
    let (st, _) = transfer_start(5, "s", "c", "");
    let (st, a) = transfer_step(st, managers());
    assert_eq!(st.stage, TransferStage::Finished);
    assert!(matches!(a, TransferAction::Insert));
}
