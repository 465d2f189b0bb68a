use budget::manager::biz::portfolio::outbox::{
    dispatch_start, dispatch_step, AlertContent, AlertPreferences, DispatchAction, DispatchEvent,
    DispatchStage,
};

const PAYLOAD: &str = r#"{"principal":500,"display_name":"FD 1"}"#;

#[test]
fn alert_goes_out_once_preferences_and_dedup_allow() {
    let s = dispatch_start("MATURITY_REACHED", PAYLOAD);
    assert_eq!(s.stage, DispatchStage::AwaitPreferences);
    let (s, a) = dispatch_step(s, DispatchEvent::Preferences(None));
    assert!(matches!(a, DispatchAction::RecordDedup));
    let (s, a) = dispatch_step(s, DispatchEvent::DedupRecorded(true));
    assert_eq!(s.stage, DispatchStage::Finished);
    match a {
        DispatchAction::Send(AlertContent::Matured { asset_name, principal_minor, .. }) => {
            assert_eq!(asset_name, "FD 1");
            assert_eq!(principal_minor, 500);
        }
        other => panic!("unexpected {other:?}"),
    }
    let (_, a) = dispatch_step(s, DispatchEvent::DedupRecorded(true));
    assert!(matches!(a, DispatchAction::Ignore));
}

#[test]
fn alert_already_sent_today_is_skipped() {
    let s = dispatch_start("MATURITY_REACHED", PAYLOAD);
    let (s, _) = dispatch_step(s, DispatchEvent::Preferences(None));
    let (s, a) = dispatch_step(s, DispatchEvent::DedupRecorded(false));
    assert!(matches!(a, DispatchAction::Skip));
    assert_eq!(s.stage, DispatchStage::Finished);
}

#[test]
fn disabled_and_unknown_events_are_skipped() {
    let off = AlertPreferences { price_alerts: true, maturity_alerts: false, rollover_alerts: true };
    let (s, a) = dispatch_step(dispatch_start("MATURITY_REACHED", PAYLOAD), DispatchEvent::Preferences(Some(off)));
    assert!(matches!(a, DispatchAction::Skip));
    assert_eq!(s.stage, DispatchStage::Finished);
    let (s, _) = dispatch_step(dispatch_start("SOMETHING", "{}"), DispatchEvent::Preferences(None));
    let (_, a) = dispatch_step(s, DispatchEvent::DedupRecorded(true));
    assert!(matches!(a, DispatchAction::Skip));
    let (_, a) = dispatch_step(dispatch_start("SOMETHING", "{}"), DispatchEvent::DedupRecorded(true));
    assert!(matches!(a, DispatchAction::Ignore));
}
