use budget::manager::biz::portfolio::outbox::{
    backoff_for, dead_letter_error, event_recipient, extract_user_id, on_delivery_failure,
    on_drainer_tick, positive_or, user_allows_event_type, AlertPreferences, DrainerState,
    FailureAction,
};
use budget::manager::biz::portfolio::refresh::auto_idempotency_key;

#[test]
fn extract_user_id_happy_path() {
    let payload = r#"{"actor_user_id":"u-123","event":"MATURITY_REACHED"}"#;
    assert_eq!(extract_user_id(payload).as_deref(), Some("u-123"));
}

#[test]
fn extract_user_id_missing_field() {
    let payload = r#"{"event":"MATURITY_REACHED"}"#;
    assert_eq!(extract_user_id(payload), None);
}

#[test]
fn extract_user_id_invalid_json() {
    let payload = "not json at all";
    assert_eq!(extract_user_id(payload), None);
}

#[test]
fn extract_user_id_field_wrong_type() {
    let payload = r#"{"actor_user_id":42}"#;
    assert_eq!(extract_user_id(payload), None);
}

#[test]
fn backoff_grows_with_attempts() {
    let b1 = backoff_for(1);
    let b2 = backoff_for(2);
    let b3 = backoff_for(3);
    assert!(b1 > 0, "backoff must be positive");
    let in_range = |val: i64, base: i64| val >= (base * 4) / 5 && val <= (base * 6) / 5;
    assert!(in_range(b1, 30), "b1={b1} not in 30±20%");
    assert!(in_range(b2, 60), "b2={b2} not in 60±20%");
    assert!(in_range(b3, 120), "b3={b3} not in 120±20%");
}

#[test]
fn backoff_caps_at_one_hour() {
    let v = backoff_for(20);
    let base = 30_i64 * 64;
    let lo = (base * 4) / 5;
    let hi = (base * 6) / 5;
    assert!(v >= lo && v <= hi, "backoff out of range: {v}");
}

#[test]
fn backoff_jitter_varies() {
    let a = backoff_for(5);
    let b = backoff_for(6);
    let _ = (a, b);
    let offsets: Vec<i64> = (1..=10).map(backoff_for).collect();
    let unique: std::collections::HashSet<_> = offsets.iter().collect();
    assert!(unique.len() >= 2, "jitter did not produce variation");
}

fn dedup_key(provider: &str, now: i64, asset_id: &str) -> String {
    auto_idempotency_key(provider, now, asset_id)
}

#[test]
fn dedup_key_composition_for_etf() {
    let key = dedup_key("hose", 1_700_000_000_i64, "asset-uuid-1");
    assert_eq!(key, "auto:hose:1700000000:asset-uuid-1");
}

#[test]
fn dedup_key_unique_per_asset_and_day() {
    let now = 1_700_000_000_i64;
    let asset_a = "a1";
    let asset_b = "b1";
    let key_a1 = dedup_key("manual", now, asset_a);
    let key_a2 = dedup_key("manual", now, asset_a);
    let key_b1 = dedup_key("manual", now, asset_b);
    assert_eq!(key_a1, key_a2, "same asset + day must dedup");
    assert_ne!(key_a1, key_b1, "different assets must not dedup");
}

#[test]
fn dedup_key_differs_across_days() {
    let asset = "a1";
    let now_day1 = 1_700_000_000_i64;
    let now_day2 = 1_700_086_400_i64;
    let key_day1 = dedup_key("auto", now_day1, asset);
    let key_day2 = dedup_key("auto", now_day2, asset);
    assert_ne!(key_day1, key_day2);
}

#[test]
fn backoff_exact_values() {
    // base 30 with the jitter at index 1 (-2), base 60 with +5, base 1920 with index 0 (+4).
    assert_eq!(backoff_for(1), 28);
    assert_eq!(backoff_for(2), 65);
    assert_eq!(backoff_for(20), 1924);
    assert_eq!(backoff_for(0), 34);
    assert_eq!(backoff_for(-1), 29);
}

#[test]
fn failure_retries_until_the_attempt_budget() {
    assert_eq!(
        on_delivery_failure(0, 5, 1_000),
        FailureAction::Retry { attempts: 1, next_attempt_at: 1_028 }
    );
    assert_eq!(
        on_delivery_failure(4, 5, 1_000),
        FailureAction::DeadLetter { attempts: 5, next_attempt_at: 1_000 + 365 * 86_400 }
    );
    assert_eq!(dead_letter_error("boom"), "DEAD-LETTER: boom");
}

#[test]
fn preferences_gate_event_types() {
    let prefs = AlertPreferences { price_alerts: false, maturity_alerts: true, rollover_alerts: false };
    assert!(!user_allows_event_type(Some(prefs), "PRICE_OBSERVED"));
    assert!(user_allows_event_type(Some(prefs), "MATURITY_REACHED"));
    assert!(!user_allows_event_type(Some(prefs), "ROLLED_OVER"));
    assert!(user_allows_event_type(Some(prefs), "SOMETHING_ELSE"));
    assert!(user_allows_event_type(None, "PRICE_OBSERVED"));
}

#[test]
fn recipient_and_settings() {
    assert_eq!(event_recipient(r#"{"actor_user_id":"u-9"}"#), "u-9");
    assert_eq!(event_recipient("{}"), "ops");
    assert_eq!(positive_or(Some(10), 50), 10);
    assert_eq!(positive_or(Some(0), 50), 50);
    assert_eq!(positive_or(None, 50), 50);
    let (s, clean) = on_drainer_tick(DrainerState { tick_count: 1439 }, 1440);
    assert_eq!(s.tick_count, 1440);
    assert!(clean);
    let (_, clean) = on_drainer_tick(DrainerState { tick_count: 0 }, 1440);
    assert!(!clean);
}
