//! Decisions of the outbox drainer for portfolio events.
//!
//! The drainer periodically reads undelivered events, renders and sends
//! them, marks each delivered on success, and applies bounded retry with
//! backoff on failure. The reading, sending and storing happen around this
//! module; what it decides (recipient, preference gate, retry or dead
//! letter, backoff, cleanup cadence) is here.

use crate::text::str_eq;
use vstd::prelude::*;

verus! {

/// What the JSON text `payload` holds as a string under the top-level key
/// `key`, if it parses as JSON and has one (`serde_json`).
pub uninterp spec fn json_str_field(payload: Seq<char>, key: Seq<char>) -> Option<Seq<char>>;

/// Parses `payload` with `serde_json::from_str` into a `Value`, then reads
/// `key` with `Value::get` and `Value::as_str`. The contract names the
/// result: it depends on the two texts alone. Invalid JSON, a missing key
/// and a value that is not a string all give `None`.
#[verifier::external_body]
fn json_string_field(payload: &str, key: &str) -> (r: Option<String>)
    ensures
        r is None <==> json_str_field(payload@, key@) is None,
        r matches Some(s) ==> json_str_field(payload@, key@) == Some(s@),
{
    let v: serde_json::Value = serde_json::from_str(payload).ok()?;
    Some(String::from(v.get(key)?.as_str()?))
}

/// What the JSON text `payload` holds as an integer that fits an `i64`
/// under the top-level key `key`, if it parses as JSON and has one
/// (`serde_json`).
pub uninterp spec fn json_int_field(payload: Seq<char>, key: Seq<char>) -> Option<i64>;

/// Parses `payload` with `serde_json::from_str` into a `Value`, then reads
/// `key` with `Value::get` and `Value::as_i64`. The contract names the
/// result: it depends on the two texts alone. Invalid JSON, a missing key
/// and a value that is not an integer in `i64` range all give `None`.
#[verifier::external_body]
fn json_i64_field(payload: &str, key: &str) -> (r: Option<i64>)
    ensures
        r == json_int_field(payload@, key@),
{
    let v: serde_json::Value = serde_json::from_str(payload).ok()?;
    v.get(key)?.as_i64()
}

/// The text under `key` in a JSON payload, or `default`.
pub open spec fn spec_text_field_or(payload: Seq<char>, key: Seq<char>, default: Seq<char>) -> Seq<char> {
    match json_str_field(payload, key) {
        Some(t) => t,
        None => default,
    }
}

/// The integer under `key` in a JSON payload, or `default`.
pub open spec fn spec_int_field_or(payload: Seq<char>, key: Seq<char>, default: i64) -> i64 {
    match json_int_field(payload, key) {
        Some(v) => v,
        None => default,
    }
}

fn text_field_or(payload: &str, key: &str, default: &str) -> (r: String)
    ensures
        r@ == spec_text_field_or(payload@, key@, default@),
{
    match json_string_field(payload, key) {
        Some(t) => t,
        None => String::from_str(default),
    }
}

fn int_field_or(payload: &str, key: &str, default: i64) -> (r: i64)
    ensures
        r == spec_int_field_or(payload@, key@, default),
{
    match json_i64_field(payload, key) {
        Some(v) => v,
        None => default,
    }
}

/// What an alert says, read from an event's payload. Dates are unix
/// seconds; `None` stands for "now" at rendering time.
#[derive(Debug, Clone)]
pub enum AlertContent {
    Matured { asset_name: String, principal_minor: i64, maturity_date: Option<i64> },
    RolledOver {
        old_asset_name: String,
        new_asset_name: String,
        principal_minor: i64,
        new_maturity_date: Option<i64>,
    },
    PriceObserved { asset_name: String, ticker: String, unit_price_minor: i64, source: String },
}

/// `c` is the alert that an event of `event_type` with `payload` renders:
/// the fields of its payload, with a default for each that is missing.
pub open spec fn alert_content_of(c: AlertContent, event_type: Seq<char>, payload: Seq<char>) -> bool {
    if event_type == "MATURITY_REACHED"@ {
        c matches AlertContent::Matured { asset_name, principal_minor, maturity_date }
            && asset_name@ == spec_text_field_or(payload, "display_name"@, "Your deposit"@)
            && principal_minor == spec_int_field_or(payload, "principal"@, 0) && maturity_date
            == json_int_field(payload, "maturity_date"@)
    } else if event_type == "ROLLED_OVER"@ {
        c matches AlertContent::RolledOver {
            old_asset_name,
            new_asset_name,
            principal_minor,
            new_maturity_date,
        } && old_asset_name@ == spec_text_field_or(payload, "old_display_name"@, "Your deposit"@)
            && new_asset_name@ == spec_text_field_or(payload, "new_display_name"@, "new deposit"@)
            && principal_minor == spec_int_field_or(payload, "principal"@, 0) && new_maturity_date
            == json_int_field(payload, "new_maturity_date"@)
    } else if event_type == "PRICE_OBSERVED"@ {
        c matches AlertContent::PriceObserved { asset_name, ticker, unit_price_minor, source }
            && asset_name@ == spec_text_field_or(payload, "display_name"@, "Your asset"@) && ticker@
            == spec_text_field_or(payload, "ticker"@, ""@) && unit_price_minor == spec_int_field_or(
            payload,
            "unit_price"@,
            0,
        ) && source@ == spec_text_field_or(payload, "provider"@, "manual"@)
    } else {
        false
    }
}

/// Whether an event type has an alert template.
pub open spec fn has_template(event_type: Seq<char>) -> bool {
    event_type == "MATURITY_REACHED"@ || event_type == "ROLLED_OVER"@ || event_type
        == "PRICE_OBSERVED"@
}

/// The alert an event of `event_type` renders: the fields of its payload,
/// with a default for each that is missing. Event types without a template
/// render nothing.
pub fn alert_content(event_type: &str, payload_json: &str) -> (r: Option<AlertContent>)
    ensures
        has_template(event_type@) ==> (r matches Some(c) && alert_content_of(
            c,
            event_type@,
            payload_json@,
        )),
        !has_template(event_type@) ==> r is None,
{
    proof {
        reveal_strlit("MATURITY_REACHED");
        reveal_strlit("ROLLED_OVER");
        reveal_strlit("PRICE_OBSERVED");
        assert("MATURITY_REACHED"@.len() == 16);
        assert("ROLLED_OVER"@.len() == 11);
        assert("PRICE_OBSERVED"@.len() == 14);
    }
    if str_eq(event_type, "MATURITY_REACHED") {
        Some(
            AlertContent::Matured {
                asset_name: text_field_or(payload_json, "display_name", "Your deposit"),
                principal_minor: int_field_or(payload_json, "principal", 0),
                maturity_date: json_i64_field(payload_json, "maturity_date"),
            },
        )
    } else if str_eq(event_type, "ROLLED_OVER") {
        Some(
            AlertContent::RolledOver {
                old_asset_name: text_field_or(payload_json, "old_display_name", "Your deposit"),
                new_asset_name: text_field_or(payload_json, "new_display_name", "new deposit"),
                principal_minor: int_field_or(payload_json, "principal", 0),
                new_maturity_date: json_i64_field(payload_json, "new_maturity_date"),
            },
        )
    } else if str_eq(event_type, "PRICE_OBSERVED") {
        Some(
            AlertContent::PriceObserved {
                asset_name: text_field_or(payload_json, "display_name", "Your asset"),
                ticker: text_field_or(payload_json, "ticker", ""),
                unit_price_minor: int_field_or(payload_json, "unit_price", 0),
                source: text_field_or(payload_json, "provider", "manual"),
            },
        )
    } else {
        None
    }
}

/// The link to an asset's page under the portfolio app.
pub fn asset_url(portfolio_url: &str, asset_id: &str) -> (r: String)
    ensures
        r@ == portfolio_url@ + "/asset/"@ + asset_id@,
{
    String::from_str(portfolio_url).concat("/asset/").concat(asset_id)
}

/// The address an alert goes to when none is configured.
pub fn default_recipient_address(user_id: &str) -> (r: String)
    ensures
        r@ == user_id@ + "@philandz.com"@,
{
    String::from_str(user_id).concat("@philandz.com")
}

/// The budget an alert names: the budget's name, or `your portfolio`.
pub fn budget_name_or_default(name: Option<String>) -> (r: String)
    ensures
        name is None ==> r@ == "your portfolio"@,
        name matches Some(n) ==> r@ == n@,
{
    match name {
        Some(n) => n,
        None => String::from_str("your portfolio"),
    }
}

/// The Telegram text of an alert: its subject, a blank line, its body.
pub fn telegram_text(subject: &str, text: &str) -> (r: String)
    ensures
        r@ == subject@ + "\n\n"@ + text@,
{
    String::from_str(subject).concat("\n\n").concat(text)
}

/// Extract `actor_user_id` from a JSON payload string. The maturity,
/// rollover and refresh jobs embed the actor when they create an event.
/// If the field is missing or the payload is not valid JSON, returns
/// `None` and the caller falls back to a system "ops" address.
pub fn extract_user_id(payload_json: &str) -> (r: Option<String>)
    ensures
        r is None <==> json_str_field(payload_json@, "actor_user_id"@) is None,
        r matches Some(s) ==> json_str_field(payload_json@, "actor_user_id"@) == Some(s@),
{
    json_string_field(payload_json, "actor_user_id")
}

/// The user an event is delivered to: the actor named in the payload, or
/// `ops` when there is none.
pub fn event_recipient(payload_json: &str) -> (r: String)
    ensures
        r@ == match json_str_field(payload_json@, "actor_user_id"@) {
            Some(u) => u,
            None => "ops"@,
        },
{
    match extract_user_id(payload_json) {
        Some(u) => u,
        None => String::from_str("ops"),
    }
}

/// A user's alert preferences: price, maturity and rollover alerts.
#[derive(Debug, Clone, Copy, PartialEq, Eq, Structural)]
pub struct AlertPreferences {
    pub price_alerts: bool,
    pub maturity_alerts: bool,
    pub rollover_alerts: bool,
}

pub open spec fn spec_user_allows_event_type(prefs: Option<AlertPreferences>, event_type: Seq<char>) -> bool {
    let p = match prefs {
        Some(p) => p,
        None => AlertPreferences { price_alerts: true, maturity_alerts: true, rollover_alerts: true },
    };
    if event_type == "MATURITY_REACHED"@ {
        p.maturity_alerts
    } else if event_type == "ROLLED_OVER"@ {
        p.rollover_alerts
    } else if event_type == "PRICE_OBSERVED"@ {
        p.price_alerts
    } else {
        true
    }
}

/// Whether a user wants events of `event_type`: a user without stored
/// preferences gets everything, and event types without a switch always go.
pub fn user_allows_event_type(prefs: Option<AlertPreferences>, event_type: &str) -> (r: bool)
    ensures
        r == spec_user_allows_event_type(prefs, event_type@),
{
    let p = match prefs {
        Some(p) => p,
        None => AlertPreferences { price_alerts: true, maturity_alerts: true, rollover_alerts: true },
    };
    if str_eq(event_type, "MATURITY_REACHED") {
        p.maturity_alerts
    } else if str_eq(event_type, "ROLLED_OVER") {
        p.rollover_alerts
    } else if str_eq(event_type, "PRICE_OBSERVED") {
        p.price_alerts
    } else {
        true
    }
}

/// Each alert switch governs its own event type: with stored preferences,
/// a price alert goes exactly when price alerts are on, a rollover alert
/// exactly when rollover alerts are on, a maturity alert exactly when
/// maturity alerts are on; other event types always go, and so does
/// everything for a user without stored preferences.
pub proof fn lemma_alert_switches(p: AlertPreferences, event_type: Seq<char>)
    ensures
        spec_user_allows_event_type(Some(p), "PRICE_OBSERVED"@) == p.price_alerts,
        spec_user_allows_event_type(Some(p), "ROLLED_OVER"@) == p.rollover_alerts,
        spec_user_allows_event_type(Some(p), "MATURITY_REACHED"@) == p.maturity_alerts,
        event_type != "PRICE_OBSERVED"@ && event_type != "ROLLED_OVER"@ && event_type
            != "MATURITY_REACHED"@ ==> spec_user_allows_event_type(Some(p), event_type),
        spec_user_allows_event_type(None, event_type),
{
    reveal_strlit("PRICE_OBSERVED");
    reveal_strlit("ROLLED_OVER");
    reveal_strlit("MATURITY_REACHED");
    assert("PRICE_OBSERVED"@[0] != "ROLLED_OVER"@[0]);
    assert("PRICE_OBSERVED"@[0] != "MATURITY_REACHED"@[0]);
    assert("ROLLED_OVER"@[0] != "MATURITY_REACHED"@[0]);
}

/// Turning price alerts off stops price alerts and nothing else.
pub proof fn lemma_price_switch_only_stops_prices(p: AlertPreferences, event_type: Seq<char>)
    ensures
        spec_user_allows_event_type(
            Some(AlertPreferences { price_alerts: false, ..p }),
            event_type,
        ) == (spec_user_allows_event_type(Some(p), event_type) && event_type != "PRICE_OBSERVED"@),
{
    lemma_alert_switches(p, event_type);
    lemma_alert_switches(AlertPreferences { price_alerts: false, ..p }, event_type);
}

/// Hand-picked jitter offsets, within 20% of each base delay, by index.
pub open spec fn jitter(i: int) -> int {
    if i == 0 {
        4
    } else if i == 1 {
        -2
    } else if i == 2 {
        5
    } else if i == 3 {
        -3
    } else if i == 4 {
        2
    } else if i == 5 {
        -4
    } else if i == 6 {
        6
    } else if i == 7 {
        -2
    } else if i == 8 {
        3
    } else if i == 9 {
        -1
    } else if i == 10 {
        4
    } else if i == 11 {
        -5
    } else if i == 12 {
        2
    } else if i == 13 {
        -3
    } else if i == 14 {
        1
    } else if i == 15 {
        -2
    } else if i == 16 {
        4
    } else if i == 17 {
        -3
    } else if i == 18 {
        5
    } else {
        -1
    }
}

/// The jitter offset at `i` of the table.
fn jitter_offset(i: usize) -> (r: i64)
    requires
        i < 20,
    ensures
        r == jitter(i as int),
{
    if i == 0 {
        4
    } else if i == 1 {
        -2
    } else if i == 2 {
        5
    } else if i == 3 {
        -3
    } else if i == 4 {
        2
    } else if i == 5 {
        -4
    } else if i == 6 {
        6
    } else if i == 7 {
        -2
    } else if i == 8 {
        3
    } else if i == 9 {
        -1
    } else if i == 10 {
        4
    } else if i == 11 {
        -5
    } else if i == 12 {
        2
    } else if i == 13 {
        -3
    } else if i == 14 {
        1
    } else if i == 15 {
        -2
    } else if i == 16 {
        4
    } else if i == 17 {
        -3
    } else if i == 18 {
        5
    } else {
        -1
    }
}

/// The base delay for a delivery attempt: 30 seconds doubled for each
/// attempt after the first, up to the seventh (32 minutes).
pub open spec fn backoff_base(attempts: int) -> int {
    let shift = if attempts < 1 {
        1
    } else if attempts > 7 {
        7
    } else {
        attempts
    };
    30 * (vstd::arithmetic::power2::pow2((shift - 1) as nat) as int)
}

pub open spec fn spec_backoff_for(attempts: i32) -> int {
    backoff_base(attempts as int) + jitter((attempts as int) % 20)
}

/// Seconds to wait before the next delivery attempt: the base delay for
/// the attempt plus a jitter offset picked by the attempt number, so that
/// retries do not synchronise when an upstream service goes down.
pub fn backoff_for(attempts: i32) -> (r: i64)
    ensures
        r == spec_backoff_for(attempts),
{
    let shift: u32 = if attempts < 1 {
        1
    } else if attempts > 7 {
        7
    } else {
        attempts as u32
    };
    let base: i64 = 30 * pow2_small(shift - 1);
    let idx: usize = rem_euclid_20(attempts);
    base + jitter_offset(idx)
}

/// `2^k` for the small exponents of the backoff.
fn pow2_small(k: u32) -> (r: i64)
    requires
        k <= 6,
    ensures
        r == vstd::arithmetic::power2::pow2(k as nat),
        1 <= r <= 64,
{
    proof {
        vstd::arithmetic::power2::lemma2_to64();
    }
    if k == 0 {
        1
    } else if k == 1 {
        2
    } else if k == 2 {
        4
    } else if k == 3 {
        8
    } else if k == 4 {
        16
    } else if k == 5 {
        32
    } else {
        64
    }
}

/// The Euclidean remainder of `a` by 20 (`i32::rem_euclid`).
fn rem_euclid_20(a: i32) -> (r: usize)
    ensures
        r == (a as int) % 20,
        r < 20,
{
    let m = a % 20;
    if m < 0 {
        (m + 20) as usize
    } else {
        m as usize
    }
}

/// Every backoff stays within 20% of its base delay, so it is positive and
/// never above 1.2 times 32 minutes.
pub proof fn lemma_backoff_within_jitter(attempts: i32)
    ensures
        backoff_base(attempts as int) * 4 / 5 <= spec_backoff_for(attempts) <= backoff_base(
            attempts as int,
        ) * 6 / 5,
        spec_backoff_for(attempts) > 0,
        30 <= backoff_base(attempts as int) <= 1920,
{
    vstd::arithmetic::power2::lemma2_to64();
    let i = (attempts as int) % 20;
    assert(0 <= i < 20);
    assert(-6 <= jitter(i) <= 6);
}

/// The base delay starts at 30 seconds, doubles with each attempt up to
/// the seventh and stays there (32 minutes); attempts below the first wait
/// as the first.
pub proof fn lemma_backoff_doubles(n: int)
    ensures
        backoff_base(1) == 30,
        1 <= n < 7 ==> backoff_base(n + 1) == 2 * backoff_base(n),
        n >= 7 ==> backoff_base(n) == 1920,
        n < 1 ==> backoff_base(n) == 30,
{
    vstd::arithmetic::power2::lemma2_to64();
}

/// The base delay never shrinks as attempts grow.
pub proof fn lemma_backoff_base_monotone(a: int, b: int)
    requires
        a <= b,
    ensures
        backoff_base(a) <= backoff_base(b),
{
    vstd::arithmetic::power2::lemma2_to64();
}

/// What to do with an event whose delivery just failed.
#[derive(Debug, Clone, Copy, PartialEq, Eq, Structural)]
pub enum FailureAction {
    /// Give up: store the attempt count and park the event far in the future.
    DeadLetter { attempts: i32, next_attempt_at: i64 },
    /// Try again at `next_attempt_at`.
    Retry { attempts: i32, next_attempt_at: i64 },
}

/// Seconds a dead-lettered event is pushed into the future (a year).
pub open spec fn dead_letter_delay() -> int {
    31536000
}

pub open spec fn spec_on_delivery_failure(attempts: i32, max_attempts: i32, now: i64) -> FailureAction {
    let n = attempts + 1;
    if n >= max_attempts {
        FailureAction::DeadLetter { attempts: n as i32, next_attempt_at: (now + dead_letter_delay()) as i64 }
    } else {
        FailureAction::Retry {
            attempts: n as i32,
            next_attempt_at: (now + spec_backoff_for(n as i32)) as i64,
        }
    }
}

/// Decides the fate of an event after a failed delivery: with the failed
/// attempt counted, an event that reached `max_attempts` is dead-lettered,
/// any other is retried after its backoff.
pub fn on_delivery_failure(attempts: i32, max_attempts: i32, now: i64) -> (r: FailureAction)
    requires
        attempts < i32::MAX,
        now <= i64::MAX - dead_letter_delay(),
        now >= i64::MIN + 64,
    ensures
        r == spec_on_delivery_failure(attempts, max_attempts, now),
{
    let n = attempts + 1;
    if n >= max_attempts {
        FailureAction::DeadLetter { attempts: n, next_attempt_at: now + 365 * 86400 }
    } else {
        proof {
            lemma_backoff_within_jitter(n);
        }
        FailureAction::Retry { attempts: n, next_attempt_at: now + backoff_for(n) }
    }
}

/// A failed delivery counts one more attempt; the event is dead-lettered,
/// a year ahead, exactly when that count reaches the maximum, and otherwise
/// retried after its backoff, between 24 seconds and 39 minutes ahead.
pub proof fn lemma_failure_dead_letters_at_max(attempts: i32, max_attempts: i32, now: i64)
    requires
        attempts < i32::MAX,
    ensures
        spec_on_delivery_failure(attempts, max_attempts, now) is DeadLetter <==> attempts + 1
            >= max_attempts,
        match spec_on_delivery_failure(attempts, max_attempts, now) {
            FailureAction::DeadLetter { attempts: n, next_attempt_at: at } => n == attempts + 1 && at
                == (now + 31536000) as i64,
            FailureAction::Retry { attempts: n, next_attempt_at: at } => n == attempts + 1 && at
                == (now + spec_backoff_for((attempts + 1) as i32)) as i64 && 24 <= spec_backoff_for(
                (attempts + 1) as i32,
            ) <= 2304,
        },
{
    lemma_backoff_within_jitter((attempts + 1) as i32);
}

/// The stored error of a dead-lettered event.
pub fn dead_letter_error(err: &str) -> (r: String)
    ensures
        r@ == "DEAD-LETTER: "@ + err@,
{
    String::from_str("DEAD-LETTER: ").concat(err)
}

/// A positive setting, or `default` when it is missing or not positive.
pub fn positive_or(value: Option<i64>, default: i64) -> (r: i64)
    ensures
        r == match value {
            Some(v) => if v > 0 {
                v
            } else {
                default
            },
            None => default,
        },
{
    match value {
        Some(v) => if v > 0 {
            v
        } else {
            default
        },
        None => default,
    }
}

/// The drainer's tick counter.
#[derive(Debug, Clone, Copy, PartialEq, Eq, Structural)]
pub struct DrainerState {
    pub tick_count: u64,
}

/// Counts a drained tick and tells whether the dedup cleanup runs on it:
/// once every `cleanup_ticks` ticks.
pub fn on_drainer_tick(state: DrainerState, cleanup_ticks: u64) -> (r: (DrainerState, bool))
    requires
        state.tick_count < u64::MAX,
        cleanup_ticks > 0,
    ensures
        r.0.tick_count == state.tick_count + 1,
        r.1 == ((state.tick_count + 1) % (cleanup_ticks as int) == 0),
{
    let t = state.tick_count + 1;
    (DrainerState { tick_count: t }, t % cleanup_ticks == 0)
}

// ---------------------------------------------------------------------------
// Delivering one event
// ---------------------------------------------------------------------------

/// Where the delivery of one event stands.
#[derive(Debug, Clone, Copy, PartialEq, Eq, Structural)]
pub enum DispatchStage {
    /// The recipient's alert preferences are needed.
    AwaitPreferences,
    /// The answer of recording the alert for (recipient, asset, event, day)
    /// is needed.
    AwaitDedup,
    /// Nothing more is done for this event.
    Finished,
}

/// The delivery of one event: its type and payload, and its stage.
#[derive(Debug, Clone)]
pub struct DispatchState {
    pub event_type: String,
    pub payload_json: String,
    pub stage: DispatchStage,
}

/// What the outside world answers during a delivery.
#[derive(Debug, Clone, Copy)]
pub enum DispatchEvent {
    /// The recipient's stored preferences, if any.
    Preferences(Option<AlertPreferences>),
    /// Whether recording the alert for today was new (`false`: an alert
    /// for the same recipient, asset, event and day was already sent).
    DedupRecorded(bool),
}

/// What the delivery asks for next.
#[derive(Debug, Clone)]
pub enum DispatchAction {
    /// Record the alert for (recipient, asset, event, today).
    RecordDedup,
    /// Render and send this alert.
    Send(AlertContent),
    /// Send nothing for this event.
    Skip,
    /// The answer does not fit the stage; nothing changes.
    Ignore,
}

/// Starts the delivery of an event: the recipient's preferences come first.
pub fn dispatch_start(event_type: &str, payload_json: &str) -> (r: DispatchState)
    ensures
        r.event_type@ == event_type@,
        r.payload_json@ == payload_json@,
        r.stage == DispatchStage::AwaitPreferences,
{
    DispatchState {
        event_type: String::from_str(event_type),
        payload_json: String::from_str(payload_json),
        stage: DispatchStage::AwaitPreferences,
    }
}

/// One step of delivering an event. A recipient who turned this event type
/// off gets nothing; an alert already recorded for the same recipient,
/// asset, event and day is not sent again; otherwise the alert is sent,
/// unless its event type has no template. A finished delivery stays
/// finished.
pub fn dispatch_step(state: DispatchState, event: DispatchEvent) -> (r: (DispatchState, DispatchAction))
    ensures
        r.0.event_type == state.event_type,
        r.0.payload_json == state.payload_json,
        match (state.stage, event) {
            (DispatchStage::AwaitPreferences, DispatchEvent::Preferences(p)) => if spec_user_allows_event_type(
                p,
                state.event_type@,
            ) {
                r.0.stage == DispatchStage::AwaitDedup && r.1 is RecordDedup
            } else {
                r.0.stage == DispatchStage::Finished && r.1 is Skip
            },
            (DispatchStage::AwaitDedup, DispatchEvent::DedupRecorded(fresh)) => r.0.stage
                == DispatchStage::Finished && if fresh && has_template(state.event_type@) {
                r.1 is Send
            } else {
                r.1 is Skip
            },
            _ => r.0.stage == state.stage && r.1 is Ignore,
        },
        r.1 matches DispatchAction::Send(c) ==> alert_content_of(
            c,
            state.event_type@,
            state.payload_json@,
        ),
{
    let stage = state.stage;
    match (stage, event) {
        (DispatchStage::AwaitPreferences, DispatchEvent::Preferences(p)) => {
            if user_allows_event_type(p, state.event_type.as_str()) {
                (DispatchState { stage: DispatchStage::AwaitDedup, ..state }, DispatchAction::RecordDedup)
            } else {
                (DispatchState { stage: DispatchStage::Finished, ..state }, DispatchAction::Skip)
            }
        },
        (DispatchStage::AwaitDedup, DispatchEvent::DedupRecorded(fresh)) => {
            if !fresh {
                return (DispatchState { stage: DispatchStage::Finished, ..state }, DispatchAction::Skip);
            }
            let content = alert_content(state.event_type.as_str(), state.payload_json.as_str());
            let action = match content {
                Some(c) => DispatchAction::Send(c),
                None => DispatchAction::Skip,
            };
            (DispatchState { stage: DispatchStage::Finished, ..state }, action)
        },
        _ => (state, DispatchAction::Ignore),
    }
}

} // verus!
