use boldtrace::alarms::AlarmRegistry;
use boldtrace::bot::{
    consent_button, has_current_consent, help_text, language_buttons, language_changed_text, no_history_text,
    no_performance_text, parse_callback, requires_consent, resolved_language, CallbackAction, Command,
    InMemoryUserStore, SmartAlertGate, User, CURRENT_TERMS_VERSION,
};
use boldtrace::i18n::t;
use boldtrace::market::{Decision, SweepSide};
use boldtrace::subscriber::{
    channel_kind, ledger_rationale, list_line, sweep_opposes, ChannelKind, SubscriberState,
};

fn user_with_consent(version: Option<&str>) -> User {
    User {
        telegram_id: 1,
        language: "en".to_string(),
        consent_given_at: Some(1),
        consent_terms_version: version.map(str::to_string),
    }
}

fn alert_thresholds_pass(confidence: f64, risk: f64) -> bool {
    confidence >= 60.0 && risk < 80.0
}

#[test]
fn no_user_has_no_consent() {
    assert!(!has_current_consent(None));
}

#[test]
fn stale_terms_version_is_not_current_consent() {
    let user = user_with_consent(Some("v0"));
    assert!(!has_current_consent(Some(&user)));
}

#[test]
fn matching_terms_version_is_current_consent() {
    let user = user_with_consent(Some(CURRENT_TERMS_VERSION));
    assert!(has_current_consent(Some(&user)));
}

#[test]
fn unknown_user_has_no_consent() {
    let store = InMemoryUserStore::new();
    assert!(store.get(1).is_none());
}

#[test]
fn records_language_and_consent_independently() {
    let mut store = InMemoryUserStore::new();
    store.set_language(1, "tr");
    store.record_consent(1, "v1", 1_000);
    let user = store.get(1).unwrap();
    assert_eq!(user.language, "tr");
    assert_eq!(user.consent_terms_version.as_deref(), Some("v1"));
    assert_eq!(user.consent_given_at, Some(1_000));
}

#[test]
fn re_consenting_updates_version_and_timestamp() {
    let mut store = InMemoryUserStore::new();
    store.record_consent(1, "v1", 1_000);
    store.record_consent(1, "v2", 2_000);
    let user = store.get(1).unwrap();
    assert_eq!(user.consent_terms_version.as_deref(), Some("v2"));
    assert_eq!(user.consent_given_at, Some(2_000));
}

#[test]
fn consent_first_then_language_keeps_consent() {
    let mut store = InMemoryUserStore::new();
    store.record_consent(7, CURRENT_TERMS_VERSION, 5);
    assert_eq!(store.get(7).unwrap().language, "en");
    store.set_language(7, "de");
    let user = store.get(7).unwrap();
    assert_eq!(user.language, "de");
    assert!(has_current_consent(Some(&user)));
}

#[test]
fn smart_alert_respects_cooldown() {
    let mut gate = SmartAlertGate::new();
    let passes = alert_thresholds_pass(75.0, 20.0);
    assert!(gate.evaluate("BTCUSDT", Decision::Long, passes, 1000, 60000));
    assert!(!gate.evaluate("BTCUSDT", Decision::Long, passes, 2000, 60000));
}

#[test]
fn risky_signal_is_blocked() {
    let mut gate = SmartAlertGate::new();
    let passes = alert_thresholds_pass(90.0, 90.0);
    assert!(!gate.evaluate("BTCUSDT", Decision::StrongLong, passes, 1000, 60000));
}

#[test]
fn cooldown_is_per_decision_and_expires() {
    let mut gate = SmartAlertGate::new();
    assert!(gate.evaluate("ETHUSDT", Decision::Long, true, 0, 60_000));
    assert!(gate.evaluate("ETHUSDT", Decision::Short, true, 1_000, 60_000));
    assert!(!gate.evaluate("ETHUSDT", Decision::Short, true, 60_999, 60_000));
    assert!(gate.evaluate("ETHUSDT", Decision::Short, true, 61_000, 60_000));
    assert!(!gate.evaluate("ETHUSDT", Decision::Neutral, true, 200_000, 60_000));
    assert!(!gate.evaluate("ETHUSDT", Decision::NoTrade, true, 200_000, 60_000));
    assert!(gate.evaluate("BTCUSDT", Decision::Short, true, 1_500, 60_000));
}

#[test]
fn only_start_skips_the_consent_gate() {
    assert!(!requires_consent(&Command::Start));
    assert!(requires_consent(&Command::Help));
    assert!(requires_consent(&Command::Language));
}

#[test]
fn callback_data_is_parsed() {
    assert!(matches!(parse_callback("lang:tr"), CallbackAction::SetLanguage(code) if code == "tr"));
    assert!(matches!(parse_callback("lang:xx"), CallbackAction::Ignore));
    assert!(matches!(parse_callback("consent:accept"), CallbackAction::AcceptConsent));
    assert!(matches!(parse_callback("other"), CallbackAction::Ignore));
}

#[test]
fn stored_language_wins_over_client_language() {
    let user = user_with_consent(None);
    assert_eq!(resolved_language(Some(&user), Some("de")), "en");
    assert_eq!(resolved_language(None, Some("de-AT")), "de");
    assert_eq!(resolved_language(None, None), "en");
}

#[test]
fn screens_and_buttons_are_translated() {
    let (label, data) = consent_button("tr");
    assert_eq!(label, t("tr", "consent-accept-button"));
    assert_eq!(data, "consent:accept");
    let buttons = language_buttons();
    assert_eq!(buttons.len(), 6);
    assert_eq!(buttons[0].1, "lang:en");
    assert!(help_text("en").ends_with("/history <SYMBOL>\n/performance <SYMBOL>"));
    assert!(language_changed_text("en").contains(&t("en", "language-name-en")));
    assert_eq!(no_history_text("BTCUSDT"), "No decision history for BTCUSDT");
    assert_eq!(no_performance_text("ETHUSDT"), "No performance history for ETHUSDT");
}

#[test]
fn channel_kinds_follow_prefixes() {
    assert_eq!(channel_kind("candles:BTCUSDT:1m"), ChannelKind::Candles);
    assert_eq!(channel_kind("orderbook:BTCUSDT"), ChannelKind::OrderBook);
    assert_eq!(channel_kind("funding:BTCUSDT"), ChannelKind::Funding);
    assert_eq!(channel_kind("open_interest:BTCUSDT"), ChannelKind::OpenInterest);
    assert_eq!(channel_kind("score:BTCUSDT"), ChannelKind::Other);
}

#[test]
fn first_message_of_each_kind_is_reported_once() {
    let mut state = SubscriberState::new();
    assert_eq!(state.note_channel("candles:BTCUSDT:1m"), (ChannelKind::Candles, true));
    assert_eq!(state.note_channel("candles:ETHUSDT:5m"), (ChannelKind::Candles, false));
    assert_eq!(state.note_channel("funding:BTCUSDT"), (ChannelKind::Funding, true));
    assert_eq!(state.note_channel("other"), (ChannelKind::Other, false));
    assert!(state.note_score());
    assert!(!state.note_score());
    assert_eq!(state.note_channel("orderbook:BTCUSDT"), (ChannelKind::OrderBook, true));
}

#[test]
fn sweeps_oppose_only_the_matching_direction() {
    assert!(sweep_opposes(Decision::Long, SweepSide::Highs));
    assert!(sweep_opposes(Decision::StrongShort, SweepSide::Lows));
    assert!(!sweep_opposes(Decision::Long, SweepSide::Lows));
    assert!(!sweep_opposes(Decision::WatchLong, SweepSide::Highs));
    assert!(!sweep_opposes(Decision::Short, SweepSide::NoSweep));
}

#[test]
fn reason_lines_and_rationales() {
    assert_eq!(list_line(&vec![]), "-");
    assert_eq!(list_line(&vec!["a".to_string(), "b".to_string()]), "a, b");
    assert_eq!(ledger_rationale("Long setup", &vec![]), "Long setup");
    assert_eq!(ledger_rationale("Long setup", &vec!["x: 1.0".to_string(), "y: 2.0".to_string()]), "x: 1.0; y: 2.0");
}

#[test]
fn triggers_once_on_upward_crossing() {
    let mut r: AlarmRegistry<f64> = AlarmRegistry::new();
    r.set(1, "BTCUSDT", 70.0);
    assert_eq!(r.crossed("BTCUSDT", |t: &f64| 75.0 >= *t), vec![(1, 70.0)]);
    assert!(r.crossed("BTCUSDT", |t: &f64| 80.0 >= *t).is_empty());
}

#[test]
fn alarm_fires_again_after_dropping_below() {
    let mut r: AlarmRegistry<f64> = AlarmRegistry::new();
    r.set(1, "BTCUSDT", 70.0);
    r.set(2, "ETHUSDT", 50.0);
    r.set(1, "BTCUSDT", 60.0);
    assert_eq!(r.subscribers("BTCUSDT"), vec![1]);
    assert_eq!(r.crossed("BTCUSDT", |t: &f64| 65.0 >= *t), vec![(1, 60.0)]);
    assert!(r.crossed("BTCUSDT", |t: &f64| 55.0 >= *t).is_empty());
    assert_eq!(r.crossed("BTCUSDT", |t: &f64| 61.0 >= *t), vec![(1, 60.0)]);
    assert!(r.crossed("ETHUSDT", |t: &f64| 40.0 >= *t).is_empty());
}
