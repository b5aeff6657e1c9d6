use boldtrace::auth::{prepare_reset_credentials, BootstrapResetRequest};
use boldtrace::bot::command_symbol;
use boldtrace::product::{AlertsQuery, CandleQuery, HistoryQuery};
use boldtrace::auth::{
    admin_gate, authorize_login, begin_login, bootstrap_reset_gate, check_location, is_valid_user_code,
    lookup_column, normalize_country, prepare_password_change, prepare_profile_update, prepare_registration,
    product_access_gate, registration_conflict, session_cookie, session_lifetime_hours, status_update_result,
    update_conflict, AuthError, PasswordChangeRequest, ProfileUpdateRequest, RegisterRequest, ResetGate, UserRecord,
};
use boldtrace::crypto::{hash_token, hex_encode, random_hex};
use boldtrace::email::{
    approved_email, ip_candidate, location_mismatch_email, new_registration_email, rejected_email, EmailConfig,
};
use boldtrace::product::{
    alert_item_id, backfill_url, bounded_limit, candle_interval, candle_limit, feed_status, freshness_ms,
    health_reference_symbol, health_report, history_item_id, horizon_label, intelligence_age_ms, millis_to_iso,
    outcome_label, parse_scan_symbols, reasons_with_warnings, reliability_label, request_symbol, scanner_status,
    FeedAge,
};
use boldtrace::rate_limit::RateLimiter;

fn request(email: &str, code: &str, password: &str, terms: bool) -> RegisterRequest {
    RegisterRequest {
        first_name: " Ada ".into(),
        last_name: "Lovelace".into(),
        user_code: code.into(),
        country: "TR".into(),
        national_id: "12345".into(),
        email: email.into(),
        password: password.into(),
        language: None,
        terms_accepted: terms,
    }
}

fn record(hash: &str, status: &str, is_admin: bool) -> UserRecord {
    UserRecord {
        id: "u1".into(),
        user_code: "ADA1".into(),
        email: "ada@example.com".into(),
        first_name: "Ada".into(),
        last_name: "Lovelace".into(),
        password_hash: hash.into(),
        language: "en".into(),
        status: status.into(),
        is_admin,
        country: "TR".into(),
        national_id: "12345".into(),
    }
}

#[test]
fn hashes_tokens_with_sha256_in_hex() {
    assert_eq!(hash_token("abc"), "ba7816bf8f01cfea414140de5dae2223b00361a396177a9cb410ff61f20015ad");
    assert_eq!(hex_encode(&vec![0, 15, 255]), "000fff");
}

#[test]
fn random_tokens_have_the_requested_length_and_differ() {
    let a = random_hex(32);
    let b = random_hex(32);
    assert_eq!(a.len(), 64);
    assert!(a.chars().all(|c| c.is_ascii_hexdigit() && !c.is_ascii_uppercase()));
    assert_ne!(a, b);
}

#[test]
fn registration_normalizes_and_hashes() {
    let mut limiter = RateLimiter::new();
    let account = prepare_registration(&mut limiter, 0, &request(" Ada@Example.COM ", "ada1", "long enough", true), None)
        .unwrap();
    assert_eq!(account.email, "ada@example.com");
    assert_eq!(account.first_name, "Ada");
    assert_eq!(account.user_code, "ADA1");
    assert_eq!(account.status, "pending");
    assert!(!account.is_admin);
    assert_eq!(account.language, "en");
    assert_eq!(account.id.len(), 32);
    assert_ne!(account.password_hash, "long enough");
    assert_eq!(authorize_login(Some(&record(&account.password_hash, "approved", false)), "long enough"), Ok(()));
    assert_eq!(
        authorize_login(Some(&record(&account.password_hash, "approved", false)), "wrong password"),
        Err(AuthError::InvalidCredentials)
    );
    assert_eq!(
        authorize_login(Some(&record(&account.password_hash, "pending", false)), "long enough"),
        Err(AuthError::AccountPending)
    );
    assert_eq!(
        authorize_login(Some(&record(&account.password_hash, "rejected", false)), "long enough"),
        Err(AuthError::AccountRejected)
    );
    let changed = prepare_password_change(
        &account.password_hash,
        &PasswordChangeRequest { current_password: "long enough".into(), new_password: "another secret".into() },
    )
    .unwrap();
    assert_eq!(authorize_login(Some(&record(&changed, "approved", false)), "another secret"), Ok(()));
}

#[test]
fn registration_errors() {
    let mut limiter = RateLimiter::new();
    let bad_email = prepare_registration(&mut limiter, 0, &request("no-at-sign", "ADA1", "long enough", true), None);
    assert_eq!(bad_email.err(), Some(AuthError::InvalidInput));
    let short = prepare_registration(&mut limiter, 0, &request("a@b.c", "ADA1", "short", true), None);
    assert_eq!(short.err(), Some(AuthError::InvalidInput));
    let code = prepare_registration(&mut limiter, 0, &request("a@b.c", "AD", "long enough", true), None);
    assert_eq!(code.err(), Some(AuthError::InvalidUserCode));
    let terms = prepare_registration(&mut limiter, 0, &request("a@b.c", "ADA1", "long enough", false), None);
    assert_eq!(terms.err(), Some(AuthError::TermsNotAccepted));
    for _ in 0..2 {
        let again = prepare_registration(&mut limiter, 0, &request("a@b.c", "ADA1", "long enough", false), None);
        assert_eq!(again.err(), Some(AuthError::TermsNotAccepted));
    }
    let limited = prepare_registration(&mut limiter, 0, &request("a@b.c", "ADA1", "long enough", false), None);
    assert_eq!(limited.err(), Some(AuthError::RateLimited));
    assert_eq!(AuthError::RateLimited.status(), 429);
}

#[test]
fn bootstrap_email_is_approved_admin() {
    let mut limiter = RateLimiter::new();
    let account =
        prepare_registration(&mut limiter, 0, &request("Boss@Example.com", "BOSS1", "long enough", true), Some(" boss@example.com "))
            .unwrap();
    assert!(account.is_admin);
    assert_eq!(account.status, "approved");
}

#[test]
fn login_identifiers_and_rate_limit() {
    let mut limiter = RateLimiter::new();
    let id = begin_login(&mut limiter, 0, " Ada@Example.com ").unwrap();
    assert!(id.is_email);
    assert_eq!(id.value, "ada@example.com");
    let code = begin_login(&mut limiter, 0, " ada1 ").unwrap();
    assert!(!code.is_email);
    assert_eq!(code.value, "ADA1");
    assert_eq!(lookup_column(true), "email");
    assert_eq!(lookup_column(false), "user_code");
    for _ in 0..7 {
        assert!(begin_login(&mut limiter, 10, "ada1").is_ok());
    }
    assert_eq!(begin_login(&mut limiter, 10, "ada1").err(), Some(AuthError::RateLimited));
    assert_eq!(begin_login(&mut limiter, 900_000_000_000, "ada1").err(), Some(AuthError::RateLimited));
    assert!(begin_login(&mut limiter, 900_000_000_011, "ada1").is_ok());
    assert_eq!(authorize_login(None, "x"), Err(AuthError::InvalidCredentials));
}

#[test]
fn location_guard() {
    assert_eq!(check_location(false, "TR", Some("DE")), Err(AuthError::LocationMismatch));
    assert_eq!(check_location(false, "TR", Some("TR")), Ok(()));
    assert_eq!(check_location(false, "TR", None), Ok(()));
    assert_eq!(check_location(true, "TR", Some("DE")), Ok(()));
    assert_eq!(check_location(false, "", Some("DE")), Ok(()));
    assert_eq!(normalize_country(Some(" tr ")), Some("TR".to_string()));
    assert_eq!(normalize_country(Some("TUR")), None);
    assert_eq!(normalize_country(None), None);
}

#[test]
fn sessions_and_cookies() {
    assert_eq!(session_lifetime_hours(true), 720);
    assert_eq!(session_lifetime_hours(false), 12);
    let c = session_cookie(true, "tok".into(), true);
    assert_eq!(c.name, "bt_session");
    assert_eq!(c.value, "tok");
    assert!(c.http_only && c.same_site_lax && c.secure);
    assert_eq!(c.max_age_days, Some(30));
    assert_eq!(session_cookie(false, "t".into(), false).max_age_days, None);
}

#[test]
fn profile_and_conflicts() {
    let ok = prepare_profile_update(&ProfileUpdateRequest {
        first_name: " Ada".into(),
        last_name: "L ".into(),
        user_code: "ada2".into(),
        country: "TR".into(),
        national_id: "1".into(),
    })
    .unwrap();
    assert_eq!(ok.first_name, "Ada");
    assert_eq!(ok.user_code, "ADA2");
    let bad = prepare_profile_update(&ProfileUpdateRequest {
        first_name: " ".into(),
        last_name: "L".into(),
        user_code: "ada2".into(),
        country: "TR".into(),
        national_id: "1".into(),
    });
    assert_eq!(bad.err(), Some(AuthError::InvalidInput));
    assert_eq!(registration_conflict(Some("web_users_email_key")), AuthError::EmailTaken);
    assert_eq!(registration_conflict(Some("web_users_user_code_key")), AuthError::UserCodeTaken);
    assert_eq!(registration_conflict(None), AuthError::RegistrationFailed);
    assert_eq!(update_conflict(Some("web_users_user_code_key")), AuthError::UserCodeTaken);
    assert!(is_valid_user_code("ABCD1234"));
    assert!(!is_valid_user_code("AB-CD"));
}

#[test]
fn admin_and_product_gates() {
    assert_eq!(admin_gate(None), Err(AuthError::NotAuthenticated));
    assert_eq!(admin_gate(Some(&record("h", "approved", false))), Err(AuthError::AdminRequired));
    assert_eq!(admin_gate(Some(&record("h", "approved", true))), Ok(()));
    assert_eq!(status_update_result(1), Ok(()));
    assert_eq!(status_update_result(0), Err(AuthError::PendingAccountNotFound));
    assert_eq!(product_access_gate(None, true), Err(AuthError::NotAuthenticated));
    assert_eq!(product_access_gate(Some(&record("h", "pending", false)), true), Err(AuthError::AccountNotApproved));
    assert_eq!(product_access_gate(Some(&record("h", "approved", false)), false), Err(AuthError::TermsMissing));
    assert_eq!(product_access_gate(Some(&record("h", "approved", false)), true), Ok(()));
    assert_eq!(AuthError::TermsMissing.code(), "terms_not_accepted");
}

#[test]
fn bootstrap_reset_gate_needs_secret_and_admin() {
    assert!(matches!(bootstrap_reset_gate(None, Some("a@b.c"), Some("s")), ResetGate::Disabled));
    assert!(matches!(bootstrap_reset_gate(Some("s"), Some("a@b.c"), Some("x")), ResetGate::Denied));
    assert!(matches!(bootstrap_reset_gate(Some("s"), Some("A@B.c"), Some("s")), ResetGate::Allowed(e) if e == "a@b.c"));
}

#[test]
fn product_labels_and_limits() {
    assert_eq!(horizon_label(15), "15m");
    assert_eq!(horizon_label(60), "1h");
    assert_eq!(horizon_label(240), "4h");
    assert_eq!(horizon_label(5), "unknown");
    assert_eq!(reliability_label(29), "LOW");
    assert_eq!(reliability_label(30), "MEDIUM");
    assert_eq!(reliability_label(150), "HIGH");
    assert_eq!(request_symbol("btcusdt"), Some("BTCUSDT".to_string()));
    assert_eq!(request_symbol("btc/usdt"), None);
    assert_eq!(candle_interval(None), Some("1m".to_string()));
    assert_eq!(candle_interval(Some("1h")), None);
    assert_eq!(candle_limit(None), 200);
    assert_eq!(candle_limit(Some(5000)), 1000);
    assert_eq!(bounded_limit(Some(-3), 20, 100), 1);
    assert_eq!(history_item_id("BTCUSDT", 42, 60), "BTCUSDT-42-60");
    assert_eq!(alert_item_id("BTCUSDT", -1), "BTCUSDT--1");
    assert_eq!(outcome_label(true), "WIN");
}

#[test]
fn freshness_and_feed_status() {
    assert_eq!(scanner_status(100_000, 50_000), "live");
    assert_eq!(scanner_status(100_000, 40_000), "stale");
    assert_eq!(freshness_ms(1_000, 2_000), 0);
    assert_eq!(freshness_ms(i64::MAX, i64::MIN), i64::MAX as u64);
    assert_eq!(intelligence_age_ms(-2), None);
    assert_eq!(intelligence_age_ms(100), Some(20_000));
    assert_eq!(intelligence_age_ms(500), Some(0));
    assert_eq!(feed_status(59_999), "healthy");
    assert_eq!(feed_status(60_000), "degraded");
}

#[test]
fn scan_symbols_configuration() {
    assert_eq!(parse_scan_symbols(" all "), None);
    assert_eq!(parse_scan_symbols("btcusdt, ,ethusdt"), Some(vec!["BTCUSDT".to_string(), "ETHUSDT".to_string()]));
    assert_eq!(health_reference_symbol(&Some(vec!["SOLUSDT".to_string()])), "SOLUSDT");
    assert_eq!(health_reference_symbol(&None), "BTCUSDT");
    assert_eq!(health_reference_symbol(&Some(vec![])), "BTCUSDT");
}

#[test]
fn timestamps_are_written_in_rfc3339() {
    assert_eq!(millis_to_iso(0), "1970-01-01T00:00:00Z");
    assert_eq!(millis_to_iso(1_546_300_800_999), "2019-01-01T00:00:00Z");
    assert_eq!(millis_to_iso(-1_500), "1969-12-31T23:59:59Z");
    assert_eq!(millis_to_iso(i64::MAX), "");
}

#[test]
fn market_reasons_list_warnings_last() {
    let r = reasons_with_warnings(&vec!["a".into()], &vec!["stale".into(), "risk".into()]);
    assert_eq!(r, vec!["a".to_string(), "Warning: stale".to_string(), "Warning: risk".to_string()]);
}

#[test]
fn health_report_lines() {
    let report = health_report(true, Some(3), None, None, FeedAge::Age(61_000));
    let statuses: Vec<&str> = report.iter().map(|h| h.status.as_str()).collect();
    assert_eq!(statuses, vec!["healthy", "healthy", "offline", "degraded"]);
    assert_eq!(report[3].freshness_ms, Some(61_000));
    assert_eq!(report[1].latency_ms, Some(3));
    let report = health_report(false, None, Some(false), Some(1), FeedAge::ReadFailed);
    assert_eq!(report[1].status, "degraded");
    assert_eq!(report[2].status, "degraded");
    assert_eq!(report[3].status, "degraded");
    assert_eq!(report[3].freshness_ms, None);
    assert_eq!(health_report(true, None, Some(true), None, FeedAge::Missing)[3].status, "offline");
}

#[test]
fn backfill_request_names_symbol_and_interval() {
    assert_eq!(
        backfill_url("BTCUSDT", "5m"),
        "https://api.binance.com/api/v3/klines?symbol=BTCUSDT&interval=5m&limit=500"
    );
}

#[test]
fn notification_emails() {
    let config = EmailConfig::from_values(None, Some("admin@x.io".into()), None);
    assert_eq!(config.from, "BOLDTRACE <noreply@boldkimya.com.tr>");
    let m = new_registration_email(&config, "Ada", "Lovelace", "ada@x.io", "ADA1").unwrap();
    assert_eq!(m.to, "admin@x.io");
    assert_eq!(m.subject, "BOLDTRACE: new account pending approval");
    assert!(m.html.contains("<li><b>Name:</b> Ada Lovelace</li>"));
    assert!(m.html.contains("<li><b>User code:</b> ADA1</li>"));
    let none = EmailConfig::from_values(Some("k".into()), None, Some("me <me@x.io>".into()));
    assert_eq!(none.from, "me <me@x.io>");
    assert!(new_registration_email(&none, "A", "B", "c", "d").is_none());
    assert!(location_mismatch_email(&none, "A", "B", "c", "TR", "DE", "1.2.3.4").is_none());
    let loc = location_mismatch_email(&config, "A", "B", "c", "TR", "DE", "1.2.3.4").unwrap();
    assert!(loc.html.contains("<li><b>Detected country:</b> DE</li><li><b>IP:</b> 1.2.3.4</li>"));
    let ok = approved_email("ada@x.io", "Ada");
    assert_eq!(ok.html, "<p>Hi Ada,</p><p>Your BOLDTRACE account has been approved. You can now sign in.</p>");
    assert_eq!(rejected_email("ada@x.io", "Ada").subject, "Your BOLDTRACE account request");
}

#[test]
fn client_address_candidates() {
    assert_eq!(ip_candidate(Some(" 203.0.113.5 , 10.0.0.1"), Some("1.1.1.1")), Some("203.0.113.5".to_string()));
    assert_eq!(ip_candidate(None, Some("1.1.1.1")), Some("1.1.1.1".to_string()));
    assert_eq!(ip_candidate(None, None), None);
    assert_eq!(ip_candidate(Some(""), None), Some(String::new()));
}

#[test]
fn query_defaults_and_bounds() {
    assert_eq!(AlertsQuery { limit: None }.row_limit(), 20);
    assert_eq!(AlertsQuery { limit: Some(500) }.row_limit(), 100);
    assert_eq!(HistoryQuery { limit: Some(0), symbol: None }.row_limit(), 1);
    assert_eq!(HistoryQuery { limit: None, symbol: Some("BTCUSDT".into()) }.row_limit(), 50);
    let q = CandleQuery { interval: Some("5m".into()), limit: Some(7) };
    assert_eq!(q.row_limit(), 7);
    assert_eq!(q.served_interval(), Some("5m".to_string()));
    assert_eq!(CandleQuery { interval: Some("4h".into()), limit: None }.served_interval(), None);
    assert_eq!(CandleQuery { interval: None, limit: None }.served_interval(), Some("1m".to_string()));
}

#[test]
fn reset_credentials_hash_a_long_enough_password() {
    let (code, hash) = prepare_reset_credentials(&BootstrapResetRequest {
        user_code: " boss1 ".into(),
        new_password: "long enough".into(),
    })
    .unwrap();
    assert_eq!(code, "BOSS1");
    let account = record(&hash, "approved", true);
    assert_eq!(authorize_login(Some(&account), "long enough"), Ok(()));
    assert_eq!(
        prepare_reset_credentials(&BootstrapResetRequest { user_code: "b".into(), new_password: "long enough".into() }),
        Err(AuthError::InvalidUserCode)
    );
}

#[test]
fn command_symbols_are_trimmed_and_uppercased() {
    assert_eq!(command_symbol("  btcusdt "), "BTCUSDT");
    assert_eq!(command_symbol("EthUsdt"), "ETHUSDT");
}
