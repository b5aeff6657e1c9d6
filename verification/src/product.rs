//! Request normalization and response labelling of the web product API.

use vstd::prelude::*;
use vstd::string::*;
use crate::config::distinct_nonempty;
use crate::streams::copy_strings;
use crate::text::{
    concat, chars_eq_ignore_ascii_case, chars_of, decimal, eq_ignore_ascii_case, i64_to_decimal, split_chars,
    split_on, str_eq, string_from, string_of, to_uppercase, trim_chars, trimmed, uppercase_of,
};

verus! {

broadcast use vstd::string::group_string_axioms;

/// The query of the alert feed.
#[derive(Debug)]
pub struct AlertsQuery {
    pub limit: Option<i64>,
}

/// The query of the decision history.
#[derive(Debug)]
pub struct HistoryQuery {
    pub limit: Option<i64>,
    pub symbol: Option<String>,
}

/// The query of the candle chart.
#[derive(Debug)]
pub struct CandleQuery {
    pub interval: Option<String>,
    pub limit: Option<i64>,
}

/// The label of an outcome horizon given in minutes.
pub open spec fn horizon_name(minutes: i32) -> Seq<char> {
    if minutes == 15 {
        "15m"@
    } else if minutes == 60 {
        "1h"@
    } else if minutes == 240 {
        "4h"@
    } else {
        "unknown"@
    }
}

pub fn horizon_label(minutes: i32) -> (s: &'static str)
    ensures
        s@ == horizon_name(minutes),
{
    match minutes {
        15 => "15m",
        60 => "1h",
        240 => "4h",
        _ => "unknown",
    }
}

/// The outcome horizons whose realized performance is reported.
pub const PERFORMANCE_HORIZONS: [i32; 3] = [15, 60, 240];

/// How far a realized win rate over `samples` outcomes can be relied on.
pub open spec fn reliability_name(samples: i64) -> Seq<char> {
    if samples < 30 {
        "LOW"@
    } else if samples < 150 {
        "MEDIUM"@
    } else {
        "HIGH"@
    }
}

pub fn reliability_label(samples: i64) -> (s: &'static str)
    ensures
        s@ == reliability_name(samples),
{
    if samples < 30 {
        "LOW"
    } else if samples < 150 {
        "MEDIUM"
    } else {
        "HIGH"
    }
}

/// A symbol path segment is at most 24 characters of ASCII letters,
/// digits, `_` and `-`.
pub open spec fn symbol_char(c: char) -> bool {
    ('0' <= c && c <= '9') || ('a' <= c && c <= 'z') || ('A' <= c && c <= 'Z') || c == '_' || c == '-'
}

pub open spec fn valid_symbol(s: Seq<char>) -> bool {
    s.len() <= 24 && forall|i: int| 0 <= i < s.len() ==> symbol_char(s[i])
}

pub fn is_valid_symbol(symbol: &str) -> (r: bool)
    ensures
        r == valid_symbol(symbol@),
{
    let chars = chars_of(symbol);
    if chars.len() > 24 {
        return false;
    }
    let mut i: usize = 0;
    while i < chars.len()
        invariant
            i <= chars.len(),
            chars@ == symbol@,
            forall|k: int| 0 <= k < i ==> symbol_char(symbol@[k]),
        decreases chars.len() - i,
    {
        let c = chars[i];
        if !(('0' <= c && c <= '9') || ('a' <= c && c <= 'z') || ('A' <= c && c <= 'Z') || c == '_' || c == '-') {
            return false;
        }
        i += 1;
    }
    true
}

/// The symbol a request path names: uppercased, and only when valid.
pub open spec fn request_symbol_of(raw: Seq<char>) -> Option<Seq<char>> {
    if valid_symbol(uppercase_of(raw)) { Some(uppercase_of(raw)) } else { None }
}

pub fn request_symbol(raw: &str) -> (r: Option<String>)
    ensures
        match r {
            Some(s) => request_symbol_of(raw@) == Some(s@),
            None => request_symbol_of(raw@) is None,
        },
{
    let upper = to_uppercase(raw);
    if is_valid_symbol(upper.as_str()) { Some(upper) } else { None }
}

/// The candle interval of a request: `1m` unless given; only `1m` and `5m`
/// are served.
pub open spec fn candle_interval_of(requested: Option<Seq<char>>) -> Option<Seq<char>> {
    let i = match requested {
        Some(r) => r,
        None => "1m"@,
    };
    if i == "1m"@ || i == "5m"@ { Some(i) } else { None }
}

pub fn candle_interval(requested: Option<&str>) -> (r: Option<String>)
    ensures
        match r {
            Some(s) => candle_interval_of(
                match requested {
                    Some(q) => Some(q@),
                    None => None,
                },
            ) == Some(s@),
            None => candle_interval_of(
                match requested {
                    Some(q) => Some(q@),
                    None => None,
                },
            ) is None,
        },
{
    let i: &str = match requested {
        Some(q) => q,
        None => "1m",
    };
    if str_eq(i, "1m") || str_eq(i, "5m") { Some(string_from(i)) } else { None }
}

/// A requested row count: the default when absent, clamped to `1..=max`.
pub open spec fn clamped_limit(requested: Option<i64>, default: i64, max: i64) -> i64 {
    let v = match requested {
        Some(x) => x,
        None => default,
    };
    if v < 1 {
        1
    } else if v > max {
        max
    } else {
        v
    }
}

pub fn bounded_limit(requested: Option<i64>, default: i64, max: i64) -> (n: i64)
    requires
        1 <= max,
    ensures
        n == clamped_limit(requested, default, max),
        1 <= n <= max,
{
    let v = match requested {
        Some(x) => x,
        None => default,
    };
    if v < 1 {
        1
    } else if v > max {
        max
    } else {
        v
    }
}

/// Rows of candle history served at most.
pub fn candle_limit(requested: Option<i64>) -> (n: i64)
    ensures
        n == clamped_limit(requested, 200, 1000),
{
    bounded_limit(requested, 200, 1000)
}

pub fn alerts_limit(requested: Option<i64>) -> (n: i64)
    ensures
        n == clamped_limit(requested, 20, 100),
{
    bounded_limit(requested, 20, 100)
}

pub fn history_limit(requested: Option<i64>) -> (n: i64)
    ensures
        n == clamped_limit(requested, 50, 250),
{
    bounded_limit(requested, 50, 250)
}

/// The id of a realized-history item: symbol, decision time and horizon.
pub fn history_item_id(symbol: &str, decided_at_millis: i64, horizon_minutes: i32) -> (id: String)
    ensures
        id@ == symbol@ + "-"@ + decimal(decided_at_millis as int) + "-"@ + decimal(horizon_minutes as int),
{
    let mut id = string_from(symbol);
    id.append("-");
    let t = i64_to_decimal(decided_at_millis);
    id.append(t.as_str());
    id.append("-");
    let h = i64_to_decimal(horizon_minutes as i64);
    id.append(h.as_str());
    id
}

/// The id of an alert: symbol and decision time.
pub fn alert_item_id(symbol: &str, decided_at_millis: i64) -> (id: String)
    ensures
        id@ == symbol@ + "-"@ + decimal(decided_at_millis as int),
{
    let mut id = string_from(symbol);
    id.append("-");
    let t = i64_to_decimal(decided_at_millis);
    id.append(t.as_str());
    id
}

pub fn outcome_label(correct: bool) -> (s: &'static str)
    ensures
        s@ == if correct { "WIN"@ } else { "LOSS"@ },
{
    if correct { "WIN" } else { "LOSS" }
}

/// `now - then`, saturating at the bounds of `i64`.
pub open spec fn saturating_diff(now: i64, then: i64) -> i64 {
    let d = now - then;
    if d > i64::MAX {
        i64::MAX
    } else if d < i64::MIN {
        i64::MIN
    } else {
        d as i64
    }
}

pub(crate) fn saturating_sub(now: i64, then: i64) -> (d: i64)
    ensures
        d == saturating_diff(now, then),
{
    let wide: i128 = now as i128 - then as i128;
    if wide > i64::MAX as i128 {
        i64::MAX
    } else if wide < i64::MIN as i128 {
        i64::MIN
    } else {
        wide as i64
    }
}

/// Live intelligence counts as live for one minute after it was written.
pub fn scanner_status(now_millis: i64, timestamp: i64) -> (s: &'static str)
    ensures
        s@ == if saturating_diff(now_millis, timestamp) < 60_000 { "live"@ } else { "stale"@ },
{
    if saturating_sub(now_millis, timestamp) < 60_000 { "live" } else { "stale" }
}

/// How old published data is, never negative.
pub fn freshness_ms(now_millis: i64, timestamp: i64) -> (ms: u64)
    ensures
        ms == if saturating_diff(now_millis, timestamp) < 0 { 0 } else { saturating_diff(now_millis, timestamp) as int },
{
    let d = saturating_sub(now_millis, timestamp);
    if d < 0 { 0 } else { d as u64 }
}

/// Seconds live intelligence is kept after each publication.
pub const INTELLIGENCE_TTL_SECS: i64 = 120;

/// The age of live intelligence, derived from the remaining lifetime of its
/// key; `None` when the key is gone or has no lifetime.
pub fn intelligence_age_ms(ttl_secs: i64) -> (age: Option<i64>)
    ensures
        ttl_secs < 0 ==> age is None,
        ttl_secs >= 0 ==> age == Some(
            ((if INTELLIGENCE_TTL_SECS - ttl_secs < 0 { 0 } else { INTELLIGENCE_TTL_SECS - ttl_secs }) * 1000) as i64,
        ),
{
    if ttl_secs < 0 {
        return None;
    }
    let remaining = INTELLIGENCE_TTL_SECS - ttl_secs;
    let elapsed = if remaining < 0 { 0 } else { remaining };
    Some(elapsed * 1000)
}

/// The exchange feed is healthy while intelligence is under a minute old.
pub fn feed_status(age_ms: i64) -> (s: &'static str)
    ensures
        s@ == if age_ms < 60_000 { "healthy"@ } else { "degraded"@ },
{
    if age_ms < 60_000 { "healthy" } else { "degraded" }
}

/// Keeps the non-empty entries, in order.
pub open spec fn nonempty_entries(s: Seq<Seq<char>>) -> Seq<Seq<char>>
    decreases s.len(),
{
    if s.len() == 0 {
        Seq::empty()
    } else {
        let kept = nonempty_entries(s.drop_last());
        if s.last().len() == 0 { kept } else { kept.push(s.last()) }
    }
}

/// The scanner's symbol list: `None` (scan everything that publishes) for
/// `ALL` in any ASCII case, otherwise the trimmed, uppercased, non-empty
/// entries of the comma-separated list.
pub open spec fn scan_symbols_of(raw: Seq<char>) -> Option<Seq<Seq<char>>> {
    if eq_ignore_ascii_case(trimmed(raw), "ALL"@) {
        None
    } else {
        Some(nonempty_entries(split_on(raw, ',').map_values(|p: Seq<char>| uppercase_of(trimmed(p)))))
    }
}

pub fn parse_scan_symbols(raw: &str) -> (r: Option<Vec<String>>)
    ensures
        match r {
            Some(v) => scan_symbols_of(raw@) == Some(v.deep_view()),
            None => scan_symbols_of(raw@) is None,
        },
{
    let chars = chars_of(raw);
    let t = trim_chars(&chars);
    if chars_eq_ignore_ascii_case(&t, "ALL") {
        return None;
    }
    let parts = split_chars(&chars, ',');
    let ghost normalized = split_on(raw@, ',').map_values(|p: Seq<char>| uppercase_of(trimmed(p)));
    let mut out: Vec<String> = Vec::new();
    let mut i: usize = 0;
    while i < parts.len()
        invariant
            chars@ == raw@,
            i <= parts.len() == split_on(raw@, ',').len(),
            forall|k: int| 0 <= k < parts.len() ==> #[trigger] parts[k]@ == split_on(raw@, ',')[k],
            normalized == split_on(raw@, ',').map_values(|p: Seq<char>| uppercase_of(trimmed(p))),
            out.deep_view() == nonempty_entries(normalized.take(i as int)),
        decreases parts.len() - i,
    {
        let piece = trim_chars(&parts[i]);
        let piece_string = string_of(&piece);
        let upper = to_uppercase(piece_string.as_str());
        assert(upper@ == normalized[i as int]);
        assert(normalized.take(i + 1).drop_last() =~= normalized.take(i as int));
        if !upper.as_str().is_empty() {
            out.push(upper);
            assert(out.deep_view() =~= nonempty_entries(normalized.take(i as int)).push(normalized[i as int]));
        }
        i += 1;
    }
    assert(normalized.take(parts.len() as int) =~= normalized);
    Some(out)
}

/// First Unix second of year 0 and last Unix second of year 9999 (UTC):
/// the instants RFC 3339 can write.
pub const RFC3339_MIN_SECS: i64 = -62_167_219_200;

pub const RFC3339_MAX_SECS: i64 = 253_402_300_799;

/// The RFC 3339 text of the UTC instant `secs` seconds after the Unix
/// epoch, as the `time` crate writes it.
pub uninterp spec fn rfc3339_utc(secs: int) -> Seq<char>;

/// Calls `time::OffsetDateTime::from_unix_timestamp` and formats the
/// instant with `time::format_description::well_known::Rfc3339`. The first
/// call fails outside the dates `time` represents; the format fails for
/// years outside 0..=9999, which covers every other failure. At offset UTC
/// and zero nanoseconds the text is `YYYY-MM-DDTHH:MM:SSZ`.
#[verifier::external_body]
fn format_unix_rfc3339(secs: i64) -> (r: Option<String>)
    ensures
        match r {
            Some(text) => RFC3339_MIN_SECS <= secs <= RFC3339_MAX_SECS && text@ == rfc3339_utc(secs as int)
                && text@.len() == 20 && text@[19] == 'Z',
            None => !(RFC3339_MIN_SECS <= secs <= RFC3339_MAX_SECS),
        },
{
    time::OffsetDateTime::from_unix_timestamp(secs).ok().and_then(
        |t| t.format(&time::format_description::well_known::Rfc3339).ok(),
    )
}

/// `millis` in whole seconds, rounded toward zero as integer division does.
pub open spec fn whole_seconds(millis: i64) -> int {
    if millis >= 0 {
        millis / 1000
    } else {
        -((-millis) / 1000)
    }
}

/// The RFC 3339 time of a millisecond timestamp, or the empty string when
/// it lies outside the years RFC 3339 can write.
pub fn millis_to_iso(millis: i64) -> (s: String)
    ensures
        s@ == if RFC3339_MIN_SECS <= whole_seconds(millis) <= RFC3339_MAX_SECS {
            rfc3339_utc(whole_seconds(millis))
        } else {
            Seq::empty()
        },
{
    let wide = millis as i128;
    let secs_wide: i128 = if wide >= 0 { wide / 1000 } else { -((-wide) / 1000) };
    assert(secs_wide == whole_seconds(millis));
    let secs = secs_wide as i64;
    match format_unix_rfc3339(secs) {
        Some(text) => text,
        None => String::new(),
    }
}

/// Klines fetched per symbol and interval when history is backfilled.
pub const BACKFILL_LIMIT: u32 = 500;

/// The Binance spot klines request that backfills `symbol` at `interval`.
pub fn backfill_url(symbol: &str, interval: &str) -> (url: String)
    ensures
        url@ == "https://api.binance.com/api/v3/klines?symbol="@ + symbol@ + "&interval="@ + interval@
            + "&limit=500"@,
{
    let mut url = string_from("https://api.binance.com/api/v3/klines?symbol=");
    url.append(symbol);
    url.append("&interval=");
    url.append(interval);
    url.append("&limit=500");
    url
}

/// The Binance spot klines request for `symbol` at `interval`, at most
/// `limit` klines.
pub fn klines_url(symbol: &str, interval: &str, limit: u32) -> (url: String)
    ensures
        url@ == "https://api.binance.com/api/v3/klines?symbol="@ + symbol@ + "&interval="@ + interval@
            + "&limit="@ + decimal(limit as int),
{
    let mut url = string_from("https://api.binance.com/api/v3/klines?symbol=");
    url.append(symbol);
    url.append("&interval=");
    url.append(interval);
    url.append("&limit=");
    let digits = i64_to_decimal(limit as i64);
    url.append(digits.as_str());
    url
}

/// The reasons shown for a decision: its own reasons, then each warning
/// prefixed `Warning: `.
pub open spec fn shown_reasons(reasons: Seq<Seq<char>>, warnings: Seq<Seq<char>>) -> Seq<Seq<char>> {
    reasons + warnings.map_values(|w: Seq<char>| "Warning: "@ + w)
}

pub fn reasons_with_warnings(reasons: &Vec<String>, warnings: &Vec<String>) -> (r: Vec<String>)
    ensures
        r.deep_view() == shown_reasons(reasons.deep_view(), warnings.deep_view()),
{
    let mut r = copy_strings(reasons);
    let mut i: usize = 0;
    while i < warnings.len()
        invariant
            i <= warnings.len(),
            r.deep_view() == reasons.deep_view() + warnings.deep_view().take(i as int).map_values(
                |w: Seq<char>| "Warning: "@ + w,
            ),
        decreases warnings.len() - i,
    {
        let line = concat("Warning: ", warnings[i].as_str());
        let ghost before = r.deep_view();
        r.push(line);
        assert(r.deep_view() =~= before.push("Warning: "@ + warnings.deep_view()[i as int]));
        assert(warnings.deep_view().take(i + 1).map_values(|w: Seq<char>| "Warning: "@ + w) =~= warnings.deep_view().take(
            i as int,
        ).map_values(|w: Seq<char>| "Warning: "@ + w).push("Warning: "@ + warnings.deep_view()[i as int]));
        i += 1;
    }
    assert(warnings.deep_view().take(warnings.len() as int) =~= warnings.deep_view());
    r
}

/// The symbol whose feed age stands for the exchange feed: the first
/// configured scan symbol, or BTCUSDT when scanning everything or none is
/// configured.
pub fn health_reference_symbol(scan: &Option<Vec<String>>) -> (s: String)
    ensures
        s@ == match scan {
            Some(list) => if list@.len() > 0 { list@[0]@ } else { "BTCUSDT"@ },
            None => "BTCUSDT"@,
        },
{
    match scan {
        Some(list) => if list.len() > 0 { list[0].clone() } else { string_from("BTCUSDT") },
        None => string_from("BTCUSDT"),
    }
}

/// What reading the exchange feed's age gave.
#[derive(Debug, Clone, Copy)]
pub enum FeedAge {
    /// No live store is configured.
    NoStore,
    /// The store could not be read.
    ReadFailed,
    /// The store holds no live intelligence for the reference symbol.
    Missing,
    /// Live intelligence is this many milliseconds old.
    Age(i64),
}

/// One line of the service health report.
#[derive(Debug)]
pub struct ServiceHealth {
    pub name: String,
    pub status: String,
    pub freshness_ms: Option<u64>,
    pub latency_ms: Option<u64>,
}

/// A health line as values the contracts compare.
pub open spec fn health_line(h: ServiceHealth) -> (Seq<char>, Seq<char>, Option<u64>, Option<u64>) {
    (h.name@, h.status@, h.freshness_ms, h.latency_ms)
}

fn health_line_of(name: &str, status: &str, freshness_ms: Option<u64>, latency_ms: Option<u64>) -> (h: ServiceHealth)
    ensures
        health_line(h) == (name@, status@, freshness_ms, latency_ms),
{
    ServiceHealth { name: string_from(name), status: string_from(status), freshness_ms, latency_ms }
}

/// The status of the exchange feed and the freshness it reports.
pub open spec fn feed_line(feed: FeedAge) -> (Seq<char>, Option<u64>) {
    match feed {
        FeedAge::NoStore => ("offline"@, None),
        FeedAge::ReadFailed => ("degraded"@, None),
        FeedAge::Missing => ("offline"@, None),
        FeedAge::Age(age) => (if age < 60_000 { "healthy"@ } else { "degraded"@ }, Some(age as u64)),
    }
}

/// The health report: the API itself, Redis (reachable or not, with the
/// ping's latency when a store is configured), Postgres (healthy, degraded
/// or offline when unconfigured) and the exchange feed.
pub fn health_report(
    redis_reachable: bool,
    redis_latency_ms: Option<u64>,
    postgres_ok: Option<bool>,
    postgres_latency_ms: Option<u64>,
    feed: FeedAge,
) -> (report: Vec<ServiceHealth>)
    ensures
        report@.map_values(|h: ServiceHealth| health_line(h)) == seq![
            ("Product API"@, "healthy"@, None, None),
            ("Redis"@, if redis_reachable { "healthy"@ } else { "degraded"@ }, None, redis_latency_ms),
            ("Postgres"@, match postgres_ok {
                Some(true) => "healthy"@,
                Some(false) => "degraded"@,
                None => "offline"@,
            }, None, postgres_latency_ms),
            ("Exchange Feed"@, feed_line(feed).0, feed_line(feed).1, None),
        ],
{
    let mut report: Vec<ServiceHealth> = Vec::new();
    report.push(health_line_of("Product API", "healthy", None, None));
    report.push(health_line_of("Redis", if redis_reachable { "healthy" } else { "degraded" }, None, redis_latency_ms));
    let pg = match postgres_ok {
        Some(true) => "healthy",
        Some(false) => "degraded",
        None => "offline",
    };
    report.push(health_line_of("Postgres", pg, None, postgres_latency_ms));
    let (feed_status_text, freshness): (&str, Option<u64>) = match feed {
        FeedAge::NoStore => ("offline", None),
        FeedAge::ReadFailed => ("degraded", None),
        FeedAge::Missing => ("offline", None),
        FeedAge::Age(age) => (if age < 60_000 { "healthy" } else { "degraded" }, Some(age as u64)),
    };
    report.push(health_line_of("Exchange Feed", feed_status_text, freshness, None));
    assert(report@.map_values(|h: ServiceHealth| health_line(h)) =~= seq![
        ("Product API"@, "healthy"@, None, None),
        ("Redis"@, if redis_reachable { "healthy"@ } else { "degraded"@ }, None, redis_latency_ms),
        ("Postgres"@, match postgres_ok {
            Some(true) => "healthy"@,
            Some(false) => "degraded"@,
            None => "offline"@,
        }, None, postgres_latency_ms),
        ("Exchange Feed"@, feed_line(feed).0, feed_line(feed).1, None),
    ]);
    report
}

impl AlertsQuery {
    /// Rows to return: 20 unless given, within 1..=100.
    pub fn row_limit(&self) -> (n: i64)
        ensures
            n == clamped_limit(self.limit, 20, 100),
    {
        alerts_limit(self.limit)
    }
}

impl HistoryQuery {
    /// Rows to return: 50 unless given, within 1..=250.
    pub fn row_limit(&self) -> (n: i64)
        ensures
            n == clamped_limit(self.limit, 50, 250),
    {
        history_limit(self.limit)
    }
}

impl CandleQuery {
    /// Candles to return: 200 unless given, within 1..=1000.
    pub fn row_limit(&self) -> (n: i64)
        ensures
            n == clamped_limit(self.limit, 200, 1000),
    {
        candle_limit(self.limit)
    }

    /// The served interval the query asks for, if it is one.
    pub fn served_interval(&self) -> (r: Option<String>)
        ensures
            match r {
                Some(s) => candle_interval_of(
                    match self.interval {
                        Some(q) => Some(q@),
                        None => None,
                    },
                ) == Some(s@),
                None => candle_interval_of(
                    match self.interval {
                        Some(q) => Some(q@),
                        None => None,
                    },
                ) is None,
            },
    {
        match &self.interval {
            Some(q) => candle_interval(Some(q.as_str())),
            None => candle_interval(None),
        }
    }
}

} // verus!
