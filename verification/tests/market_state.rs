use boldtrace::market::BacktestSide::{Long, Short};
use boldtrace::backtest::{scan_sides, scored_range, side_counts, trade_window, SCORE_WINDOW};
use boldtrace::market::{calibration_level, classify_sources, headline, BacktestSide, ConfidenceLevel, DataSourceHealth, Decision};
use boldtrace::market_state::{
    age_since, direction_tally, frame_source_health, live_source_health, primary_interval, reference_symbol,
    RollingWindow, CANDLE_HISTORY, OPEN_INTEREST_HISTORY,
};

#[test]
fn keeps_two_oi_points() {
    let mut window: RollingWindow<f64> = RollingWindow::new(OPEN_INTEREST_HISTORY);
    for i in 0..3 {
        window.push(i, 100.0 + i as f64);
    }
    assert_eq!(window.len(), 2);
    assert_eq!(window.entries()[0].0, 1);
    assert_eq!(window.entries()[1].1, 102.0);
}

#[test]
fn forming_candle_is_replaced_not_appended() {
    let mut window: RollingWindow<&str> = RollingWindow::new(CANDLE_HISTORY);
    window.upsert(0, "first");
    window.upsert(60_000, "forming");
    window.upsert(60_000, "closed");
    assert_eq!(window.len(), 2);
    assert_eq!(window.entries()[1], (60_000, "closed"));
}

#[test]
fn candle_history_is_capped_at_sixty() {
    let mut window: RollingWindow<i64> = RollingWindow::new(CANDLE_HISTORY);
    for i in 0..100 {
        window.upsert(i * 60_000, i);
    }
    assert_eq!(window.len(), 60);
    assert_eq!(window.entries()[0].1, 40);
    assert_eq!(window.entries()[59].1, 99);
}

#[test]
fn primary_interval_prefers_one_minute() {
    let h = vec![("5m".to_string(), 40), ("1m".to_string(), 3)];
    assert_eq!(primary_interval(&h), Some("1m".to_string()));
    let h = vec![("5m".to_string(), 40), ("1m".to_string(), 0), ("15m".to_string(), 12)];
    assert_eq!(primary_interval(&h), Some("5m".to_string()));
    let h = vec![("1m".to_string(), 0), ("5m".to_string(), 0)];
    assert_eq!(primary_interval(&h), None);
    assert_eq!(primary_interval(&vec![]), None);
}

#[test]
fn ages_saturate_and_missing_sources_are_maximal() {
    assert_eq!(age_since(10_000, Some(4_000)), 6_000);
    assert_eq!(age_since(10_000, None), i64::MAX);
    assert_eq!(age_since(i64::MAX, Some(-5)), i64::MAX);
    assert_eq!(age_since(-10, Some(i64::MAX)), i64::MIN);
}

#[test]
fn live_health_reports_four_sources() {
    let sources = live_source_health(1_000_000, Some(999_000), 30, Some(990_000), None, Some(700_000), 1);
    let names: Vec<&str> = sources.iter().map(|s| s.name.as_str()).collect();
    assert_eq!(names, vec!["candles", "order_book", "funding", "open_interest"]);
    assert!(sources[0].present);
    assert_eq!(sources[0].age_ms, 1_000);
    assert_eq!(sources[1].max_age_ms, 30_000);
    assert!(!sources[2].present);
    assert_eq!(sources[2].age_ms, i64::MAX);
    assert!(!sources[3].present);
    let cold = live_source_health(1_000_000, Some(999_000), 29, None, None, None, 2);
    assert!(!cold[0].present);
    assert!(cold[3].present);
}

#[test]
fn frame_health_measures_from_the_candle_close() {
    let sources = frame_source_health(600_000, Some(590_000), Some(0), None, 0);
    assert!(sources[0].present);
    assert_eq!(sources[0].age_ms, 0);
    assert_eq!(sources[1].age_ms, 10_000);
    assert_eq!(sources[2].max_age_ms, 32_400_000);
    assert_eq!(sources[3].age_ms, i64::MAX);
    let report = classify_sources(&sources);
    assert_eq!(report.missing, vec!["open_interest".to_string()]);
    assert_eq!(report.fresh, 3);
}

#[test]
fn stale_data_reduces_quality() {
    let sources = vec![
        DataSourceHealth { name: "candle".into(), age_ms: 10, max_age_ms: 100, present: true },
        DataSourceHealth { name: "oi".into(), age_ms: 500, max_age_ms: 100, present: true },
    ];
    let report = classify_sources(&sources);
    assert_eq!(report.fresh, 1);
    assert_eq!(report.stale, vec!["oi".to_string()]);
    assert!(report.missing.is_empty());
}

#[test]
fn calibration_requires_samples() {
    assert_eq!(calibration_level(10), ConfidenceLevel::InsufficientData);
    assert_eq!(calibration_level(30), ConfidenceLevel::Low);
    assert_eq!(calibration_level(1000), ConfidenceLevel::VeryHigh);
}

#[test]
fn explains_no_trade_headline() {
    assert_eq!(headline(Decision::NoTrade), "No trade");
}

#[test]
fn timeframe_directions_are_tallied() {
    assert_eq!(direction_tally(&vec![1, -1, 0, 1, 1]), (3, 1));
    assert_eq!(direction_tally(&vec![]), (0, 0));
}

#[test]
fn cross_market_reference() {
    assert_eq!(reference_symbol("ETHUSDT"), "BTCUSDT");
    assert_eq!(reference_symbol("BTCUSDT"), "ETHUSDT");
}

#[test]
fn short_series_are_not_scored() {
    let (a, b) = scored_range(SCORE_WINDOW);
    assert_eq!(a, b);
    assert_eq!(scored_range(0).0, scored_range(0).1);
    assert_eq!(scored_range(60), (49, 59));
}

#[test]
fn only_side_changes_open_trades() {
    let sides = vec![None, Some(Long), Some(Long), None, Some(Long), Some(Short), Some(Short), None];
    let scan = scan_sides(&sides);
    assert_eq!(scan.signal_steps, vec![1, 4, 5]);
    assert_eq!(scan.no_trade_points, 3);
    assert!(scan_sides(&vec![]).signal_steps.is_empty());
}

#[test]
fn trade_enters_next_candle_and_exits_at_horizon() {
    let closes: Vec<i64> = (0..5).map(|i| i * 3_600_000 + 3_600_000).collect();
    assert_eq!(trade_window(&closes, 0, 2), Some((1, 2)));
    assert_eq!(trade_window(&closes, 0, 0), Some((1, 1)));
    assert_eq!(trade_window(&closes, 3, 4), None);
    assert_eq!(trade_window(&closes, 4, 1), None);
    assert_eq!(trade_window(&closes, 9, 1), None);
}

#[test]
fn long_and_short_trades_are_counted() {
    assert_eq!(side_counts(&vec![Long, Short, Long]), (2, 1));
    assert_eq!(side_counts(&vec![]), (0, 0));
}
