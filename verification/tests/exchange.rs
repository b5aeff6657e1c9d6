use boldtrace::backoff::ReconnectBackoff;
use boldtrace::config::{parse_symbols, ExchangeClientConfig, ExchangeProvider};
use boldtrace::streams::{
    bybit_interval, bybit_subscription_topics, bybit_topic_kind, bybit_topic_symbol, candle_stream_url,
    candles_channel, chunk_symbols, depth_stream_symbol, funding_channel, funding_stream_url,
    futures_stream_payload, open_interest_channel, order_book_channel, spot_stream_payload, spot_stream_url,
    BybitTopic, StreamPayload, binance_symbols_per_connection,
};

#[test]
fn doubles_up_to_cap() {
    let mut backoff = ReconnectBackoff::new(1_000, 8_000);
    assert_eq!(backoff.next_delay(), 1_000);
    assert_eq!(backoff.next_delay(), 2_000);
    assert_eq!(backoff.next_delay(), 4_000);
    assert_eq!(backoff.next_delay(), 8_000);
    assert_eq!(backoff.next_delay(), 8_000);
}

#[test]
fn reset_returns_to_initial() {
    let mut backoff = ReconnectBackoff::new(1_000, 8_000);
    backoff.next_delay();
    backoff.next_delay();
    backoff.reset();
    assert_eq!(backoff.next_delay(), 1_000);
}

#[test]
fn default_backoff_starts_at_one_second_and_caps_at_a_minute() {
    let mut backoff = ReconnectBackoff::default();
    let mut last = 0;
    for _ in 0..10 {
        last = backoff.next_delay();
    }
    assert_eq!(last, 60_000);
}

#[test]
fn initial_above_cap_falls_to_cap() {
    let mut backoff = ReconnectBackoff::new(10_000, 3_000);
    assert_eq!(backoff.next_delay(), 10_000);
    assert_eq!(backoff.next_delay(), 3_000);
}

#[test]
fn candle_stream_builds_expected_stream_url() {
    let config = ExchangeClientConfig::new(vec!["BTCUSDT".into()], "redis://127.0.0.1:6379");
    assert_eq!(candle_stream_url(&config), "wss://stream.binance.com:9443/stream?streams=btcusdt@kline_1m/btcusdt@kline_5m");
}

#[test]
fn candle_stream_builds_combined_stream_url_for_multiple_symbols() {
    let config = ExchangeClientConfig::new(vec!["BTCUSDT".into(), "ETHUSDT".into()], "redis://127.0.0.1:6379");
    assert_eq!(candle_stream_url(&config), "wss://stream.binance.com:9443/stream?streams=btcusdt@kline_1m/btcusdt@kline_5m/ethusdt@kline_1m/ethusdt@kline_5m");
}

#[test]
fn funding_stream_builds_expected_stream_url() {
    let config = ExchangeClientConfig::new(vec!["BTCUSDT".into()], "redis://127.0.0.1:6379");
    assert_eq!(funding_stream_url(&config), "wss://fstream.binance.com/stream?streams=btcusdt@markPrice@1s/btcusdt@depth20@1000ms");
}

#[test]
fn funding_stream_builds_combined_stream_url_for_multiple_symbols() {
    let config = ExchangeClientConfig::new(vec!["BTCUSDT".into(), "ETHUSDT".into()], "redis://127.0.0.1:6379");
    assert_eq!(funding_stream_url(&config), "wss://fstream.binance.com/stream?streams=btcusdt@markPrice@1s/btcusdt@depth20@1000ms/ethusdt@markPrice@1s/ethusdt@depth20@1000ms");
}

#[test]
fn spot_stream_builds_expected_stream_url() {
    let config = ExchangeClientConfig::new(vec!["BTCUSDT".into()], "redis://127.0.0.1:6379");
    let url = spot_stream_url(&config);
    assert_eq!(
        url,
        "wss://stream.binance.com:9443/stream?streams=btcusdt@kline_1m/btcusdt@kline_5m/btcusdt@depth20@1000ms"
    );
}

#[test]
fn spot_stream_builds_combined_stream_url_for_multiple_symbols() {
    let config = ExchangeClientConfig::new(vec!["BTCUSDT".into(), "ETHUSDT".into()], "redis://127.0.0.1:6379");
    let url = spot_stream_url(&config);
    assert_eq!(
        url,
        "wss://stream.binance.com:9443/stream?streams=btcusdt@kline_1m/btcusdt@kline_5m/btcusdt@depth20@1000ms/ethusdt@kline_1m/ethusdt@kline_5m/ethusdt@depth20@1000ms"
    );
}

#[test]
fn empty_symbol_list_gives_empty_stream_list() {
    let config = ExchangeClientConfig::new(vec![], "redis://127.0.0.1:6379");
    assert_eq!(candle_stream_url(&config), "wss://stream.binance.com:9443/stream?streams=");
}

#[test]
fn parses_and_dedupes_symbol_list() {
    assert_eq!(parse_symbols(" btcusdt, ETHUSDT,btcusdt , solusdt"), vec!["BTCUSDT", "ETHUSDT", "SOLUSDT"]);
}

#[test]
fn recognizes_all_sentinel_case_insensitively() {
    assert_eq!(parse_symbols("all"), vec!["ALL"]);
    assert_eq!(parse_symbols(" All "), vec!["ALL"]);
}

#[test]
fn empty_entries_are_dropped() {
    assert_eq!(parse_symbols(",, btcusdt ,,"), vec!["BTCUSDT"]);
    assert!(parse_symbols("").is_empty());
}

#[test]
fn provider_defaults_unknown_values_to_binance() {
    assert_eq!(ExchangeProvider::from_env_value("BYBIT"), ExchangeProvider::Bybit);
    assert_eq!(ExchangeProvider::from_env_value("anything"), ExchangeProvider::Binance);
}

#[test]
fn provider_names_round_trip() {
    assert_eq!(ExchangeProvider::Bybit.as_str(), "bybit");
    assert_eq!(ExchangeProvider::from_env_value(ExchangeProvider::Binance.as_str()), ExchangeProvider::Binance);
    assert_eq!(ExchangeProvider::from_env_value(" bybit\n"), ExchangeProvider::Bybit);
}

#[test]
fn config_new_uses_production_endpoints_and_with_symbols_keeps_them() {
    let config = ExchangeClientConfig::new(vec!["BTCUSDT".into()], "redis://x");
    assert_eq!(config.provider, ExchangeProvider::Binance);
    assert_eq!(config.futures_rest_base, "https://fapi.binance.com");
    assert_eq!(config.bybit_ws_base, "wss://stream.bybit.com/v5/public/linear");
    let other = config.with_symbols(vec!["ETHUSDT".into()]);
    assert_eq!(other.symbols, vec!["ETHUSDT".to_string()]);
    assert_eq!(other.redis_url, "redis://x");
    assert!(!config.needs_discovery());
    assert!(ExchangeClientConfig::new(vec!["ALL".into()], "r").needs_discovery());
}

#[test]
fn chunks_preserve_all_symbols() {
    let symbols: Vec<String> = (0..123).map(|i| format!("SYM{i}")).collect();
    let chunks = chunk_symbols(&symbols, 50);
    assert!(chunks.iter().all(|chunk| chunk.len() <= 50));
    assert_eq!(chunks.iter().map(Vec::len).sum::<usize>(), symbols.len());
}

#[test]
fn small_lists_produce_one_chunk() {
    let symbols = vec!["BTCUSDT".to_string(), "ETHUSDT".to_string()];
    assert_eq!(chunk_symbols(&symbols, 50), vec![symbols]);
}

#[test]
fn zero_chunk_size_means_one_symbol_per_chunk() {
    let symbols = vec!["A".to_string(), "B".to_string(), "C".to_string()];
    let chunks = chunk_symbols(&symbols, 0);
    assert_eq!(chunks.len(), 3);
    assert_eq!(chunks.concat(), symbols);
    assert_eq!(binance_symbols_per_connection(), 80);
}

#[test]
fn bybit_topics_follow_symbol_order() {
    let topics = bybit_subscription_topics(&vec!["BTCUSDT".to_string(), "ETHUSDT".to_string()]);
    assert_eq!(
        topics,
        vec![
            "kline.1.BTCUSDT", "kline.5.BTCUSDT", "orderbook.50.BTCUSDT", "tickers.BTCUSDT",
            "kline.1.ETHUSDT", "kline.5.ETHUSDT", "orderbook.50.ETHUSDT", "tickers.ETHUSDT",
        ]
    );
}

#[test]
fn channels_are_named_by_symbol() {
    assert_eq!(candles_channel("BTCUSDT", "1m"), "candles:BTCUSDT:1m");
    assert_eq!(order_book_channel("BTCUSDT"), "orderbook:BTCUSDT");
    assert_eq!(funding_channel("BTCUSDT"), "funding:BTCUSDT");
    assert_eq!(open_interest_channel("BTCUSDT"), "open_interest:BTCUSDT");
}

#[test]
fn routes_stream_messages() {
    assert_eq!(spot_stream_payload("btcusdt@kline_1m"), StreamPayload::Kline);
    assert_eq!(spot_stream_payload("btcusdt@depth20@1000ms"), StreamPayload::Depth);
    assert_eq!(spot_stream_payload("btcusdt@trade"), StreamPayload::Ignored);
    assert_eq!(futures_stream_payload("btcusdt@markPrice@1s"), StreamPayload::MarkPrice);
    assert_eq!(futures_stream_payload("btcusdt@depth20@1000ms"), StreamPayload::Depth);
    assert_eq!(depth_stream_symbol("btcusdt@depth20"), "BTCUSDT");
}

#[test]
fn routes_bybit_topics() {
    assert_eq!(bybit_topic_kind("kline.1.BTCUSDT"), BybitTopic::Kline);
    assert_eq!(bybit_topic_kind("orderbook.50.BTCUSDT"), BybitTopic::OrderBook);
    assert_eq!(bybit_topic_kind("tickers.BTCUSDT"), BybitTopic::Ticker);
    assert_eq!(bybit_topic_kind("trade.BTCUSDT"), BybitTopic::Other);
    assert_eq!(bybit_topic_symbol("kline.5.ETHUSDT"), "ETHUSDT");
    assert_eq!(bybit_interval("1"), "1m");
    assert_eq!(bybit_interval("5"), "5m");
    assert_eq!(bybit_interval("60"), "60");
}

#[test]
fn delays_follow_the_closed_form() {
    let mut backoff = ReconnectBackoff::new(300, 5_000);
    let expected = [300, 600, 1_200, 2_400, 4_800, 5_000, 5_000];
    for delay in expected {
        assert_eq!(backoff.next_delay(), delay);
    }
    let mut high = ReconnectBackoff::new(9_000, 5_000);
    assert_eq!(high.next_delay(), 9_000);
    assert_eq!(high.next_delay(), 5_000);
}
