use boldtrace::streams::{exchange_info_url, funding_history_url, instruments_url, open_interest_url};
use boldtrace::messages::{KlineEvent, KlinePayload};
use boldtrace::config::ExchangeClientConfig;
use boldtrace::discovery::{
    bybit_perpetual_symbols, instruments_page_step, perpetual_symbols, Instrument, PageStep, SymbolInfo,
};
use boldtrace::config::ExchangeProvider;
use boldtrace::lexical::{dedup_strings, lex_less, sort_strings};
use boldtrace::streams::{connection_plan, ConnectionTask};

fn info(symbol: &str, status: &str, contract: &str, quote: &str) -> SymbolInfo {
    SymbolInfo {
        symbol: symbol.to_string(),
        status: status.to_string(),
        contract_type: contract.to_string(),
        quote_asset: quote.to_string(),
    }
}

fn instrument(symbol: &str, status: &str, contract: &str, quote: &str) -> Instrument {
    Instrument {
        symbol: symbol.to_string(),
        contract_type: contract.to_string(),
        status: status.to_string(),
        quote_coin: quote.to_string(),
    }
}

fn strings(items: &[&str]) -> Vec<String> {
    items.iter().map(|s| s.to_string()).collect()
}

#[test]
fn lexicographic_order_matches_string_order() {
    let pairs = [("A", "B"), ("AB", "A"), ("", "A"), ("BTC", "BTCUSDT"), ("ÉA", "EZ"), ("ZZ", "ZZ")];
    for (a, b) in pairs {
        let x: Vec<char> = a.chars().collect();
        let y: Vec<char> = b.chars().collect();
        assert_eq!(lex_less(&x, &y), a < b, "{a} < {b}");
    }
}

#[test]
fn sorting_matches_std_sort() {
    let input = strings(&["SOLUSDT", "BTCUSDT", "ETHUSDT", "BTCUSDT", "1000PEPEUSDT", "AAVEUSDT"]);
    let mut expected = input.clone();
    expected.sort();
    assert_eq!(sort_strings(&input), expected);
    assert!(sort_strings(&vec![]).is_empty());
}

#[test]
fn dedup_drops_neighbouring_repeats_only() {
    let input = strings(&["A", "A", "B", "A", "C", "C"]);
    assert_eq!(dedup_strings(&input), strings(&["A", "B", "A", "C"]));
}

#[test]
fn binance_discovery_keeps_trading_usdt_perpetuals_sorted() {
    let listing = vec![
        info("SOLUSDT", "TRADING", "PERPETUAL", "USDT"),
        info("BTCUSDT", "TRADING", "PERPETUAL", "USDT"),
        info("ETHBUSD", "TRADING", "PERPETUAL", "BUSD"),
        info("XRPUSDT", "BREAK", "PERPETUAL", "USDT"),
        info("BTCUSDT_240628", "TRADING", "CURRENT_QUARTER", "USDT"),
        info("ADAUSDT", "TRADING", "PERPETUAL", "USDT"),
    ];
    assert_eq!(perpetual_symbols(&listing), strings(&["ADAUSDT", "BTCUSDT", "SOLUSDT"]));
}

#[test]
fn bybit_discovery_sorts_and_dedups_across_pages() {
    let pages = vec![
        instrument("ETHUSDT", "Trading", "LinearPerpetual", "USDT"),
        instrument("BTCUSDT", "Trading", "LinearPerpetual", "USDT"),
        instrument("BTCPERP", "Trading", "LinearPerpetual", "USDC"),
        instrument("ETHUSDT", "Trading", "LinearPerpetual", "USDT"),
        instrument("DOGEUSDT", "Settling", "LinearPerpetual", "USDT"),
        instrument("BTC-27JUN", "Trading", "LinearFutures", "USDT"),
    ];
    assert_eq!(bybit_perpetual_symbols(&pages), strings(&["BTCUSDT", "ETHUSDT"]));
}

#[test]
fn instruments_paging_steps() {
    assert!(matches!(instruments_page_step(0, ""), PageStep::Finished));
    assert!(matches!(instruments_page_step(0, "abc"), PageStep::Next(c) if c == "abc"));
    assert!(
        matches!(instruments_page_step(10001, "abc"), PageStep::Failed(m) if m == "Bybit instruments response retCode=10001")
    );
    assert!(matches!(instruments_page_step(-1, ""), PageStep::Failed(m) if m == "Bybit instruments response retCode=-1"));
}

#[test]
fn binance_plan_splits_candles_and_futures_and_polls_open_interest() {
    let symbols: Vec<String> = (0..123).map(|i| format!("SYM{i}")).collect();
    let config = ExchangeClientConfig::new(symbols.clone(), "redis://127.0.0.1:6379");
    let plan = connection_plan(&config);
    assert_eq!(plan.len(), 5);
    assert!(matches!(&plan[0], ConnectionTask::Candles(c) if c.len() == 80 && c[0] == "SYM0"));
    assert!(matches!(&plan[1], ConnectionTask::Candles(c) if c.len() == 43 && c[0] == "SYM80"));
    assert!(matches!(&plan[2], ConnectionTask::Futures(c) if c.len() == 80));
    assert!(matches!(&plan[3], ConnectionTask::Futures(c) if c.len() == 43));
    assert!(matches!(&plan[4], ConnectionTask::OpenInterest(c) if *c == symbols));
}

#[test]
fn bybit_plan_uses_fifty_symbol_connections() {
    let symbols: Vec<String> = (0..101).map(|i| format!("S{i}")).collect();
    let mut config = ExchangeClientConfig::new(symbols, "redis://127.0.0.1:6379");
    config.provider = ExchangeProvider::Bybit;
    let plan = connection_plan(&config);
    assert_eq!(plan.len(), 3);
    let sizes: Vec<usize> = plan
        .iter()
        .map(|task| match task {
            ConnectionTask::Bybit(c) => c.len(),
            _ => 0,
        })
        .collect();
    assert_eq!(sizes, vec![50, 50, 1]);
}

#[test]
fn empty_universe_still_polls_open_interest() {
    let config = ExchangeClientConfig::new(vec![], "redis://127.0.0.1:6379");
    let plan = connection_plan(&config);
    assert_eq!(plan.len(), 1);
    assert!(matches!(&plan[0], ConnectionTask::OpenInterest(c) if c.is_empty()));
}

#[test]
fn forming_klines_are_not_closed() {
    let mut event = KlineEvent {
        symbol: "BTCUSDT".into(),
        kline: KlinePayload {
            open_time: 0,
            close_time: 59_999,
            interval: "1m".into(),
            open: "1".into(),
            high: "2".into(),
            low: "0.5".into(),
            close: "1.5".into(),
            volume: "10".into(),
            closed: false,
        },
    };
    assert!(!event.is_closed());
    event.kline.closed = true;
    assert!(event.is_closed());
}

#[test]
fn rest_requests_name_their_endpoints() {
    assert_eq!(exchange_info_url("https://fapi.binance.com"), "https://fapi.binance.com/fapi/v1/exchangeInfo");
    assert_eq!(instruments_url("https://api.bybit.com"), "https://api.bybit.com/v5/market/instruments-info");
    assert_eq!(open_interest_url("https://x", "BTCUSDT"), "https://x/fapi/v1/openInterest?symbol=BTCUSDT");
    assert_eq!(funding_history_url("https://x", "ETHUSDT", 100), "https://x/fapi/v1/fundingRate?symbol=ETHUSDT&limit=100");
    assert_eq!(
        boldtrace::product::klines_url("BTCUSDT", "1h", 1000),
        "https://api.binance.com/api/v3/klines?symbol=BTCUSDT&interval=1h&limit=1000"
    );
}
