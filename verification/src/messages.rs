//! Binance WebSocket and REST payloads as they arrive, before their decimal
//! fields are read as numbers.

use vstd::prelude::*;

verus! {

/// A message of a combined stream (`/stream?streams=a/b/c`): the stream it
/// came on and its payload.
#[derive(Debug)]
pub struct CombinedStreamEnvelope<T> {
    pub stream: String,
    pub data: T,
}

/// A kline event of one symbol.
#[derive(Debug)]
pub struct KlineEvent {
    pub symbol: String,
    pub kline: KlinePayload,
}

/// One kline: its times, interval, decimal prices and volume, and whether
/// the candle has closed.
#[derive(Debug)]
pub struct KlinePayload {
    pub open_time: i64,
    pub close_time: i64,
    pub interval: String,
    pub open: String,
    pub high: String,
    pub low: String,
    pub close: String,
    pub volume: String,
    pub closed: bool,
}

impl KlineEvent {
    /// Whether the kline is final; forming candles are not published.
    pub fn is_closed(&self) -> (r: bool)
        ensures
            r == self.kline.closed,
    {
        self.kline.closed
    }
}

/// A partial book depth payload: `[price, quantity]` pairs per side. It
/// carries neither the symbol nor a timestamp.
#[derive(Debug)]
pub struct DepthPayload {
    pub bids: Vec<[String; 2]>,
    pub asks: Vec<[String; 2]>,
}

/// A futures mark-price event, which carries the current funding rate.
#[derive(Debug)]
pub struct MarkPriceEvent {
    pub event_time: i64,
    pub symbol: String,
    pub funding_rate: String,
}

/// One entry of the funding-rate history.
#[derive(Debug)]
pub struct FundingRateHistoryEntry {
    pub symbol: String,
    pub funding_time: i64,
    pub funding_rate: String,
}

} // verus!
