//! Choosing the USDT-margined perpetual futures to stream from an exchange's
//! instrument listing.

use vstd::prelude::*;
use crate::lexical::{deduped, dedup_strings, sort_strings, sorted_seq};
use crate::text::{concat, decimal, i64_to_decimal, str_eq, string_from};

verus! {

broadcast use vstd::string::group_string_axioms;

/// One entry of Binance's futures exchange-info listing, as far as the
/// selection reads it.
#[derive(Debug, Clone)]
pub struct SymbolInfo {
    pub symbol: String,
    pub status: String,
    pub contract_type: String,
    pub quote_asset: String,
}

/// A Binance listing entry that is trading, perpetual and quoted in USDT.
pub open spec fn is_listed_perpetual(info: SymbolInfo) -> bool {
    &&& info.status@ == "TRADING"@
    &&& info.contract_type@ == "PERPETUAL"@
    &&& info.quote_asset@ == "USDT"@
}

/// The symbols of the qualifying Binance entries, in listing order.
pub open spec fn listed_perpetuals(infos: Seq<SymbolInfo>) -> Seq<Seq<char>>
    decreases infos.len(),
{
    if infos.len() == 0 {
        Seq::empty()
    } else {
        let kept = listed_perpetuals(infos.drop_last());
        if is_listed_perpetual(infos.last()) {
            kept.push(infos.last().symbol@)
        } else {
            kept
        }
    }
}

/// The currently trading USDT-margined perpetuals of a Binance listing,
/// sorted.
pub fn perpetual_symbols(infos: &Vec<SymbolInfo>) -> (symbols: Vec<String>)
    ensures
        symbols.deep_view() == sorted_seq(listed_perpetuals(infos@)),
{
    let mut picked: Vec<String> = Vec::new();
    let mut i: usize = 0;
    while i < infos.len()
        invariant
            i <= infos.len(),
            picked.deep_view() == listed_perpetuals(infos@.take(i as int)),
        decreases infos.len() - i,
    {
        let info = &infos[i];
        assert(infos@.take(i + 1).drop_last() =~= infos@.take(i as int));
        assert(infos@.take(i + 1).last() == infos@[i as int]);
        if str_eq(info.status.as_str(), "TRADING") && str_eq(info.contract_type.as_str(), "PERPETUAL")
            && str_eq(info.quote_asset.as_str(), "USDT") {
            let s = info.symbol.clone();
            picked.push(s);
            assert(picked.deep_view() =~= listed_perpetuals(infos@.take(i as int)).push(
                infos@[i as int].symbol@,
            ));
        }
        i += 1;
    }
    assert(infos@.take(infos.len() as int) =~= infos@);
    sort_strings(&picked)
}

/// One entry of Bybit's linear instruments listing, as far as the
/// selection reads it.
#[derive(Debug, Clone)]
pub struct Instrument {
    pub symbol: String,
    pub contract_type: String,
    pub status: String,
    pub quote_coin: String,
}

/// A Bybit instrument that is trading, a linear perpetual and quoted in
/// USDT.
pub open spec fn is_trading_linear_perpetual(instrument: Instrument) -> bool {
    &&& instrument.status@ == "Trading"@
    &&& instrument.contract_type@ == "LinearPerpetual"@
    &&& instrument.quote_coin@ == "USDT"@
}

/// The symbols of the qualifying Bybit instruments, in listing order.
pub open spec fn trading_linear_perpetuals(list: Seq<Instrument>) -> Seq<Seq<char>>
    decreases list.len(),
{
    if list.len() == 0 {
        Seq::empty()
    } else {
        let kept = trading_linear_perpetuals(list.drop_last());
        if is_trading_linear_perpetual(list.last()) {
            kept.push(list.last().symbol@)
        } else {
            kept
        }
    }
}

/// The trading USDT linear perpetuals of every fetched Bybit page, sorted
/// and without repeats.
pub fn bybit_perpetual_symbols(instruments: &Vec<Instrument>) -> (symbols: Vec<String>)
    ensures
        symbols.deep_view() == deduped(sorted_seq(trading_linear_perpetuals(instruments@))),
{
    let mut picked: Vec<String> = Vec::new();
    let mut i: usize = 0;
    while i < instruments.len()
        invariant
            i <= instruments.len(),
            picked.deep_view() == trading_linear_perpetuals(instruments@.take(i as int)),
        decreases instruments.len() - i,
    {
        let instrument = &instruments[i];
        assert(instruments@.take(i + 1).drop_last() =~= instruments@.take(i as int));
        assert(instruments@.take(i + 1).last() == instruments@[i as int]);
        if str_eq(instrument.status.as_str(), "Trading") && str_eq(
            instrument.contract_type.as_str(),
            "LinearPerpetual",
        ) && str_eq(instrument.quote_coin.as_str(), "USDT") {
            let s = instrument.symbol.clone();
            picked.push(s);
            assert(picked.deep_view() =~= trading_linear_perpetuals(instruments@.take(i as int)).push(
                instruments@[i as int].symbol@,
            ));
        }
        i += 1;
    }
    assert(instruments@.take(instruments.len() as int) =~= instruments@);
    let sorted = sort_strings(&picked);
    dedup_strings(&sorted)
}

/// What to do after one page of Bybit's paged instruments listing.
#[derive(Debug)]
pub enum PageStep {
    /// Ask for the page at this cursor.
    Next(String),
    /// The listing is complete.
    Finished,
    /// The exchange reported a failure; the message says which code.
    Failed(String),
}

/// The message for a listing page that carries a non-zero return code.
pub open spec fn failed_page_message(ret_code: i64) -> Seq<char> {
    "Bybit instruments response retCode="@ + decimal(ret_code as int)
}

/// Decides the next step from a page's return code and its next-page
/// cursor: a non-zero code fails, an empty cursor ends the listing.
pub fn instruments_page_step(ret_code: i64, next_page_cursor: &str) -> (step: PageStep)
    ensures
        ret_code != 0 ==> (step matches PageStep::Failed(m) && m@ == failed_page_message(ret_code)),
        ret_code == 0 && next_page_cursor@.len() == 0 ==> step is Finished,
        ret_code == 0 && next_page_cursor@.len() > 0 ==> (step matches PageStep::Next(c) && c@
            == next_page_cursor@),
{
    if ret_code != 0 {
        let code = i64_to_decimal(ret_code);
        return PageStep::Failed(concat("Bybit instruments response retCode=", code.as_str()));
    }
    if next_page_cursor.is_empty() {
        PageStep::Finished
    } else {
        PageStep::Next(string_from(next_page_cursor))
    }
}

} // verus!
