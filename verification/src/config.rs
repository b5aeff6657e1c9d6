//! Runtime configuration for the exchange data client: provider choice,
//! endpoint bases and the symbol universe.

use vstd::prelude::*;
use vstd::string::*;
use crate::text::{
    ascii_lower, ascii_lowercase, chars_eq, chars_eq_ignore_ascii_case, chars_of, eq_ignore_ascii_case,
    split_chars, split_on, str_eq, string_from, string_of, to_uppercase, trim_chars, trimmed,
    uppercase_of,
};

verus! {

broadcast use vstd::string::group_string_axioms;

/// The literal that asks for every currently listed symbol.
pub open spec fn all_symbols_sentinel() -> Seq<char> {
    "ALL"@
}

/// Which exchange the client streams from.
#[derive(Debug, Clone, Copy, PartialEq, Eq, Structural)]
pub enum ExchangeProvider {
    Binance,
    Bybit,
}

/// The provider an environment value selects: `bybit` in any ASCII case,
/// surrounded by any whitespace, selects Bybit; anything else is Binance.
pub open spec fn provider_for(value: Seq<char>) -> ExchangeProvider {
    if trimmed(value).map_values(|c: char| ascii_lower(c)) == "bybit"@ {
        ExchangeProvider::Bybit
    } else {
        ExchangeProvider::Binance
    }
}

/// The lowercase name of a provider.
pub open spec fn provider_name(p: ExchangeProvider) -> Seq<char> {
    match p {
        ExchangeProvider::Binance => "binance"@,
        ExchangeProvider::Bybit => "bybit"@,
    }
}

impl ExchangeProvider {
    /// Reads a provider from a configuration value, defaulting to Binance.
    pub fn from_env_value(value: &str) -> (p: Self)
        ensures
            p == provider_for(value@),
    {
        let v = chars_of(value);
        let t = trim_chars(&v);
        let lower = ascii_lowercase(&t);
        let bybit = chars_of("bybit");
        if chars_eq(&lower, &bybit) {
            ExchangeProvider::Bybit
        } else {
            ExchangeProvider::Binance
        }
    }

    pub fn as_str(self) -> (s: &'static str)
        ensures
            s@ == provider_name(self),
    {
        match self {
            ExchangeProvider::Binance => "binance",
            ExchangeProvider::Bybit => "bybit",
        }
    }
}

/// Endpoints, provider and symbol universe of one exchange client.
#[derive(Debug)]
pub struct ExchangeClientConfig {
    pub provider: ExchangeProvider,
    pub symbols: Vec<String>,
    pub redis_url: String,
    pub spot_ws_base: String,
    pub futures_ws_base: String,
    pub futures_rest_base: String,
    pub bybit_ws_base: String,
    pub bybit_rest_base: String,
}

impl ExchangeClientConfig {
    /// A Binance configuration with the public production endpoints.
    pub fn new(symbols: Vec<String>, redis_url: &str) -> (c: Self)
        ensures
            c.provider == ExchangeProvider::Binance,
            c.symbols@ == symbols@,
            c.redis_url@ == redis_url@,
            c.spot_ws_base@ == "wss://stream.binance.com:9443/stream"@,
            c.futures_ws_base@ == "wss://fstream.binance.com/stream"@,
            c.futures_rest_base@ == "https://fapi.binance.com"@,
            c.bybit_ws_base@ == "wss://stream.bybit.com/v5/public/linear"@,
            c.bybit_rest_base@ == "https://api.bybit.com"@,
    {
        ExchangeClientConfig {
            provider: ExchangeProvider::Binance,
            symbols,
            redis_url: string_from(redis_url),
            spot_ws_base: string_from("wss://stream.binance.com:9443/stream"),
            futures_ws_base: string_from("wss://fstream.binance.com/stream"),
            futures_rest_base: string_from("https://fapi.binance.com"),
            bybit_ws_base: string_from("wss://stream.bybit.com/v5/public/linear"),
            bybit_rest_base: string_from("https://api.bybit.com"),
        }
    }

    /// The same configuration restricted to `symbols`.
    pub fn with_symbols(&self, symbols: Vec<String>) -> (c: Self)
        ensures
            c.provider == self.provider,
            c.symbols@ == symbols@,
            c.redis_url@ == self.redis_url@,
            c.spot_ws_base@ == self.spot_ws_base@,
            c.futures_ws_base@ == self.futures_ws_base@,
            c.futures_rest_base@ == self.futures_rest_base@,
            c.bybit_ws_base@ == self.bybit_ws_base@,
            c.bybit_rest_base@ == self.bybit_rest_base@,
    {
        ExchangeClientConfig {
            provider: self.provider,
            symbols,
            redis_url: self.redis_url.clone(),
            spot_ws_base: self.spot_ws_base.clone(),
            futures_ws_base: self.futures_ws_base.clone(),
            futures_rest_base: self.futures_rest_base.clone(),
            bybit_ws_base: self.bybit_ws_base.clone(),
            bybit_rest_base: self.bybit_rest_base.clone(),
        }
    }

    /// Whether the symbol list is the `ALL` sentinel, so the universe must
    /// be discovered from the exchange before streaming.
    pub fn needs_discovery(&self) -> (r: bool)
        ensures
            r == (self.symbols.deep_view() == seq![all_symbols_sentinel()]),
    {
        if self.symbols.len() != 1 {
            proof {
                if self.symbols.deep_view() == seq![all_symbols_sentinel()] {
                    assert(self.symbols.deep_view().len() == 1);
                }
            }
            return false;
        }
        let r = str_eq(self.symbols[0].as_str(), "ALL");
        proof {
            if self.symbols.deep_view() == seq![all_symbols_sentinel()] {
                assert(self.symbols.deep_view()[0] == self.symbols@[0]@);
            }
            if r {
                assert(self.symbols.deep_view() =~= seq![all_symbols_sentinel()]);
            }
        }
        r
    }
}

/// Keeps the first occurrence of every non-empty entry, in order.
pub open spec fn distinct_nonempty(s: Seq<Seq<char>>) -> Seq<Seq<char>>
    decreases s.len(),
{
    if s.len() == 0 {
        Seq::empty()
    } else {
        let kept = distinct_nonempty(s.drop_last());
        if s.last().len() == 0 || kept.contains(s.last()) {
            kept
        } else {
            kept.push(s.last())
        }
    }
}

/// The normalized symbol a raw list entry names.
pub open spec fn normalized_symbol(entry: Seq<char>) -> Seq<char> {
    uppercase_of(trimmed(entry))
}

/// The symbol list a comma-separated configuration value describes: the
/// `ALL` sentinel when the whole value is `all` in any ASCII case, else the
/// trimmed, uppercased, non-empty entries without repeats.
pub open spec fn parsed_symbols(raw: Seq<char>) -> Seq<Seq<char>> {
    if eq_ignore_ascii_case(trimmed(raw), all_symbols_sentinel()) {
        seq![all_symbols_sentinel()]
    } else {
        distinct_nonempty(split_on(raw, ',').map_values(|p: Seq<char>| normalized_symbol(p)))
    }
}

proof fn lemma_distinct_nonempty(s: Seq<Seq<char>>)
    ensures
        forall|i: int, j: int|
            0 <= i < j < distinct_nonempty(s).len() ==> #[trigger] distinct_nonempty(s)[i] != #[trigger] distinct_nonempty(s)[j],
        forall|i: int| 0 <= i < distinct_nonempty(s).len() ==> #[trigger] distinct_nonempty(s)[i].len() > 0,
        forall|x: Seq<char>| #[trigger] distinct_nonempty(s).contains(x) ==> s.contains(x),
        forall|x: Seq<char>| #[trigger] s.contains(x) && x.len() > 0 ==> distinct_nonempty(s).contains(x),
    decreases s.len(),
{
    if s.len() > 0 {
        let init = s.drop_last();
        lemma_distinct_nonempty(init);
        let kept = distinct_nonempty(init);
        assert forall|x: Seq<char>| #[trigger] s.contains(x) && x.len() > 0 implies distinct_nonempty(s).contains(x) by {
            let m = choose|m: int| 0 <= m < s.len() && s[m] == x;
            if m < init.len() {
                assert(init[m] == x);
                assert(init.contains(x));
                assert(kept.contains(x));
                let q = choose|q: int| 0 <= q < kept.len() && kept[q] == x;
                assert(distinct_nonempty(s)[q] == x);
            } else if !kept.contains(x) {
                assert(distinct_nonempty(s)[kept.len() as int] == x);
            }
        }
        assert forall|x: Seq<char>| #[trigger] distinct_nonempty(s).contains(x) implies s.contains(x) by {
            let m = choose|m: int| 0 <= m < distinct_nonempty(s).len() && distinct_nonempty(s)[m] == x;
            if m < kept.len() {
                assert(kept.contains(x));
                let k = choose|k: int| 0 <= k < init.len() && init[k] == x;
                assert(s[k] == x);
            } else {
                assert(s[s.len() - 1] == x);
            }
        }
    }
}

/// A parsed symbol list never names a symbol twice and holds no empty
/// entry.
pub proof fn parsed_symbols_are_distinct(raw: Seq<char>)
    ensures
        forall|i: int, j: int|
            0 <= i < j < parsed_symbols(raw).len() ==> #[trigger] parsed_symbols(raw)[i] != #[trigger] parsed_symbols(raw)[j],
        forall|i: int| 0 <= i < parsed_symbols(raw).len() ==> #[trigger] parsed_symbols(raw)[i].len() > 0,
{
    reveal_strlit("ALL");
    lemma_distinct_nonempty(split_on(raw, ',').map_values(|p: Seq<char>| normalized_symbol(p)));
}

/// Parsing loses no symbol: unless the value is the `ALL` sentinel, every
/// entry of the comma-separated value that is non-empty once trimmed and
/// uppercased is in the parsed list.
pub proof fn parsed_symbols_are_complete(raw: Seq<char>, k: int)
    requires
        !eq_ignore_ascii_case(trimmed(raw), all_symbols_sentinel()),
        0 <= k < split_on(raw, ',').len(),
        normalized_symbol(split_on(raw, ',')[k]).len() > 0,
    ensures
        parsed_symbols(raw).contains(normalized_symbol(split_on(raw, ',')[k])),
{
    let normalized = split_on(raw, ',').map_values(|p: Seq<char>| normalized_symbol(p));
    lemma_distinct_nonempty(normalized);
    assert(normalized[k] == normalized_symbol(split_on(raw, ',')[k]));
    assert(normalized.contains(normalized[k]));
}

/// Parsing adds no symbol: unless the value is the `ALL` sentinel, every
/// parsed symbol is some entry of the value, trimmed and uppercased.
pub proof fn parsed_symbols_come_from_entries(raw: Seq<char>, x: Seq<char>)
    requires
        !eq_ignore_ascii_case(trimmed(raw), all_symbols_sentinel()),
        parsed_symbols(raw).contains(x),
    ensures
        exists|k: int| 0 <= k < split_on(raw, ',').len() && normalized_symbol(#[trigger] split_on(raw, ',')[k]) == x,
{
    let normalized = split_on(raw, ',').map_values(|p: Seq<char>| normalized_symbol(p));
    lemma_distinct_nonempty(normalized);
    assert(normalized.contains(x));
    let k = choose|k: int| 0 <= k < normalized.len() && normalized[k] == x;
    assert(normalized_symbol(split_on(raw, ',')[k]) == x);
}

fn contains_string(list: &Vec<String>, s: &String) -> (r: bool)
    ensures
        r == list.deep_view().contains(s@),
{
    let mut i: usize = 0;
    while i < list.len()
        invariant
            i <= list.len(),
            forall|k: int| 0 <= k < i ==> list@[k]@ != s@,
        decreases list.len() - i,
    {
        if list[i] == *s {
            assert(list.deep_view()[i as int] == s@);
            return true;
        }
        i += 1;
    }
    proof {
        if list.deep_view().contains(s@) {
            let k = choose|k: int| 0 <= k < list.deep_view().len() && list.deep_view()[k] == s@;
            assert(list@[k]@ == s@);
        }
    }
    false
}

/// Parses a comma-separated symbol list, or the `ALL` sentinel.
pub fn parse_symbols(raw: &str) -> (symbols: Vec<String>)
    ensures
        symbols.deep_view() == parsed_symbols(raw@),
{
    let chars = chars_of(raw);
    let t = trim_chars(&chars);
    if chars_eq_ignore_ascii_case(&t, "ALL") {
        let mut one: Vec<String> = Vec::new();
        one.push(string_from("ALL"));
        assert(one.deep_view() =~= seq![all_symbols_sentinel()]);
        return one;
    }
    let parts = split_chars(&chars, ',');
    let ghost normalized = split_on(raw@, ',').map_values(|p: Seq<char>| normalized_symbol(p));
    let mut out: Vec<String> = Vec::new();
    let mut i: usize = 0;
    while i < parts.len()
        invariant
            chars@ == raw@,
            i <= parts.len() == split_on(raw@, ',').len(),
            forall|k: int| 0 <= k < parts.len() ==> #[trigger] parts[k]@ == split_on(raw@, ',')[k],
            normalized == split_on(raw@, ',').map_values(|p: Seq<char>| normalized_symbol(p)),
            out.deep_view() == distinct_nonempty(normalized.take(i as int)),
        decreases parts.len() - i,
    {
        let piece = trim_chars(&parts[i]);
        let piece_string = string_of(&piece);
        let upper = to_uppercase(piece_string.as_str());
        assert(upper@ == normalized[i as int]);
        assert(normalized.take(i + 1).drop_last() =~= normalized.take(i as int));
        if !upper.as_str().is_empty() && !contains_string(&out, &upper) {
            out.push(upper);
            assert(out.deep_view() =~= distinct_nonempty(normalized.take(i as int)).push(normalized[i as int]));
        }
        i += 1;
    }
    assert(normalized.take(parts.len() as int) =~= normalized);
    out
}

} // verus!
