//! Stream subscriptions, connection partitioning and channel naming for the
//! exchange data client.

use vstd::prelude::*;
use vstd::string::*;
use crate::config::{ExchangeClientConfig, ExchangeProvider};
use crate::text::{
    decimal, i64_to_decimal, chars_of, contains, contains_seq, first_field, first_field_chars, has_prefix, split_chars,
    split_on, starts_with, str_eq, string_from, string_of, to_lowercase, to_uppercase,
    lowercase_of, uppercase_of, lemma_split_nonempty,
};

verus! {

broadcast use vstd::string::group_string_axioms;

/// `parts` separated by `sep`, as `[T]::join` produces.
pub open spec fn join(parts: Seq<Seq<char>>, sep: Seq<char>) -> Seq<char>
    decreases parts.len(),
{
    if parts.len() == 0 {
        Seq::empty()
    } else if parts.len() == 1 {
        parts[0]
    } else {
        join(parts.drop_last(), sep) + sep + parts.last()
    }
}

/// The stream names of one symbol: its lowercase form followed by each
/// suffix, separated by `/`.
pub open spec fn symbol_streams(symbol: Seq<char>, suffixes: Seq<Seq<char>>) -> Seq<char> {
    join(suffixes.map_values(|x: Seq<char>| lowercase_of(symbol) + x), "/"@)
}

/// A combined-stream URL subscribing every symbol to every suffix.
pub open spec fn combined_stream_url(
    base: Seq<char>,
    symbols: Seq<Seq<char>>,
    suffixes: Seq<Seq<char>>,
) -> Seq<char> {
    base + "?streams="@ + join(symbols.map_values(|s: Seq<char>| symbol_streams(s, suffixes)), "/"@)
}

/// `parts` separated by `sep`.
pub fn join_into(parts: &Vec<String>, sep: &str) -> (s: String)
    ensures
        s@ == join(parts.deep_view(), sep@),
{
    let mut s = String::new();
    let mut i: usize = 0;
    while i < parts.len()
        invariant
            i <= parts.len(),
            s@ == join(parts.deep_view().take(i as int), sep@),
        decreases parts.len() - i,
    {
        let ghost prefix = parts.deep_view().take(i as int);
        if i > 0 {
            s.append(sep);
        }
        s.append(parts[i].as_str());
        proof {
            let next = parts.deep_view().take(i + 1);
            assert(next.drop_last() =~= prefix);
            assert(next.last() == parts@[i as int]@);
            if i == 0 {
                assert(s@ =~= next[0]);
            }
        }
        i += 1;
    }
    assert(parts.deep_view().take(parts.len() as int) =~= parts.deep_view());
    s
}

/// The `/`-separated stream names of one symbol.
fn symbol_streams_exec(symbol: &String, suffixes: &[&str]) -> (s: String)
    ensures
        s@ == symbol_streams(symbol@, suffixes@.map_values(|x: &str| x@)),
{
    let lower = to_lowercase(symbol.as_str());
    let mut names: Vec<String> = Vec::new();
    let mut i: usize = 0;
    while i < suffixes.len()
        invariant
            i <= suffixes@.len(),
            lower@ == lowercase_of(symbol@),
            names.deep_view() == suffixes@.take(i as int).map_values(
                |x: &str| lowercase_of(symbol@) + x@,
            ),
        decreases suffixes@.len() - i,
    {
        let ghost before = names.deep_view();
        let mut name = lower.clone();
        name.append(suffixes[i]);
        names.push(name);
        assert(names.deep_view() =~= before.push(lowercase_of(symbol@) + suffixes@[i as int]@));
        assert(names.deep_view() =~= suffixes@.take(i + 1).map_values(
            |x: &str| lowercase_of(symbol@) + x@,
        ));
        i += 1;
    }
    assert(suffixes@.take(suffixes@.len() as int) =~= suffixes@);
    assert(names.deep_view() =~= suffixes@.map_values(|x: &str| x@).map_values(
        |x: Seq<char>| lowercase_of(symbol@) + x,
    ));
    join_into(&names, "/")
}

/// A combined-stream URL for `symbols` on `base`, one stream per suffix.
pub fn combined_url(base: &str, symbols: &Vec<String>, suffixes: &[&str]) -> (url: String)
    ensures
        url@ == combined_stream_url(base@, symbols.deep_view(), suffixes@.map_values(|x: &str| x@)),
{
    let ghost sfx = suffixes@.map_values(|x: &str| x@);
    let mut groups: Vec<String> = Vec::new();
    let mut i: usize = 0;
    while i < symbols.len()
        invariant
            i <= symbols.len(),
            sfx == suffixes@.map_values(|x: &str| x@),
            groups.deep_view() == symbols.deep_view().take(i as int).map_values(
                |s: Seq<char>| symbol_streams(s, sfx),
            ),
        decreases symbols.len() - i,
    {
        let ghost before = groups.deep_view();
        let g = symbol_streams_exec(&symbols[i], suffixes);
        groups.push(g);
        assert(symbols.deep_view()[i as int] == symbols@[i as int]@);
        assert(groups.deep_view() =~= before.push(symbol_streams(symbols.deep_view()[i as int], sfx)));
        assert(groups.deep_view() =~= symbols.deep_view().take(i + 1).map_values(
            |s: Seq<char>| symbol_streams(s, sfx),
        ));
        i += 1;
    }
    assert(symbols.deep_view().take(symbols.len() as int) =~= symbols.deep_view());
    let joined = join_into(&groups, "/");
    let mut url = string_from(base);
    url.append("?streams=");
    url.append(joined.as_str());
    url
}

/// Closed 1m and 5m klines of every symbol on the spot venue.
pub fn candle_stream_url(config: &ExchangeClientConfig) -> (url: String)
    ensures
        url@ == combined_stream_url(
            config.spot_ws_base@,
            config.symbols.deep_view(),
            seq!["@kline_1m"@, "@kline_5m"@],
        ),
{
    let suffixes = ["@kline_1m", "@kline_5m"];
    assert(suffixes@.map_values(|x: &str| x@) =~= seq!["@kline_1m"@, "@kline_5m"@]);
    combined_url(config.spot_ws_base.as_str(), &config.symbols, &suffixes)
}

/// Mark price (funding) and depth of every symbol on the futures venue.
pub fn funding_stream_url(config: &ExchangeClientConfig) -> (url: String)
    ensures
        url@ == combined_stream_url(
            config.futures_ws_base@,
            config.symbols.deep_view(),
            seq!["@markPrice@1s"@, "@depth20@1000ms"@],
        ),
{
    let suffixes = ["@markPrice@1s", "@depth20@1000ms"];
    assert(suffixes@.map_values(|x: &str| x@) =~= seq!["@markPrice@1s"@, "@depth20@1000ms"@]);
    combined_url(config.futures_ws_base.as_str(), &config.symbols, &suffixes)
}

/// Klines and depth of every symbol on the spot venue.
pub fn spot_stream_url(config: &ExchangeClientConfig) -> (url: String)
    ensures
        url@ == combined_stream_url(
            config.spot_ws_base@,
            config.symbols.deep_view(),
            seq!["@kline_1m"@, "@kline_5m"@, "@depth20@1000ms"@],
        ),
{
    let suffixes = ["@kline_1m", "@kline_5m", "@depth20@1000ms"];
    assert(suffixes@.map_values(|x: &str| x@) =~= seq!["@kline_1m"@, "@kline_5m"@, "@depth20@1000ms"@]);
    combined_url(config.spot_ws_base.as_str(), &config.symbols, &suffixes)
}

/// Largest number of streams Binance accepts on one combined connection
/// before the request line grows too long.
pub const MAX_BINANCE_STREAMS_PER_CONNECTION: usize = 160;

/// Largest number of symbols subscribed on one Bybit connection.
pub const MAX_BYBIT_SYMBOLS_PER_CONNECTION: usize = 50;

/// Symbols per Binance connection, two streams per symbol.
pub fn binance_symbols_per_connection() -> (n: usize)
    ensures
        n == MAX_BINANCE_STREAMS_PER_CONNECTION / 2,
        n >= 1,
{
    let half = MAX_BINANCE_STREAMS_PER_CONNECTION / 2;
    if half < 1 { 1 } else { half }
}

/// `s` cut into consecutive pieces of `size` entries, the last one possibly
/// shorter, as `slice::chunks` yields them.
pub open spec fn chunked(s: Seq<Seq<char>>, size: nat) -> Seq<Seq<Seq<char>>>
    recommends
        size >= 1,
    decreases s.len(),
{
    if s.len() == 0 || size == 0 {
        Seq::empty()
    } else if s.len() <= size {
        seq![s]
    } else {
        seq![s.take(size as int)] + chunked(s.skip(size as int), size)
    }
}

/// The concatenation of all pieces.
pub open spec fn flatten(parts: Seq<Seq<Seq<char>>>) -> Seq<Seq<char>>
    decreases parts.len(),
{
    if parts.len() == 0 {
        Seq::empty()
    } else {
        parts[0] + flatten(parts.drop_first())
    }
}

/// Splits `symbols` into groups of at most `max_symbols` (at least one per
/// group), one group per connection.
pub fn chunk_symbols(symbols: &Vec<String>, max_symbols: usize) -> (chunks: Vec<Vec<String>>)
    ensures
        chunks.deep_view() == chunked(symbols.deep_view(), if max_symbols < 1 { 1 } else { max_symbols as nat }),
{
    let size: usize = if max_symbols < 1 { 1 } else { max_symbols };
    let ghost all = symbols.deep_view();
    let mut chunks: Vec<Vec<String>> = Vec::new();
    let mut start: usize = 0;
    assert(all.skip(0) =~= all);
    while start < symbols.len()
        invariant
            size >= 1,
            all == symbols.deep_view(),
            start <= symbols.len(),
            chunks.deep_view() + chunked(all.skip(start as int), size as nat) == chunked(all, size as nat),
        decreases symbols.len() - start,
    {
        let ghost rest = all.skip(start as int);
        let end: usize = if symbols.len() - start <= size { symbols.len() } else { start + size };
        let mut piece: Vec<String> = Vec::new();
        let mut k: usize = start;
        while k < end
            invariant
                start <= k <= end <= symbols.len(),
                all == symbols.deep_view(),
                piece.deep_view() == all.subrange(start as int, k as int),
            decreases end - k,
        {
            let ghost before = piece.deep_view();
            let item = symbols[k].clone();
            piece.push(item);
            assert(all[k as int] == symbols@[k as int]@);
            assert(piece.deep_view() =~= before.push(all[k as int]));
            assert(piece.deep_view() =~= all.subrange(start as int, k + 1));
            k += 1;
        }
        let ghost before = chunks.deep_view();
        chunks.push(piece);
        proof {
            assert(chunks.deep_view() =~= before.push(all.subrange(start as int, end as int)));
            if rest.len() <= size {
                assert(all.subrange(start as int, end as int) =~= rest);
                assert(all.skip(end as int).len() == 0);
                assert(chunked(all.skip(end as int), size as nat) =~= Seq::<Seq<Seq<char>>>::empty());
                assert(chunks.deep_view() + chunked(all.skip(end as int), size as nat) =~= before + chunked(rest, size as nat));
            } else {
                assert(all.subrange(start as int, end as int) =~= rest.take(size as int));
                assert(rest.skip(size as int) =~= all.skip(end as int));
                assert(chunks.deep_view() + chunked(all.skip(end as int), size as nat) =~= before + chunked(rest, size as nat));
            }
        }
        start = end;
    }
    assert(all.skip(start as int).len() == 0);
    assert(chunks.deep_view() =~= chunks.deep_view() + chunked(all.skip(start as int), size as nat));
    chunks
}

/// Splitting into connection groups loses, reorders and duplicates no
/// symbol: joining the groups back gives the original list, and every group
/// holds between one and `size` symbols.
pub proof fn chunks_preserve_symbols(s: Seq<Seq<char>>, size: nat)
    requires
        size >= 1,
    ensures
        flatten(chunked(s, size)) == s,
        forall|k: int| 0 <= k < chunked(s, size).len() ==> 1 <= #[trigger] chunked(s, size)[k].len() <= size,
    decreases s.len(),
{
    if s.len() == 0 {
    } else if s.len() <= size {
        let c = chunked(s, size);
        assert(c == seq![s]);
        assert(c.drop_first() =~= Seq::<Seq<Seq<char>>>::empty());
        assert(flatten(c.drop_first()) == Seq::<Seq<char>>::empty());
        assert(flatten(c) =~= s);
    } else {
        chunks_preserve_symbols(s.skip(size as int), size);
        let c = chunked(s, size);
        assert(c.drop_first() =~= chunked(s.skip(size as int), size));
        assert(flatten(c) =~= s.take(size as int) + s.skip(size as int));
        assert(s.take(size as int) + s.skip(size as int) =~= s);
        assert forall|k: int| 0 <= k < c.len() implies 1 <= #[trigger] c[k].len() <= size by {
            if k > 0 {
                assert(c[k] == chunked(s.skip(size as int), size)[k - 1]);
            }
        }
    }
}

/// The Bybit topics one symbol is subscribed to: closed 1m and 5m klines,
/// the 50-level order book and the ticker.
pub open spec fn bybit_symbol_topics(symbol: Seq<char>) -> Seq<Seq<char>> {
    seq![
        "kline.1."@ + symbol,
        "kline.5."@ + symbol,
        "orderbook.50."@ + symbol,
        "tickers."@ + symbol,
    ]
}

/// The topics of all symbols, in symbol order.
pub open spec fn bybit_topics(symbols: Seq<Seq<char>>) -> Seq<Seq<char>>
    decreases symbols.len(),
{
    if symbols.len() == 0 {
        Seq::empty()
    } else {
        bybit_topics(symbols.drop_last()) + bybit_symbol_topics(symbols.last())
    }
}

fn prefixed(prefix: &str, s: &String) -> (r: String)
    ensures
        r@ == prefix@ + s@,
{
    let mut r = string_from(prefix);
    r.append(s.as_str());
    r
}

/// The subscription arguments of one Bybit connection.
pub fn bybit_subscription_topics(symbols: &Vec<String>) -> (topics: Vec<String>)
    ensures
        topics.deep_view() == bybit_topics(symbols.deep_view()),
{
    let mut topics: Vec<String> = Vec::new();
    let mut i: usize = 0;
    while i < symbols.len()
        invariant
            i <= symbols.len(),
            topics.deep_view() == bybit_topics(symbols.deep_view().take(i as int)),
        decreases symbols.len() - i,
    {
        let ghost before = topics.deep_view();
        let s = &symbols[i];
        topics.push(prefixed("kline.1.", s));
        topics.push(prefixed("kline.5.", s));
        topics.push(prefixed("orderbook.50.", s));
        topics.push(prefixed("tickers.", s));
        proof {
            let next = symbols.deep_view().take(i + 1);
            assert(next.drop_last() =~= symbols.deep_view().take(i as int));
            assert(next.last() == s@);
            assert(topics.deep_view() =~= before + bybit_symbol_topics(s@));
        }
        i += 1;
    }
    assert(symbols.deep_view().take(symbols.len() as int) =~= symbols.deep_view());
    topics
}

/// Pub/sub channel of closed candles of one symbol and interval.
pub fn candles_channel(symbol: &str, interval: &str) -> (c: String)
    ensures
        c@ == "candles:"@ + symbol@ + ":"@ + interval@,
{
    let mut c = string_from("candles:");
    c.append(symbol);
    c.append(":");
    c.append(interval);
    c
}

/// Pub/sub channel of order-book snapshots of one symbol.
pub fn order_book_channel(symbol: &str) -> (c: String)
    ensures
        c@ == "orderbook:"@ + symbol@,
{
    let mut c = string_from("orderbook:");
    c.append(symbol);
    c
}

/// Pub/sub channel of funding rates of one symbol.
pub fn funding_channel(symbol: &str) -> (c: String)
    ensures
        c@ == "funding:"@ + symbol@,
{
    let mut c = string_from("funding:");
    c.append(symbol);
    c
}

/// Pub/sub channel of open-interest readings of one symbol.
pub fn open_interest_channel(symbol: &str) -> (c: String)
    ensures
        c@ == "open_interest:"@ + symbol@,
{
    let mut c = string_from("open_interest:");
    c.append(symbol);
    c
}

/// What a combined-stream message on the spot connection carries.
#[derive(Debug, Clone, Copy, PartialEq, Eq, Structural)]
pub enum StreamPayload {
    Kline,
    Depth,
    MarkPrice,
    Ignored,
}

/// Spot streams: klines first, then depth; other streams are ignored.
pub fn spot_stream_payload(stream: &str) -> (p: StreamPayload)
    ensures
        p == (if contains_seq(stream@, "@kline"@) {
            StreamPayload::Kline
        } else if contains_seq(stream@, "@depth"@) {
            StreamPayload::Depth
        } else {
            StreamPayload::Ignored
        }),
{
    if contains(stream, "@kline") {
        StreamPayload::Kline
    } else if contains(stream, "@depth") {
        StreamPayload::Depth
    } else {
        StreamPayload::Ignored
    }
}

/// Futures streams: depth, and mark price for everything else.
pub fn futures_stream_payload(stream: &str) -> (p: StreamPayload)
    ensures
        p == (if contains_seq(stream@, "@depth"@) { StreamPayload::Depth } else { StreamPayload::MarkPrice }),
{
    if contains(stream, "@depth") {
        StreamPayload::Depth
    } else {
        StreamPayload::MarkPrice
    }
}

/// Candle streams: only klines are handled.
pub fn candle_stream_payload(stream: &str) -> (p: StreamPayload)
    ensures
        p == (if contains_seq(stream@, "@kline"@) { StreamPayload::Kline } else { StreamPayload::Ignored }),
{
    if contains(stream, "@kline") {
        StreamPayload::Kline
    } else {
        StreamPayload::Ignored
    }
}

/// The symbol a depth stream name carries: the uppercased text before its
/// first `@` (depth payloads do not repeat it).
pub fn depth_stream_symbol(stream: &str) -> (symbol: String)
    ensures
        symbol@ == uppercase_of(first_field(stream@, '@', '@')),
{
    let chars = chars_of(stream);
    let head = first_field_chars(&chars, '@', '@');
    let head_string = string_of(&head);
    to_uppercase(head_string.as_str())
}

/// What a Bybit public-stream message carries, by its topic.
#[derive(Debug, Clone, Copy, PartialEq, Eq, Structural)]
pub enum BybitTopic {
    Kline,
    OrderBook,
    Ticker,
    Other,
}

pub fn bybit_topic_kind(topic: &str) -> (k: BybitTopic)
    ensures
        k == (if starts_with(topic@, "kline."@) {
            BybitTopic::Kline
        } else if starts_with(topic@, "orderbook."@) {
            BybitTopic::OrderBook
        } else if starts_with(topic@, "tickers."@) {
            BybitTopic::Ticker
        } else {
            BybitTopic::Other
        }),
{
    if has_prefix(topic, "kline.") {
        BybitTopic::Kline
    } else if has_prefix(topic, "orderbook.") {
        BybitTopic::OrderBook
    } else if has_prefix(topic, "tickers.") {
        BybitTopic::Ticker
    } else {
        BybitTopic::Other
    }
}

/// The symbol of a Bybit kline topic: the text after its last `.`.
pub fn bybit_topic_symbol(topic: &str) -> (symbol: String)
    ensures
        symbol@ == split_on(topic@, '.').last(),
{
    let chars = chars_of(topic);
    let parts = split_chars(&chars, '.');
    proof {
        lemma_split_nonempty(topic@, '.');
    }
    let last = parts.len() - 1;
    string_of(&parts[last])
}

/// The interval name of a Bybit kline interval code.
pub open spec fn bybit_interval_name(code: Seq<char>) -> Seq<char> {
    if code == "1"@ {
        "1m"@
    } else if code == "5"@ {
        "5m"@
    } else {
        code
    }
}

pub fn bybit_interval(code: &str) -> (name: String)
    ensures
        name@ == bybit_interval_name(code@),
{
    if str_eq(code, "1") {
        string_from("1m")
    } else if str_eq(code, "5") {
        string_from("5m")
    } else {
        string_from(code)
    }
}

/// A copy of a list of strings.
pub fn copy_strings(v: &Vec<String>) -> (r: Vec<String>)
    ensures
        r.deep_view() == v.deep_view(),
{
    let mut r: Vec<String> = Vec::new();
    let mut i: usize = 0;
    while i < v.len()
        invariant
            i <= v.len(),
            r.deep_view() == v.deep_view().take(i as int),
        decreases v.len() - i,
    {
        let s = v[i].clone();
        let ghost before = r.deep_view();
        assert(s@ == v.deep_view()[i as int]);
        r.push(s);
        assert(r.deep_view() =~= before.push(v.deep_view()[i as int]));
        assert(v.deep_view().take(i + 1) =~= v.deep_view().take(i as int).push(v.deep_view()[i as int]));
        i += 1;
    }
    assert(v.deep_view().take(v.len() as int) =~= v.deep_view());
    r
}

/// One long-running task of the exchange client and the symbols it covers.
#[derive(Debug)]
pub enum ConnectionTask {
    /// A Binance spot kline connection.
    Candles(Vec<String>),
    /// A Binance futures depth and mark-price connection.
    Futures(Vec<String>),
    /// The Binance open-interest poller.
    OpenInterest(Vec<String>),
    /// A Bybit linear connection.
    Bybit(Vec<String>),
}

/// Moves each group into a task built by `kind` (0 candles, 1 futures,
/// 2 Bybit), appending them to `tasks`.
fn push_groups(tasks: &mut Vec<ConnectionTask>, groups: Vec<Vec<String>>, kind: u8)
    requires
        kind <= 2,
    ensures
        final(tasks)@.len() == old(tasks)@.len() + groups@.len(),
        forall|k: int| 0 <= k < old(tasks)@.len() ==> #[trigger] final(tasks)@[k] == old(tasks)@[k],
        forall|k: int|
            0 <= k < groups@.len() ==> match #[trigger] final(tasks)@[old(tasks)@.len() + k] {
                ConnectionTask::Candles(c) => kind == 0 && c.deep_view() == groups.deep_view()[k],
                ConnectionTask::Futures(c) => kind == 1 && c.deep_view() == groups.deep_view()[k],
                ConnectionTask::Bybit(c) => kind == 2 && c.deep_view() == groups.deep_view()[k],
                ConnectionTask::OpenInterest(_) => false,
            },
{
    let ghost start = tasks@.len();
    let ghost original = tasks@;
    let mut i: usize = 0;
    while i < groups.len()
        invariant
            kind <= 2,
            i <= groups.len(),
            start == original.len(),
            tasks@.len() == start + i,
            forall|k: int| 0 <= k < start ==> #[trigger] tasks@[k] == original[k],
            forall|k: int|
                0 <= k < i ==> match #[trigger] tasks@[start + k] {
                    ConnectionTask::Candles(c) => kind == 0 && c.deep_view() == groups.deep_view()[k],
                    ConnectionTask::Futures(c) => kind == 1 && c.deep_view() == groups.deep_view()[k],
                    ConnectionTask::Bybit(c) => kind == 2 && c.deep_view() == groups.deep_view()[k],
                    ConnectionTask::OpenInterest(_) => false,
                },
        decreases groups.len() - i,
    {
        let group = copy_strings(&groups[i]);
        assert(group.deep_view() == groups.deep_view()[i as int]);
        let task = if kind == 0 {
            ConnectionTask::Candles(group)
        } else if kind == 1 {
            ConnectionTask::Futures(group)
        } else {
            ConnectionTask::Bybit(group)
        };
        tasks.push(task);
        i += 1;
    }
}

/// The tasks the exchange client runs for `config`. For Binance: one kline
/// connection per group of symbols, then one futures connection per group
/// (groups as `chunk_symbols` cuts them at `binance_symbols_per_connection`),
/// then one open-interest poller over every symbol. For Bybit: one
/// connection per group of at most `MAX_BYBIT_SYMBOLS_PER_CONNECTION`.
pub fn connection_plan(config: &ExchangeClientConfig) -> (tasks: Vec<ConnectionTask>)
    ensures
        config.provider == ExchangeProvider::Binance ==> {
            let groups = chunked(config.symbols.deep_view(), MAX_BINANCE_STREAMS_PER_CONNECTION as nat / 2);
            let n = groups.len();
            &&& tasks@.len() == 2 * n + 1
            &&& forall|k: int| 0 <= k < n ==> (#[trigger] tasks@[k] matches ConnectionTask::Candles(c)
                && c.deep_view() == groups[k])
            &&& forall|k: int| 0 <= k < n ==> (#[trigger] tasks@[n + k] matches ConnectionTask::Futures(c)
                && c.deep_view() == groups[k])
            &&& tasks@[2 * n as int] matches ConnectionTask::OpenInterest(c) && c.deep_view() == config.symbols.deep_view()
        },
        config.provider == ExchangeProvider::Bybit ==> {
            let groups = chunked(config.symbols.deep_view(), MAX_BYBIT_SYMBOLS_PER_CONNECTION as nat);
            &&& tasks@.len() == groups.len()
            &&& forall|k: int| 0 <= k < groups.len() ==> (#[trigger] tasks@[k] matches ConnectionTask::Bybit(c)
                && c.deep_view() == groups[k])
        },
{
    let mut tasks: Vec<ConnectionTask> = Vec::new();
    match config.provider {
        ExchangeProvider::Binance => {
            let per = binance_symbols_per_connection();
            let candle_groups = chunk_symbols(&config.symbols, per);
            push_groups(&mut tasks, candle_groups, 0);
            let futures_groups = chunk_symbols(&config.symbols, per);
            let ghost n = tasks@.len();
            push_groups(&mut tasks, futures_groups, 1);
            let all = copy_strings(&config.symbols);
            tasks.push(ConnectionTask::OpenInterest(all));
            proof {
                assert forall|k: int| 0 <= k < n implies (#[trigger] tasks@[k] matches ConnectionTask::Candles(c)
                    && c.deep_view() == chunked(config.symbols.deep_view(), MAX_BINANCE_STREAMS_PER_CONNECTION as nat / 2)[k]) by {
                    assert(tasks@[k] == tasks@[0 + k]);
                }
            }
        },
        ExchangeProvider::Bybit => {
            let groups = chunk_symbols(&config.symbols, MAX_BYBIT_SYMBOLS_PER_CONNECTION);
            push_groups(&mut tasks, groups, 2);
            proof {
                assert forall|k: int| 0 <= k < tasks@.len() implies (#[trigger] tasks@[k] matches ConnectionTask::Bybit(c)
                    && c.deep_view() == chunked(config.symbols.deep_view(), MAX_BYBIT_SYMBOLS_PER_CONNECTION as nat)[k]) by {
                    assert(tasks@[k] == tasks@[0 + k]);
                }
            }
        },
    }
    tasks
}

/// The futures exchange-info request on a REST base.
pub fn exchange_info_url(rest_base: &str) -> (url: String)
    ensures
        url@ == rest_base@ + "/fapi/v1/exchangeInfo"@,
{
    let mut url = string_from(rest_base);
    url.append("/fapi/v1/exchangeInfo");
    url
}

/// The Bybit instruments-info request on a REST base (its query is added
/// separately).
pub fn instruments_url(rest_base: &str) -> (url: String)
    ensures
        url@ == rest_base@ + "/v5/market/instruments-info"@,
{
    let mut url = string_from(rest_base);
    url.append("/v5/market/instruments-info");
    url
}

/// The open-interest request for one symbol.
pub fn open_interest_url(rest_base: &str, symbol: &str) -> (url: String)
    ensures
        url@ == rest_base@ + "/fapi/v1/openInterest?symbol="@ + symbol@,
{
    let mut url = string_from(rest_base);
    url.append("/fapi/v1/openInterest?symbol=");
    url.append(symbol);
    url
}

/// The funding-rate history request for one symbol, at most `limit` entries.
pub fn funding_history_url(rest_base: &str, symbol: &str, limit: u32) -> (url: String)
    ensures
        url@ == rest_base@ + "/fapi/v1/fundingRate?symbol="@ + symbol@ + "&limit="@ + decimal(limit as int),
{
    let mut url = string_from(rest_base);
    url.append("/fapi/v1/fundingRate?symbol=");
    url.append(symbol);
    url.append("&limit=");
    let digits = i64_to_decimal(limit as i64);
    url.append(digits.as_str());
    url
}

} // verus!
