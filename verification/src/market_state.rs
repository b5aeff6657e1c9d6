//! Bookkeeping of the live per-symbol market state: bounded candle and
//! open-interest histories, the choice of the primary series, and the
//! freshness report of each data source.

use vstd::prelude::*;
use crate::market::DataSourceHealth;
use crate::product::{saturating_diff, saturating_sub};
use crate::text::{str_eq, string_from};

verus! {

broadcast use vstd::string::group_string_axioms;

/// Closed candles kept per symbol and interval.
pub const CANDLE_HISTORY: usize = 60;

/// Open-interest observations kept per symbol.
pub const OPEN_INTEREST_HISTORY: usize = 2;

/// Primary candles needed before the candle source counts as warm.
pub const MIN_WARM_CANDLES: usize = 30;

/// Candles an interval needs before it takes part in timeframe agreement.
pub const MIN_TIMEFRAME_CANDLES: usize = 10;

pub const CANDLE_MAX_AGE_MS: i64 = 120_000;

pub const ORDER_BOOK_MAX_AGE_MS: i64 = 30_000;

pub const FUNDING_MAX_AGE_MS: i64 = 32_400_000;

pub const OPEN_INTEREST_MAX_AGE_MS: i64 = 300_000;

/// The last `cap` entries of `s` (all of them when there are fewer).
pub open spec fn keep_last<A>(s: Seq<A>, cap: nat) -> Seq<A> {
    if s.len() > cap {
        s.skip(s.len() - cap)
    } else {
        s
    }
}

/// `s` after an observation keyed `key`: it replaces the newest entry when
/// that one has the same key, and is appended otherwise, dropping the
/// oldest entries beyond `cap`.
pub open spec fn upserted<T>(s: Seq<(i64, T)>, key: i64, item: T, cap: nat) -> Seq<(i64, T)> {
    if s.len() > 0 && s.last().0 == key {
        s.update(s.len() - 1, (key, item))
    } else {
        keep_last(s.push((key, item)), cap)
    }
}

/// A bounded, time-keyed history, oldest entry first.
pub struct RollingWindow<T> {
    entries: Vec<(i64, T)>,
    capacity: usize,
}

impl<T> View for RollingWindow<T> {
    type V = Seq<(i64, T)>;

    closed spec fn view(&self) -> Seq<(i64, T)> {
        self.entries@
    }
}

impl<T> RollingWindow<T> {
    #[verifier::type_invariant]
    closed spec fn bounded(self) -> bool {
        self.capacity >= 1 && self.entries@.len() <= self.capacity
    }

    /// Most entries the window keeps.
    pub closed spec fn cap(&self) -> nat {
        self.capacity as nat
    }

    /// An empty window keeping at most `capacity` entries.
    pub fn new(capacity: usize) -> (w: Self)
        requires
            capacity >= 1,
        ensures
            w@ == Seq::<(i64, T)>::empty(),
            w.cap() == capacity,
    {
        RollingWindow { entries: Vec::new(), capacity }
    }

    pub fn len(&self) -> (n: usize)
        ensures
            n == self@.len(),
            n <= self.cap(),
    {
        proof {
            use_type_invariant(self);
        }
        self.entries.len()
    }

    /// The entries, oldest first.
    pub fn entries(&self) -> (e: &Vec<(i64, T)>)
        ensures
            e@ == self@,
    {
        &self.entries
    }

    /// Records an observation keyed `key` (a candle's open time): a repeat
    /// of the newest key replaces that entry, a new key is appended and the
    /// oldest entry leaves once the window is over capacity.
    pub fn upsert(&mut self, key: i64, item: T)
        ensures
            final(self)@ == upserted(old(self)@, key, item, old(self).cap()),
            final(self).cap() == old(self).cap(),
            final(self)@.len() <= final(self).cap(),
    {
        proof {
            use_type_invariant(&*self);
        }
        let mut entries: Vec<(i64, T)> = Vec::new();
        std::mem::swap(&mut entries, &mut self.entries);
        let n = entries.len();
        if n > 0 && entries[n - 1].0 == key {
            entries.set(n - 1, (key, item));
        } else {
            entries.push((key, item));
            if entries.len() > self.capacity {
                let ghost pushed = entries@;
                entries.remove(0);
                assert(entries@ =~= pushed.skip(pushed.len() - self.capacity));
            }
        }
        self.entries = entries;
    }

    /// Appends an observation and drops the oldest ones beyond capacity.
    pub fn push(&mut self, key: i64, item: T)
        ensures
            final(self)@ == keep_last(old(self)@.push((key, item)), old(self).cap()),
            final(self).cap() == old(self).cap(),
            final(self)@.len() <= final(self).cap(),
    {
        proof {
            use_type_invariant(&*self);
        }
        let mut entries: Vec<(i64, T)> = Vec::new();
        std::mem::swap(&mut entries, &mut self.entries);
        entries.push((key, item));
        if entries.len() > self.capacity {
            let ghost pushed = entries@;
            entries.remove(0);
            assert(entries@ =~= pushed.skip(pushed.len() - self.capacity));
        }
        self.entries = entries;
    }
}

/// A window never holds more than its capacity, and a repeated update of
/// the newest key (a forming candle seen again) replaces it: updating twice
/// leaves what the second update alone would have left.
pub proof fn repeated_key_replaces<T>(s: Seq<(i64, T)>, key: i64, first: T, second: T, cap: nat)
    requires
        cap >= 1,
        s.len() <= cap,
    ensures
        upserted(s, key, first, cap).len() <= cap,
        upserted(upserted(s, key, first, cap), key, second, cap) == upserted(s, key, second, cap),
{
    let once = upserted(s, key, first, cap);
    if s.len() > 0 && s.last().0 == key {
        assert(once.update(once.len() - 1, (key, second)) =~= s.update(s.len() - 1, (key, second)));
    } else {
        let p1 = s.push((key, first));
        let p2 = s.push((key, second));
        assert(once.last() == (key, first));
        assert(keep_last(p1, cap).update(keep_last(p1, cap).len() - 1, (key, second)) =~= keep_last(p2, cap));
    }
}

/// Whether some history named `name` holds candles.
pub open spec fn has_nonempty(histories: Seq<(Seq<char>, nat)>, name: Seq<char>) -> bool {
    exists|k: int| 0 <= k < histories.len() && #[trigger] histories[k].0 == name && histories[k].1 > 0
}

/// The interval whose history drives the composite score, from
/// `(interval, history length)` pairs: the 1m series whenever it has
/// candles, else an interval with the longest non-empty history, else none.
pub fn primary_interval(histories: &Vec<(String, usize)>) -> (r: Option<String>)
    ensures
        ({
            let h = histories@.map_values(|e: (String, usize)| (e.0@, e.1 as nat));
            &&& has_nonempty(h, "1m"@) ==> (r matches Some(name) && name@ == "1m"@)
            &&& !has_nonempty(h, "1m"@) ==> match r {
                Some(name) => exists|k: int|
                    0 <= k < h.len() && #[trigger] h[k].0 == name@ && h[k].1 > 0 && forall|j: int|
                        0 <= j < h.len() ==> #[trigger] h[j].1 <= h[k].1,
                None => forall|j: int| 0 <= j < h.len() ==> #[trigger] h[j].1 == 0,
            }
        }),
{
    let ghost h = histories@.map_values(|e: (String, usize)| (e.0@, e.1 as nat));
    let mut i: usize = 0;
    while i < histories.len()
        invariant
            i <= histories.len(),
            h == histories@.map_values(|e: (String, usize)| (e.0@, e.1 as nat)),
            forall|k: int| 0 <= k < i ==> !(#[trigger] h[k].0 == "1m"@ && h[k].1 > 0),
        decreases histories.len() - i,
    {
        if histories[i].1 > 0 && str_eq(histories[i].0.as_str(), "1m") {
            assert(h[i as int].0 == "1m"@ && h[i as int].1 > 0);
            return Some(string_from("1m"));
        }
        i += 1;
    }
    let mut best: Option<usize> = None;
    let mut j: usize = 0;
    while j < histories.len()
        invariant
            j <= histories.len(),
            h == histories@.map_values(|e: (String, usize)| (e.0@, e.1 as nat)),
            match best {
                Some(b) => b < j && h[b as int].1 > 0 && forall|m: int| 0 <= m < j ==> #[trigger] h[m].1 <= h[b as int].1,
                None => forall|m: int| 0 <= m < j ==> #[trigger] h[m].1 == 0,
            },
        decreases histories.len() - j,
    {
        let len = histories[j].1;
        match best {
            Some(b) => {
                if len >= histories[b].1 {
                    best = Some(j);
                }
            },
            None => {
                if len > 0 {
                    best = Some(j);
                }
            },
        }
        j += 1;
    }
    match best {
        Some(b) => {
            let name = histories[b].0.clone();
            assert(h[b as int].0 == name@);
            Some(name)
        },
        None => None,
    }
}

/// How long ago `at` was as seen at `now`, saturating; the largest `i64`
/// when the source never reported.
pub open spec fn source_age(now: i64, at: Option<i64>) -> i64 {
    match at {
        Some(t) => saturating_diff(now, t),
        None => i64::MAX,
    }
}

pub fn age_since(now: i64, at: Option<i64>) -> (age: i64)
    ensures
        age == source_age(now, at),
{
    match at {
        Some(t) => saturating_sub(now, t),
        None => i64::MAX,
    }
}

/// The report of one source, as a value the contracts compare.
pub open spec fn health_of(s: DataSourceHealth) -> (Seq<char>, i64, i64, bool) {
    (s.name@, s.age_ms, s.max_age_ms, s.present)
}

fn health(name: &str, age_ms: i64, max_age_ms: i64, present: bool) -> (h: DataSourceHealth)
    ensures
        health_of(h) == (name@, age_ms, max_age_ms, present),
{
    DataSourceHealth { name: string_from(name), age_ms, max_age_ms, present }
}

/// The freshness of a live symbol's four sources at `now`: candles (warm
/// once the primary history holds `MIN_WARM_CANDLES`), order book, funding
/// and open interest (present once two observations exist).
pub fn live_source_health(
    now: i64,
    candle_received_at: Option<i64>,
    primary_history_len: usize,
    order_book_at: Option<i64>,
    funding_at: Option<i64>,
    open_interest_at: Option<i64>,
    open_interest_points: usize,
) -> (sources: Vec<DataSourceHealth>)
    ensures
        sources@.map_values(|s: DataSourceHealth| health_of(s)) == seq![
            ("candles"@, source_age(now, candle_received_at), CANDLE_MAX_AGE_MS,
                primary_history_len >= MIN_WARM_CANDLES && candle_received_at is Some),
            ("order_book"@, source_age(now, order_book_at), ORDER_BOOK_MAX_AGE_MS, order_book_at is Some),
            ("funding"@, source_age(now, funding_at), FUNDING_MAX_AGE_MS, funding_at is Some),
            ("open_interest"@, source_age(now, open_interest_at), OPEN_INTEREST_MAX_AGE_MS,
                open_interest_points >= 2),
        ],
{
    let mut sources: Vec<DataSourceHealth> = Vec::new();
    let warm = primary_history_len >= MIN_WARM_CANDLES && candle_received_at.is_some();
    sources.push(health("candles", age_since(now, candle_received_at), CANDLE_MAX_AGE_MS, warm));
    sources.push(health("order_book", age_since(now, order_book_at), ORDER_BOOK_MAX_AGE_MS, order_book_at.is_some()));
    sources.push(health("funding", age_since(now, funding_at), FUNDING_MAX_AGE_MS, funding_at.is_some()));
    sources.push(
        health("open_interest", age_since(now, open_interest_at), OPEN_INTEREST_MAX_AGE_MS, open_interest_points >= 2),
    );
    assert(sources@.map_values(|s: DataSourceHealth| health_of(s)) =~= seq![
        ("candles"@, source_age(now, candle_received_at), CANDLE_MAX_AGE_MS, warm),
        ("order_book"@, source_age(now, order_book_at), ORDER_BOOK_MAX_AGE_MS, order_book_at is Some),
        ("funding"@, source_age(now, funding_at), FUNDING_MAX_AGE_MS, funding_at is Some),
        ("open_interest"@, source_age(now, open_interest_at), OPEN_INTEREST_MAX_AGE_MS, open_interest_points >= 2),
    ]);
    sources
}

/// The freshness of an archived frame's sources, measured from the
/// frame's candle close: the candle itself is always present and current.
pub fn frame_source_health(
    close_time: i64,
    order_book_at: Option<i64>,
    funding_at: Option<i64>,
    open_interest_at: Option<i64>,
    open_interest_points: usize,
) -> (sources: Vec<DataSourceHealth>)
    ensures
        sources@.map_values(|s: DataSourceHealth| health_of(s)) == seq![
            ("candles"@, 0i64, CANDLE_MAX_AGE_MS, true),
            ("order_book"@, source_age(close_time, order_book_at), ORDER_BOOK_MAX_AGE_MS, order_book_at is Some),
            ("funding"@, source_age(close_time, funding_at), FUNDING_MAX_AGE_MS, funding_at is Some),
            ("open_interest"@, source_age(close_time, open_interest_at), OPEN_INTEREST_MAX_AGE_MS,
                open_interest_points >= 2),
        ],
{
    let mut sources: Vec<DataSourceHealth> = Vec::new();
    sources.push(health("candles", 0, CANDLE_MAX_AGE_MS, true));
    sources.push(health("order_book", age_since(close_time, order_book_at), ORDER_BOOK_MAX_AGE_MS, order_book_at.is_some()));
    sources.push(health("funding", age_since(close_time, funding_at), FUNDING_MAX_AGE_MS, funding_at.is_some()));
    sources.push(
        health("open_interest", age_since(close_time, open_interest_at), OPEN_INTEREST_MAX_AGE_MS, open_interest_points >= 2),
    );
    assert(sources@.map_values(|s: DataSourceHealth| health_of(s)) =~= seq![
        ("candles"@, 0i64, CANDLE_MAX_AGE_MS, true),
        ("order_book"@, source_age(close_time, order_book_at), ORDER_BOOK_MAX_AGE_MS, order_book_at is Some),
        ("funding"@, source_age(close_time, funding_at), FUNDING_MAX_AGE_MS, funding_at is Some),
        ("open_interest"@, source_age(close_time, open_interest_at), OPEN_INTEREST_MAX_AGE_MS, open_interest_points >= 2),
    ]);
    sources
}

/// Number of entries of `dirs` with the given sign.
pub open spec fn count_sign(dirs: Seq<i8>, positive: bool) -> nat
    decreases dirs.len(),
{
    if dirs.len() == 0 {
        0
    } else {
        count_sign(dirs.drop_last(), positive) + if (positive && dirs.last() > 0) || (!positive
            && dirs.last() < 0) {
            1nat
        } else {
            0nat
        }
    }
}

/// How many timeframes point up and how many point down.
pub fn direction_tally(dirs: &Vec<i8>) -> (r: (usize, usize))
    ensures
        r.0 == count_sign(dirs@, true),
        r.1 == count_sign(dirs@, false),
{
    let mut up: usize = 0;
    let mut down: usize = 0;
    let mut i: usize = 0;
    while i < dirs.len()
        invariant
            i <= dirs.len(),
            up == count_sign(dirs@.take(i as int), true),
            down == count_sign(dirs@.take(i as int), false),
            up + down <= i,
        decreases dirs.len() - i,
    {
        assert(dirs@.take(i + 1).drop_last() =~= dirs@.take(i as int));
        if dirs[i] > 0 {
            up += 1;
        } else if dirs[i] < 0 {
            down += 1;
        }
        i += 1;
    }
    assert(dirs@.take(dirs.len() as int) =~= dirs@);
    (up, down)
}

/// The symbol whose returns serve as the cross-market reference: BTCUSDT,
/// or ETHUSDT for BTCUSDT itself.
pub fn reference_symbol(symbol: &str) -> (r: &'static str)
    ensures
        r@ == if symbol@ == "BTCUSDT"@ { "ETHUSDT"@ } else { "BTCUSDT"@ },
{
    if str_eq(symbol, "BTCUSDT") { "ETHUSDT" } else { "BTCUSDT" }
}

} // verus!
