//! The float-free skeleton of historical validation: which candles are
//! scored, which scored steps open a trade, and where a trade enters and
//! exits.

use vstd::prelude::*;
use crate::market::BacktestSide;

verus! {

/// Candles in each scoring window.
pub const SCORE_WINDOW: usize = 50;

/// Milliseconds in an hour.
pub const HOUR_MS: i64 = 3_600_000;

/// The candle indices that are scored, as a half-open range: every candle
/// that closes a full window and still has a successor; empty when the
/// series is shorter than one window plus one candle.
pub fn scored_range(len: usize) -> (r: (usize, usize))
    ensures
        len < SCORE_WINDOW + 1 ==> r.0 == r.1,
        len >= SCORE_WINDOW + 1 ==> r.0 == SCORE_WINDOW - 1 && r.1 == len - 1,
{
    if len < SCORE_WINDOW + 1 {
        (0, 0)
    } else {
        (SCORE_WINDOW - 1, len - 1)
    }
}

/// A scored step opens a trade when it has a side that differs from the
/// previous step's.
pub open spec fn opens_signal(previous: Option<BacktestSide>, side: Option<BacktestSide>) -> bool {
    side is Some && side != previous
}

/// The side of the step before `k` (none before the first).
pub open spec fn side_before(sides: Seq<Option<BacktestSide>>, k: int) -> Option<BacktestSide> {
    if k == 0 { None } else { sides[k - 1] }
}

/// The steps that open a trade, in order.
pub open spec fn signal_steps(sides: Seq<Option<BacktestSide>>) -> Seq<usize>
    decreases sides.len(),
{
    if sides.len() == 0 {
        Seq::empty()
    } else {
        let k = sides.len() - 1;
        let rest = signal_steps(sides.drop_last());
        if opens_signal(side_before(sides, k), sides[k]) {
            rest.push(k as usize)
        } else {
            rest
        }
    }
}

/// The number of steps without a side.
pub open spec fn count_no_trade(sides: Seq<Option<BacktestSide>>) -> nat
    decreases sides.len(),
{
    if sides.len() == 0 {
        0
    } else {
        count_no_trade(sides.drop_last()) + if sides.last() is None { 1nat } else { 0nat }
    }
}

/// The steps of a run that open trades, and how many steps had no side.
#[derive(Debug)]
pub struct SignalScan {
    pub signal_steps: Vec<usize>,
    pub no_trade_points: usize,
}

/// Walks the per-step sides of a run: a step opens a trade when its side
/// is set and differs from the step before, whether or not the trade can
/// later be priced.
pub fn scan_sides(sides: &Vec<Option<BacktestSide>>) -> (scan: SignalScan)
    ensures
        scan.signal_steps@ == signal_steps(sides@),
        scan.no_trade_points == count_no_trade(sides@),
{
    let mut steps: Vec<usize> = Vec::new();
    let mut no_trade: usize = 0;
    let mut previous: Option<BacktestSide> = None;
    let mut k: usize = 0;
    while k < sides.len()
        invariant
            k <= sides.len(),
            steps@ == signal_steps(sides@.take(k as int)),
            no_trade == count_no_trade(sides@.take(k as int)),
            no_trade <= k,
            previous == side_before(sides@, k as int),
        decreases sides.len() - k,
    {
        let ghost prefix = sides@.take(k + 1);
        assert(prefix.drop_last() =~= sides@.take(k as int));
        assert(prefix[k as int] == sides@[k as int]);
        assert(side_before(prefix, k as int) == side_before(sides@, k as int));
        let side = sides[k];
        if side.is_none() {
            no_trade += 1;
        }
        let opens = match side {
            Some(s) => match previous {
                Some(p) => s != p,
                None => true,
            },
            None => false,
        };
        if opens {
            steps.push(k);
        }
        previous = side;
        k += 1;
    }
    assert(sides@.take(sides.len() as int) =~= sides@);
    SignalScan { signal_steps: steps, no_trade_points: no_trade }
}

/// When a trade raised at the close of candle `i` is judged.
pub open spec fn exit_target(close_time: i64, lookahead_hours: i64) -> int {
    close_time + lookahead_hours * HOUR_MS
}

/// Entry and exit candles of a trade raised at the close of candle `i`: it
/// enters at the next candle's open and exits at the close of the first
/// candle from there that closes at or after the target time. `None` when
/// there is no next candle or no candle reaches the target.
pub fn trade_window(close_times: &Vec<i64>, i: usize, lookahead_hours: i64) -> (r: Option<(usize, usize)>)
    requires
        i + 1 < close_times.len() ==> i64::MIN <= lookahead_hours * HOUR_MS <= i64::MAX,
        i + 1 < close_times.len() ==> i64::MIN <= exit_target(close_times@[i as int], lookahead_hours)
            <= i64::MAX,
    ensures
        r is None <==> (i + 1 >= close_times.len() || forall|j: int|
            i + 1 <= j < close_times.len() ==> close_times@[j] < exit_target(close_times@[i as int], lookahead_hours)),
        r matches Some((entry, exit)) ==> {
            &&& entry == i + 1
            &&& entry <= exit < close_times.len()
            &&& close_times@[exit as int] >= exit_target(close_times@[i as int], lookahead_hours)
            &&& forall|j: int| entry <= j < exit ==> close_times@[j] < exit_target(close_times@[i as int], lookahead_hours)
        },
{
    if i >= close_times.len() || i + 1 >= close_times.len() {
        return None;
    }
    let target = close_times[i] + lookahead_hours * HOUR_MS;
    let mut j: usize = i + 1;
    while j < close_times.len()
        invariant
            i + 1 <= j <= close_times.len(),
            target == exit_target(close_times@[i as int], lookahead_hours),
            forall|m: int| i + 1 <= m < j ==> close_times@[m] < target,
        decreases close_times.len() - j,
    {
        if close_times[j] >= target {
            return Some((i + 1, j));
        }
        j += 1;
    }
    None
}

/// Number of `side` entries in `sides`.
pub open spec fn count_side(sides: Seq<BacktestSide>, side: BacktestSide) -> nat
    decreases sides.len(),
{
    if sides.len() == 0 {
        0
    } else {
        count_side(sides.drop_last(), side) + if sides.last() == side { 1nat } else { 0nat }
    }
}

/// How many recorded trades were long and how many short.
pub fn side_counts(sides: &Vec<BacktestSide>) -> (r: (usize, usize))
    ensures
        r.0 == count_side(sides@, BacktestSide::Long),
        r.1 == count_side(sides@, BacktestSide::Short),
        r.0 + r.1 == sides@.len(),
{
    let mut long: usize = 0;
    let mut short: usize = 0;
    let mut k: usize = 0;
    while k < sides.len()
        invariant
            k <= sides.len(),
            long == count_side(sides@.take(k as int), BacktestSide::Long),
            short == count_side(sides@.take(k as int), BacktestSide::Short),
            long + short == k,
        decreases sides.len() - k,
    {
        assert(sides@.take(k + 1).drop_last() =~= sides@.take(k as int));
        match sides[k] {
            BacktestSide::Long => long += 1,
            BacktestSide::Short => short += 1,
        }
        k += 1;
    }
    assert(sides@.take(sides.len() as int) =~= sides@);
    (long, short)
}

} // verus!
