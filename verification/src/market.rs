//! Decision, regime and state vocabularies of the scoring engine, and the
//! integer-valued rules over them.

use vstd::prelude::*;
use vstd::string::*;
use crate::text::{str_eq, string_from};

verus! {

broadcast use vstd::string::group_string_axioms;

/// A meta decision of the intelligence engine.
#[derive(Debug, Clone, Copy, PartialEq, Eq, Structural)]
pub enum Decision {
    StrongLong,
    Long,
    WatchLong,
    Neutral,
    WatchShort,
    Short,
    StrongShort,
    NoTrade,
}

#[derive(Debug, Clone, Copy, PartialEq, Eq, Structural)]
pub enum MarketRegime {
    StrongBull,
    Bull,
    Sideways,
    Bear,
    StrongBear,
    HighVolatility,
    LowVolatility,
    Compression,
}

#[derive(Debug, Clone, Copy, PartialEq, Eq, Structural)]
pub enum VolatilityState {
    Normal,
    Compression,
    Expanding,
    Extreme,
}

#[derive(Debug, Clone, Copy, PartialEq, Eq, Structural)]
pub enum StructureState {
    HigherHighHigherLow,
    LowerHighLowerLow,
    Range,
    Breakout,
    Breakdown,
    InsufficientData,
}

#[derive(Debug, Clone, Copy, PartialEq, Eq, Structural)]
pub enum AnomalySeverity {
    Normal,
    Low,
    Medium,
    High,
    Extreme,
}

#[derive(Debug, Clone, Copy, PartialEq, Eq, Structural)]
pub enum DominantSide {
    Buy,
    Sell,
    Neutral,
}

#[derive(Debug, Clone, Copy, PartialEq, Eq, Structural)]
pub enum DerivativesPressure {
    LongBuildUp,
    ShortBuildUp,
    ShortCovering,
    LongUnwinding,
    Neutral,
    InsufficientData,
}

#[derive(Debug, Clone, Copy, PartialEq, Eq, Structural)]
pub enum ConfidenceLevel {
    InsufficientData,
    Low,
    Medium,
    High,
    VeryHigh,
}

#[derive(Debug, Clone, Copy, PartialEq, Eq, Structural)]
pub enum RiskLevel {
    Low,
    Medium,
    High,
    Extreme,
}

#[derive(Debug, Clone, Copy, PartialEq, Eq, Structural)]
pub enum SweepSide {
    Highs,
    Lows,
    /// No sweep on either side.
    NoSweep,
}

/// Direction of a historical trade.
#[derive(Debug, Clone, Copy, PartialEq, Eq, Structural)]
pub enum BacktestSide {
    Long,
    Short,
}

/// Headline, ranked reasons and warnings of a decision.
#[derive(Debug, Clone)]
pub struct Explanation {
    pub headline: String,
    pub reasons: Vec<String>,
    pub warnings: Vec<String>,
}

/// The name a decision is persisted and published under.
pub open spec fn decision_name(d: Decision) -> Seq<char> {
    match d {
        Decision::StrongLong => "StrongLong"@,
        Decision::Long => "Long"@,
        Decision::WatchLong => "WatchLong"@,
        Decision::Neutral => "Neutral"@,
        Decision::WatchShort => "WatchShort"@,
        Decision::Short => "Short"@,
        Decision::StrongShort => "StrongShort"@,
        Decision::NoTrade => "NoTrade"@,
    }
}

pub fn decision_name_str(d: Decision) -> (s: &'static str)
    ensures
        s@ == decision_name(d),
{
    match d {
        Decision::StrongLong => "StrongLong",
        Decision::Long => "Long",
        Decision::WatchLong => "WatchLong",
        Decision::Neutral => "Neutral",
        Decision::WatchShort => "WatchShort",
        Decision::Short => "Short",
        Decision::StrongShort => "StrongShort",
        Decision::NoTrade => "NoTrade",
    }
}

/// The product-facing label of a decision.
pub open spec fn product_label(d: Decision) -> Seq<char> {
    match d {
        Decision::StrongLong | Decision::Long => "LONG"@,
        Decision::WatchLong | Decision::Neutral | Decision::WatchShort => "WATCH"@,
        Decision::Short | Decision::StrongShort => "SHORT"@,
        Decision::NoTrade => "NO TRADE"@,
    }
}

/// The product-facing label of a decision.
pub fn label(d: Decision) -> (s: &'static str)
    ensures
        s@ == product_label(d),
{
    match d {
        Decision::StrongLong | Decision::Long => "LONG",
        Decision::WatchLong | Decision::Neutral | Decision::WatchShort => "WATCH",
        Decision::Short | Decision::StrongShort => "SHORT",
        Decision::NoTrade => "NO TRADE",
    }
}

/// The product label of a published decision name; unknown names are
/// shown as `WATCH`.
pub open spec fn product_label_of_name(name: Seq<char>) -> Seq<char> {
    if name == "StrongLong"@ || name == "Long"@ {
        "LONG"@
    } else if name == "Short"@ || name == "StrongShort"@ {
        "SHORT"@
    } else if name == "NoTrade"@ {
        "NO TRADE"@
    } else {
        "WATCH"@
    }
}

pub fn label_of_name(name: &str) -> (s: &'static str)
    ensures
        s@ == product_label_of_name(name@),
{
    if str_eq(name, "StrongLong") || str_eq(name, "Long") {
        "LONG"
    } else if str_eq(name, "Short") || str_eq(name, "StrongShort") {
        "SHORT"
    } else if str_eq(name, "NoTrade") {
        "NO TRADE"
    } else {
        "WATCH"
    }
}

/// The web API, which reads published decision names, and the product
/// adapter, which reads decisions, show the same label for every decision.
pub proof fn published_name_keeps_label(d: Decision)
    ensures
        product_label_of_name(decision_name(d)) == product_label(d),
{
    reveal_strlit("StrongLong");
    reveal_strlit("Long");
    reveal_strlit("WatchLong");
    reveal_strlit("Neutral");
    reveal_strlit("WatchShort");
    reveal_strlit("Short");
    reveal_strlit("StrongShort");
    reveal_strlit("NoTrade");
    match d {
        Decision::WatchLong => {
            assert("WatchLong"@.len() != "StrongLong"@.len());
            assert("WatchLong"@.len() != "Long"@.len());
            assert("WatchLong"@.len() != "Short"@.len());
            assert("WatchLong"@.len() != "StrongShort"@.len());
            assert("WatchLong"@.len() != "NoTrade"@.len());
        },
        Decision::Neutral => {
            assert("Neutral"@.len() != "StrongLong"@.len());
            assert("Neutral"@.len() != "Long"@.len());
            assert("Neutral"@.len() != "Short"@.len());
            assert("Neutral"@.len() != "StrongShort"@.len());
            assert("Neutral"@[1] != "NoTrade"@[1]);
        },
        Decision::WatchShort => {
            assert("WatchShort"@[0] != "StrongLong"@[0]);
            assert("WatchShort"@.len() != "Long"@.len());
            assert("WatchShort"@.len() != "Short"@.len());
            assert("WatchShort"@.len() != "StrongShort"@.len());
            assert("WatchShort"@.len() != "NoTrade"@.len());
        },
        Decision::Short => {
            assert("Short"@.len() != "StrongLong"@.len());
            assert("Short"@.len() != "Long"@.len());
        },
        Decision::StrongShort => {
            assert("StrongShort"@.len() != "StrongLong"@.len());
            assert("StrongShort"@.len() != "Long"@.len());
        },
        Decision::NoTrade => {
            assert("NoTrade"@.len() != "StrongLong"@.len());
            assert("NoTrade"@.len() != "Long"@.len());
            assert("NoTrade"@.len() != "Short"@.len());
            assert("NoTrade"@.len() != "StrongShort"@.len());
        },
        _ => {},
    }
}

/// The headline of an explanation.
pub open spec fn headline_text(d: Decision) -> Seq<char> {
    match d {
        Decision::StrongLong => "Strong long setup"@,
        Decision::Long => "Long setup"@,
        Decision::WatchLong => "Watch long"@,
        Decision::Neutral => "Neutral"@,
        Decision::WatchShort => "Watch short"@,
        Decision::Short => "Short setup"@,
        Decision::StrongShort => "Strong short setup"@,
        Decision::NoTrade => "No trade"@,
    }
}

pub fn headline(d: Decision) -> (s: String)
    ensures
        s@ == headline_text(d),
{
    string_from(
        match d {
            Decision::StrongLong => "Strong long setup",
            Decision::Long => "Long setup",
            Decision::WatchLong => "Watch long",
            Decision::Neutral => "Neutral",
            Decision::WatchShort => "Watch short",
            Decision::Short => "Short setup",
            Decision::StrongShort => "Strong short setup",
            Decision::NoTrade => "No trade",
        },
    )
}

/// The trade direction a decision takes: long +1, short -1, none 0.
pub open spec fn decision_direction_of(d: Decision) -> i8 {
    match d {
        Decision::StrongLong | Decision::Long => 1i8,
        Decision::StrongShort | Decision::Short => -1i8,
        _ => 0i8,
    }
}

pub fn decision_direction(d: Decision) -> (dir: i8)
    ensures
        dir == decision_direction_of(d),
{
    match d {
        Decision::StrongLong | Decision::Long => 1,
        Decision::StrongShort | Decision::Short => -1,
        _ => 0,
    }
}

/// The trend direction of a regime: bull +1, bear -1, otherwise 0.
pub open spec fn regime_direction_of(r: MarketRegime) -> i8 {
    match r {
        MarketRegime::StrongBull | MarketRegime::Bull => 1i8,
        MarketRegime::StrongBear | MarketRegime::Bear => -1i8,
        _ => 0i8,
    }
}

pub fn regime_direction(r: MarketRegime) -> (dir: i8)
    ensures
        dir == regime_direction_of(r),
{
    match r {
        MarketRegime::StrongBull | MarketRegime::Bull => 1,
        MarketRegime::StrongBear | MarketRegime::Bear => -1,
        _ => 0,
    }
}

/// Whether a set of timeframe regimes points both ways, which the engine
/// counts as a timeframe conflict.
pub open spec fn regimes_conflict(regimes: Seq<MarketRegime>) -> bool {
    (exists|i: int| 0 <= i < regimes.len() && regime_direction_of(regimes[i]) > 0)
        && (exists|j: int| 0 <= j < regimes.len() && regime_direction_of(regimes[j]) < 0)
}

pub fn regimes_in_conflict(regimes: &Vec<MarketRegime>) -> (r: bool)
    ensures
        r == regimes_conflict(regimes@),
{
    let mut up = false;
    let mut down = false;
    let mut i: usize = 0;
    while i < regimes.len()
        invariant
            i <= regimes.len(),
            up == exists|k: int| 0 <= k < i && regime_direction_of(regimes@[k]) > 0,
            down == exists|k: int| 0 <= k < i && regime_direction_of(regimes@[k]) < 0,
        decreases regimes.len() - i,
    {
        let d = regime_direction(regimes[i]);
        if d > 0 {
            up = true;
        }
        if d < 0 {
            down = true;
        }
        i += 1;
    }
    up && down
}

/// The regime on the other side of the market: bulls and bears swap, the
/// other regimes stay.
pub open spec fn mirrored_regime(r: MarketRegime) -> MarketRegime {
    match r {
        MarketRegime::StrongBull => MarketRegime::StrongBear,
        MarketRegime::Bull => MarketRegime::Bear,
        MarketRegime::Bear => MarketRegime::Bull,
        MarketRegime::StrongBear => MarketRegime::StrongBull,
        other => other,
    }
}

/// The regime with its trend made strong; other regimes stay.
pub open spec fn strengthened_regime(r: MarketRegime) -> MarketRegime {
    match r {
        MarketRegime::Bull => MarketRegime::StrongBull,
        MarketRegime::Bear => MarketRegime::StrongBear,
        other => other,
    }
}

/// Mirroring a regime reverses its direction, strengthening it keeps its
/// direction, and mirroring every regime keeps whether they conflict.
pub proof fn regime_direction_is_symmetric(r: MarketRegime, regimes: Seq<MarketRegime>)
    ensures
        regime_direction_of(mirrored_regime(r)) == -regime_direction_of(r),
        regime_direction_of(strengthened_regime(r)) == regime_direction_of(r),
        regimes_conflict(regimes.map_values(|x: MarketRegime| mirrored_regime(x))) == regimes_conflict(regimes),
{
    let m = regimes.map_values(|x: MarketRegime| mirrored_regime(x));
    if regimes_conflict(regimes) {
        let i = choose|i: int| 0 <= i < regimes.len() && regime_direction_of(regimes[i]) > 0;
        let j = choose|j: int| 0 <= j < regimes.len() && regime_direction_of(regimes[j]) < 0;
        assert(regime_direction_of(m[j]) > 0 && regime_direction_of(m[i]) < 0);
    }
    if regimes_conflict(m) {
        let i = choose|i: int| 0 <= i < m.len() && regime_direction_of(m[i]) > 0;
        let j = choose|j: int| 0 <= j < m.len() && regime_direction_of(m[j]) < 0;
        assert(m[i] == mirrored_regime(regimes[i]) && m[j] == mirrored_regime(regimes[j]));
        assert(regime_direction_of(regimes[j]) > 0 && regime_direction_of(regimes[i]) < 0);
    }
}

/// Timeframes conflict exactly when one points up and another points
/// down: regimes that never point down, or never point up, are not in
/// conflict, and any list holding an up and a down regime is.
pub proof fn conflict_needs_both_directions(regimes: Seq<MarketRegime>, i: int, j: int)
    ensures
        (forall|k: int| 0 <= k < regimes.len() ==> regime_direction_of(#[trigger] regimes[k]) >= 0)
            ==> !regimes_conflict(regimes),
        (forall|k: int| 0 <= k < regimes.len() ==> regime_direction_of(#[trigger] regimes[k]) <= 0)
            ==> !regimes_conflict(regimes),
        0 <= i < regimes.len() && 0 <= j < regimes.len() && regime_direction_of(regimes[i]) > 0
            && regime_direction_of(regimes[j]) < 0 ==> regimes_conflict(regimes),
{
}

/// The decision on the other side of the market: longs and shorts swap,
/// watches swap, neutral and no-trade stay.
pub open spec fn mirrored(d: Decision) -> Decision {
    match d {
        Decision::StrongLong => Decision::StrongShort,
        Decision::Long => Decision::Short,
        Decision::WatchLong => Decision::WatchShort,
        Decision::Neutral => Decision::Neutral,
        Decision::WatchShort => Decision::WatchLong,
        Decision::Short => Decision::Long,
        Decision::StrongShort => Decision::StrongLong,
        Decision::NoTrade => Decision::NoTrade,
    }
}

/// The decision with its setup made strong; other decisions stay.
pub open spec fn strengthened(d: Decision) -> Decision {
    match d {
        Decision::Long => Decision::StrongLong,
        Decision::Short => Decision::StrongShort,
        other => other,
    }
}

/// A decision's direction agrees with the label users see: `LONG` exactly
/// for the decisions that go long, `SHORT` exactly for those that go short,
/// `NO TRADE` only for the no-trade decision and `WATCH` for the other
/// non-directional ones. Mirroring a decision reverses its direction.
pub proof fn direction_matches_label(d: Decision)
    ensures
        product_label(d) == "LONG"@ <==> decision_direction_of(d) == 1,
        product_label(d) == "SHORT"@ <==> decision_direction_of(d) == -1,
        product_label(d) == "NO TRADE"@ <==> d == Decision::NoTrade,
        product_label(d) == "WATCH"@ <==> decision_direction_of(d) == 0 && d != Decision::NoTrade,
        product_label_of_name(decision_name(d)) == "NO TRADE"@ <==> d == Decision::NoTrade,
        decision_direction_of(mirrored(d)) == -decision_direction_of(d),
        decision_direction_of(strengthened(d)) == decision_direction_of(d),
        product_label(mirrored(d)) == "LONG"@ <==> product_label(d) == "SHORT"@,
{
    reveal_strlit("LONG");
    reveal_strlit("SHORT");
    reveal_strlit("NO TRADE");
    reveal_strlit("WATCH");
    published_name_keeps_label(d);
    let (l, sh, n, w) = ("LONG"@, "SHORT"@, "NO TRADE"@, "WATCH"@);
    assert(l.len() == 4 && n.len() == 8 && sh.len() == 5 && w.len() == 5);
    assert(sh[0] != w[0]);
    assert(l != sh && l != n && l != w && sh != n && sh != w && n != w);
}

/// How trustworthy an empirical win rate from `n` outcomes is.
pub open spec fn calibration_level_of(n: nat) -> ConfidenceLevel {
    if n < 30 {
        ConfidenceLevel::InsufficientData
    } else if n >= 1000 {
        ConfidenceLevel::VeryHigh
    } else if n >= 300 {
        ConfidenceLevel::High
    } else if n >= 100 {
        ConfidenceLevel::Medium
    } else {
        ConfidenceLevel::Low
    }
}

pub fn calibration_level(n: usize) -> (c: ConfidenceLevel)
    ensures
        c == calibration_level_of(n as nat),
{
    if n < 30 {
        ConfidenceLevel::InsufficientData
    } else if n >= 1000 {
        ConfidenceLevel::VeryHigh
    } else if n >= 300 {
        ConfidenceLevel::High
    } else if n >= 100 {
        ConfidenceLevel::Medium
    } else {
        ConfidenceLevel::Low
    }
}

/// More outcomes never make the calibration less trustworthy.
pub proof fn calibration_level_monotone(a: nat, b: nat)
    requires
        a <= b,
    ensures
        level_rank(calibration_level_of(a)) <= level_rank(calibration_level_of(b)),
{
}

/// The order of confidence levels, lowest first.
pub open spec fn level_rank(c: ConfidenceLevel) -> int {
    match c {
        ConfidenceLevel::InsufficientData => 0,
        ConfidenceLevel::Low => 1,
        ConfidenceLevel::Medium => 2,
        ConfidenceLevel::High => 3,
        ConfidenceLevel::VeryHigh => 4,
    }
}

/// Number of outcomes that were wins.
pub open spec fn count_wins(outcomes: Seq<bool>) -> nat
    decreases outcomes.len(),
{
    if outcomes.len() == 0 {
        0
    } else {
        count_wins(outcomes.drop_last()) + if outcomes.last() { 1nat } else { 0nat }
    }
}

/// The win count is the number of outcomes that were wins: the length of
/// the outcomes filtered to the wins. A run of only wins counts its own
/// length, a run of only losses counts zero, and wins never outnumber the
/// outcomes.
pub proof fn wins_count_the_winning_outcomes(outcomes: Seq<bool>)
    ensures
        count_wins(outcomes) == outcomes.filter(|b: bool| b).len(),
        count_wins(outcomes) <= outcomes.len(),
        (forall|i: int| 0 <= i < outcomes.len() ==> #[trigger] outcomes[i]) ==> count_wins(outcomes) == outcomes.len(),
        (forall|i: int| 0 <= i < outcomes.len() ==> !#[trigger] outcomes[i]) ==> count_wins(outcomes) == 0,
    decreases outcomes.len(),
{
    reveal(Seq::filter);
    if outcomes.len() > 0 {
        let init = outcomes.drop_last();
        wins_count_the_winning_outcomes(init);
        assert(outcomes.last() == outcomes[outcomes.len() - 1]);
        if forall|i: int| 0 <= i < outcomes.len() ==> #[trigger] outcomes[i] {
            assert forall|i: int| 0 <= i < init.len() implies #[trigger] init[i] by {
                assert(init[i] == outcomes[i]);
            }
        }
        if forall|i: int| 0 <= i < outcomes.len() ==> !#[trigger] outcomes[i] {
            assert forall|i: int| 0 <= i < init.len() implies !#[trigger] init[i] by {
                assert(init[i] == outcomes[i]);
            }
        }
    }
}

pub fn wins(outcomes: &Vec<bool>) -> (n: usize)
    ensures
        n == count_wins(outcomes@),
{
    let mut n: usize = 0;
    let mut i: usize = 0;
    while i < outcomes.len()
        invariant
            i <= outcomes.len(),
            n == count_wins(outcomes@.take(i as int)),
            n <= i,
        decreases outcomes.len() - i,
    {
        assert(outcomes@.take(i + 1).drop_last() =~= outcomes@.take(i as int));
        if outcomes[i] {
            n += 1;
        }
        i += 1;
    }
    assert(outcomes@.take(outcomes.len() as int) =~= outcomes@);
    n
}

/// Freshness report of one data source.
#[derive(Debug, Clone)]
pub struct DataSourceHealth {
    pub name: String,
    pub age_ms: i64,
    pub max_age_ms: i64,
    pub present: bool,
}

/// How a source counts towards data quality.
pub open spec fn source_missing(s: DataSourceHealth) -> bool {
    !s.present
}

pub open spec fn source_stale(s: DataSourceHealth) -> bool {
    s.present && (s.age_ms < 0 || s.age_ms > s.max_age_ms)
}

pub open spec fn source_fresh(s: DataSourceHealth) -> bool {
    s.present && 0 <= s.age_ms <= s.max_age_ms
}

/// Names of the sources satisfying `p`, in order.
pub open spec fn names_where(sources: Seq<DataSourceHealth>, p: spec_fn(DataSourceHealth) -> bool) -> Seq<Seq<char>>
    decreases sources.len(),
{
    if sources.len() == 0 {
        Seq::empty()
    } else {
        let rest = names_where(sources.drop_last(), p);
        if p(sources.last()) { rest.push(sources.last().name@) } else { rest }
    }
}

/// Number of sources satisfying `p`.
pub open spec fn count_where(sources: Seq<DataSourceHealth>, p: spec_fn(DataSourceHealth) -> bool) -> nat
    decreases sources.len(),
{
    if sources.len() == 0 {
        0
    } else {
        count_where(sources.drop_last(), p) + if p(sources.last()) { 1nat } else { 0nat }
    }
}

/// Which sources are missing, which are stale and how many are fresh.
pub struct SourceReport {
    pub missing: Vec<String>,
    pub stale: Vec<String>,
    pub fresh: usize,
}

/// Sorts data sources into missing, stale and fresh, as the data-quality
/// score counts them.
pub fn classify_sources(sources: &Vec<DataSourceHealth>) -> (r: SourceReport)
    ensures
        r.missing.deep_view() == names_where(sources@, |s: DataSourceHealth| source_missing(s)),
        r.stale.deep_view() == names_where(sources@, |s: DataSourceHealth| source_stale(s)),
        r.fresh == count_where(sources@, |s: DataSourceHealth| source_fresh(s)),
{
    let mut missing: Vec<String> = Vec::new();
    let mut stale: Vec<String> = Vec::new();
    let mut fresh: usize = 0;
    let mut i: usize = 0;
    while i < sources.len()
        invariant
            i <= sources.len(),
            missing.deep_view() == names_where(sources@.take(i as int), |s: DataSourceHealth| source_missing(s)),
            stale.deep_view() == names_where(sources@.take(i as int), |s: DataSourceHealth| source_stale(s)),
            fresh == count_where(sources@.take(i as int), |s: DataSourceHealth| source_fresh(s)),
            fresh <= i,
        decreases sources.len() - i,
    {
        let s = &sources[i];
        let ghost prefix = sources@.take(i + 1);
        assert(prefix.drop_last() =~= sources@.take(i as int));
        assert(prefix.last() == *s);
        let ghost m0 = missing.deep_view();
        let ghost s0 = stale.deep_view();
        if !s.present {
            missing.push(s.name.clone());
            assert(missing.deep_view() =~= m0.push(s.name@));
        } else if s.age_ms < 0 || s.age_ms > s.max_age_ms {
            stale.push(s.name.clone());
            assert(stale.deep_view() =~= s0.push(s.name@));
        } else {
            fresh += 1;
        }
        i += 1;
    }
    assert(sources@.take(sources.len() as int) =~= sources@);
    SourceReport { missing, stale, fresh }
}

/// Whether a closed candle of `interval` is a persisted decision sample:
/// only the primary 1m series is.
pub fn is_decision_sample_interval(interval: &str) -> (r: bool)
    ensures
        r == (interval@ == "1m"@),
{
    str_eq(interval, "1m")
}

} // verus!
