//! Sliding-window rate limiting for authentication endpoints, keyed by the
//! normalized identifier an attempt was made against.

use vstd::prelude::*;
use vstd::hash_map::StringHashMap;
use vstd::string::*;
use std::collections::VecDeque;
use crate::clock::{instant_now, nanos_since};

verus! {

broadcast use vstd::string::group_string_axioms;

/// Whether an attempt recorded at `t` has left a window of `window` at time
/// `now` (an attempt from the future counts as just made). Times and windows
/// are in nanoseconds on the limiter's clock.
pub open spec fn expired(t: u64, now: u64, window: u64) -> bool {
    now > t && now - t > window
}

/// The attempts left after dropping expired ones from the front, oldest
/// first, as the limiter does before counting.
pub open spec fn pruned(attempts: Seq<u64>, now: u64, window: u64) -> Seq<u64>
    decreases attempts.len(),
{
    if attempts.len() > 0 && expired(attempts[0], now, window) {
        pruned(attempts.drop_first(), now, window)
    } else {
        attempts
    }
}

/// Records attempt times per key, oldest first.
pub struct RateLimiter {
    origin: std::time::Instant,
    attempts: StringHashMap<VecDeque<u64>>,
}

impl RateLimiter {
    /// The attempt times recorded for each key, in nanoseconds since the
    /// limiter was created, oldest first.
    pub closed spec fn history(&self) -> Map<Seq<char>, Seq<u64>> {
        self.attempts@.map_values(|d: VecDeque<u64>| d@)
    }

    /// The attempts recorded for `key` (none when it was never seen).
    pub open spec fn recorded(&self, key: Seq<char>) -> Seq<u64> {
        if self.history().contains_key(key) {
            self.history()[key]
        } else {
            Seq::empty()
        }
    }

    /// A limiter with no recorded attempts.
    pub fn new() -> (r: Self)
        ensures
            r.history() == Map::<Seq<char>, Seq<u64>>::empty(),
    {
        let r = RateLimiter { origin: instant_now(), attempts: StringHashMap::new() };
        assert(r.history() =~= Map::<Seq<char>, Seq<u64>>::empty());
        r
    }

    /// Records an attempt for `key` at `now_ns` and returns whether it is
    /// allowed: fewer than `max` attempts remain within the last
    /// `window_ns` once expired ones are dropped. Expired attempts are
    /// forgotten either way; a refused attempt is not recorded.
    pub fn check_at(&mut self, key: &str, max: usize, window_ns: u64, now_ns: u64) -> (allowed: bool)
        ensures
            allowed == (pruned(old(self).recorded(key@), now_ns, window_ns).len() < max),
            final(self).history() == old(self).history().insert(
                key@,
                if allowed {
                    pruned(old(self).recorded(key@), now_ns, window_ns).push(now_ns)
                } else {
                    pruned(old(self).recorded(key@), now_ns, window_ns)
                },
            ),
    {
        let mut entry: VecDeque<u64> = match self.attempts.get(key) {
            Some(d) => d.clone(),
            None => VecDeque::new(),
        };
        assert(entry@ == old(self).recorded(key@));
        while entry.len() > 0 && now_ns > entry[0] && now_ns - entry[0] > window_ns
            invariant
                pruned(entry@, now_ns, window_ns) == pruned(old(self).recorded(key@), now_ns, window_ns),
            decreases entry@.len(),
        {
            let ghost before = entry@;
            entry.pop_front();
            assert(entry@ == before.drop_first());
        }
        assert(pruned(entry@, now_ns, window_ns) == entry@);
        let allowed = entry.len() < max;
        if allowed {
            entry.push_back(now_ns);
        }
        let ghost recorded = entry@;
        self.attempts.insert(String::from_str(key), entry);
        assert(self.history() =~= old(self).history().insert(key@, recorded));
        allowed
    }

    /// The limiter's clock: nanoseconds since it was created, as the
    /// monotonic clock reads them.
    pub fn now_ns(&self) -> u64 {
        nanos_since(&self.origin)
    }

    /// Records an attempt for `key` now and returns whether it is allowed
    /// (fewer than `max` attempts within the last `window_ns` nanoseconds); `false`
    /// means the caller should be answered with 429.
    pub fn check(&mut self, key: &str, max: usize, window_ns: u64) -> (allowed: bool)
        ensures
            exists|now: u64| {
                &&& allowed == (pruned(old(self).recorded(key@), now, window_ns).len() < max)
                &&& final(self).history() == old(self).history().insert(
                    key@,
                    if allowed {
                        pruned(old(self).recorded(key@), now, window_ns).push(now)
                    } else {
                        pruned(old(self).recorded(key@), now, window_ns)
                    },
                )
            },
    {
        let now = nanos_since(&self.origin);
        self.check_at(key, max, window_ns, now)
    }
}

impl Default for RateLimiter {
    fn default() -> (r: Self)
        ensures
            r.history() == Map::<Seq<char>, Seq<u64>>::empty(),
    {
        RateLimiter::new()
    }
}

/// Attempts are counted per key: checking one key leaves every other key's
/// record untouched.
pub proof fn keys_are_independent(
    before: &RateLimiter,
    after: &RateLimiter,
    key: Seq<char>,
    other: Seq<char>,
    entry: Seq<u64>,
)
    requires
        after.history() == before.history().insert(key, entry),
        other != key,
    ensures
        after.recorded(other) == before.recorded(other),
{
}

proof fn lemma_pruned_fixed(attempts: Seq<u64>, now: u64, window: u64)
    ensures
        pruned(pruned(attempts, now, window), now, window) == pruned(attempts, now, window),
        pruned(attempts, now, window).len() > 0 ==> !expired(pruned(attempts, now, window)[0], now, window),
    decreases attempts.len(),
{
    if attempts.len() > 0 && expired(attempts[0], now, window) {
        lemma_pruned_fixed(attempts.drop_first(), now, window);
    }
}

/// Whether the attempt times are in the order they were made, oldest
/// first.
pub open spec fn oldest_first(attempts: Seq<u64>) -> bool {
    forall|i: int, j: int| 0 <= i <= j < attempts.len() ==> attempts[i] <= attempts[j]
}

proof fn lemma_filter_keeps_all(s: Seq<u64>, p: spec_fn(u64) -> bool)
    requires
        forall|i: int| 0 <= i < s.len() ==> p(#[trigger] s[i]),
    ensures
        s.filter(p) == s,
    decreases s.len(),
{
    reveal(Seq::filter);
    if s.len() > 0 {
        let d = s.drop_last();
        assert forall|i: int| 0 <= i < d.len() implies p(#[trigger] d[i]) by {
            assert(d[i] == s[i]);
        }
        lemma_filter_keeps_all(d, p);
        assert(p(s[s.len() - 1]));
        assert(d.push(s.last()) =~= s);
    }
}

/// Pruning keeps exactly the attempts inside the window: when the attempt
/// times are oldest first, what the limiter keeps (and counts) for a key is
/// the recorded attempts that have not left the window.
pub proof fn pruned_is_the_window(attempts: Seq<u64>, now: u64, window: u64)
    requires
        oldest_first(attempts),
    ensures
        pruned(attempts, now, window) == attempts.filter(|t: u64| !expired(t, now, window)),
    decreases attempts.len(),
{
    let p = |t: u64| !expired(t, now, window);
    if attempts.len() > 0 {
        if expired(attempts[0], now, window) {
            let rest = attempts.drop_first();
            assert(oldest_first(rest)) by {
                assert forall|i: int, j: int| 0 <= i <= j < rest.len() implies rest[i] <= rest[j] by {
                    assert(rest[i] == attempts[i + 1] && rest[j] == attempts[j + 1]);
                }
            }
            pruned_is_the_window(rest, now, window);
            assert(attempts =~= seq![attempts[0]] + rest);
            Seq::filter_distributes_over_add(seq![attempts[0]], rest, p);
            assert(attempts.filter(p) == seq![attempts[0]].filter(p) + rest.filter(p));
            assert(seq![attempts[0]].drop_last() =~= Seq::<u64>::empty());
            reveal_with_fuel(Seq::filter, 2);
            assert(seq![attempts[0]].filter(p) =~= Seq::<u64>::empty());
            assert(Seq::<u64>::empty() + rest.filter(p) =~= rest.filter(p));
        } else {
            assert forall|i: int| 0 <= i < attempts.len() implies p(#[trigger] attempts[i]) by {
                assert(attempts[0] <= attempts[i]);
            }
            lemma_filter_keeps_all(attempts, p);
        }
    }
}

proof fn lemma_pruned_suffix(attempts: Seq<u64>, now: u64, window: u64)
    ensures
        pruned(attempts, now, window).len() <= attempts.len(),
        pruned(attempts, now, window) == attempts.subrange(
            attempts.len() - pruned(attempts, now, window).len(),
            attempts.len() as int,
        ),
    decreases attempts.len(),
{
    if attempts.len() > 0 && expired(attempts[0], now, window) {
        lemma_pruned_suffix(attempts.drop_first(), now, window);
        assert(attempts.drop_first().subrange(
            attempts.drop_first().len() - pruned(attempts, now, window).len(),
            attempts.drop_first().len() as int,
        ) =~= attempts.subrange(attempts.len() - pruned(attempts, now, window).len(), attempts.len() as int));
    } else {
        assert(attempts.subrange(0, attempts.len() as int) =~= attempts);
    }
}

/// With a clock that does not run backwards, recording an attempt keeps a
/// key's attempts oldest first.
pub proof fn recording_keeps_order(attempts: Seq<u64>, now: u64, window: u64)
    requires
        oldest_first(attempts),
        forall|i: int| 0 <= i < attempts.len() ==> #[trigger] attempts[i] <= now,
    ensures
        oldest_first(pruned(attempts, now, window)),
        oldest_first(pruned(attempts, now, window).push(now)),
{
    lemma_pruned_suffix(attempts, now, window);
    let p = pruned(attempts, now, window);
    let k = attempts.len() - p.len();
    assert forall|i: int| 0 <= i < p.len() implies #[trigger] p[i] == attempts[k + i] by {}
    let q = p.push(now);
    assert forall|i: int, j: int| 0 <= i <= j < q.len() implies q[i] <= q[j] by {
        if j < p.len() {
            assert(q[i] == attempts[k + i] && q[j] == attempts[k + j]);
        } else if i < p.len() {
            assert(q[i] == attempts[k + i]);
        }
    }
    assert forall|i: int, j: int| 0 <= i <= j < p.len() implies p[i] <= p[j] by {
        assert(p[i] == attempts[k + i] && p[j] == attempts[k + j]);
    }
}

/// A refused key stays refused for another attempt at the same instant.
pub proof fn refusal_is_stable(attempts: Seq<u64>, now: u64, window: u64, max: nat)
    requires
        pruned(attempts, now, window).len() >= max,
    ensures
        pruned(pruned(attempts, now, window), now, window).len() >= max,
{
    lemma_pruned_fixed(attempts, now, window);
}

/// An allowed attempt is counted by the next check at the same instant:
/// nothing recorded at or after the pruning point is dropped again.
pub proof fn allowed_attempt_is_counted(attempts: Seq<u64>, now: u64, window: u64)
    ensures
        pruned(pruned(attempts, now, window).push(now), now, window) == pruned(attempts, now, window).push(now),
{
    lemma_pruned_fixed(attempts, now, window);
    let p = pruned(attempts, now, window);
    assert(p.push(now)[0] == if p.len() > 0 { p[0] } else { now });
}

} // verus!
