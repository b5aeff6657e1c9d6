//! Edge-triggered score alarms: an alarm fires when its symbol's score
//! rises to its threshold, and again only after the score has been below
//! it. Thresholds are compared by a caller-supplied test, so the registry
//! holds them as opaque values.

use vstd::prelude::*;
use crate::text::str_eq;

verus! {

broadcast use vstd::string::group_string_axioms;

/// One alarm: who set it, on which symbol, at which threshold, and whether
/// the last score seen was at or above the threshold.
#[derive(Debug)]
pub struct Alarm<T> {
    pub telegram_id: i64,
    pub symbol: String,
    pub threshold: T,
    pub was_above: bool,
}

/// An alarm as values.
pub open spec fn alarm_view<T>(a: Alarm<T>) -> (i64, Seq<char>, T, bool) {
    (a.telegram_id, a.symbol@, a.threshold, a.was_above)
}

/// A list of alarms as values.
pub open spec fn alarm_views<T>(v: Seq<Alarm<T>>) -> Seq<(i64, Seq<char>, T, bool)> {
    v.map_values(|a: Alarm<T>| alarm_view(a))
}

/// The alarms of `s` other than the one `id` holds on `symbol`, in order.
pub open spec fn without<T>(s: Seq<(i64, Seq<char>, T, bool)>, id: i64, symbol: Seq<char>) -> Seq<(i64, Seq<char>, T, bool)>
    decreases s.len(),
{
    if s.len() == 0 {
        s
    } else {
        let rest = without(s.drop_last(), id, symbol);
        if s.last().0 == id && s.last().1 == symbol {
            rest
        } else {
            rest.push(s.last())
        }
    }
}

/// The `(telegram id, threshold)` of every alarm on `symbol` that went from
/// below to at-or-above between `before` and `after`, in order.
pub open spec fn newly_above<T>(
    before: Seq<(i64, Seq<char>, T, bool)>,
    after: Seq<(i64, Seq<char>, T, bool)>,
    symbol: Seq<char>,
) -> Seq<(i64, T)>
    decreases before.len(),
{
    if before.len() == 0 || after.len() != before.len() {
        Seq::empty()
    } else {
        let rest = newly_above(before.drop_last(), after.drop_last(), symbol);
        let (b, a) = (before.last(), after.last());
        if b.1 == symbol && a.3 && !b.3 {
            rest.push((b.0, b.2))
        } else {
            rest
        }
    }
}

/// An alarm fires only on the way up: when every alarm on `symbol` was
/// already at or above its threshold, recording another score of `symbol`
/// fires none of them, whatever the score.
pub proof fn no_second_firing_while_above<T>(
    before: Seq<(i64, Seq<char>, T, bool)>,
    after: Seq<(i64, Seq<char>, T, bool)>,
    symbol: Seq<char>,
)
    requires
        forall|k: int| 0 <= k < before.len() && (#[trigger] before[k]).1 == symbol ==> before[k].3,
    ensures
        newly_above(before, after, symbol) == Seq::<(i64, T)>::empty(),
    decreases before.len(),
{
    if before.len() > 0 && after.len() == before.len() {
        let b = before.drop_last();
        assert forall|k: int| 0 <= k < b.len() && (#[trigger] b[k]).1 == symbol implies b[k].3 by {
            assert(b[k] == before[k]);
        }
        no_second_firing_while_above(b, after.drop_last(), symbol);
        assert(before.last() == before[before.len() - 1]);
    }
}

/// No user holds two alarms on one symbol in `s`.
pub open spec fn one_per_user_and_symbol<T>(s: Seq<(i64, Seq<char>, T, bool)>) -> bool {
    forall|i: int, j: int|
        0 <= i < j < s.len() ==> !((#[trigger] s[i]).0 == (#[trigger] s[j]).0 && s[i].1 == s[j].1)
}

proof fn lemma_without<T>(s: Seq<(i64, Seq<char>, T, bool)>, id: i64, symbol: Seq<char>)
    ensures
        forall|k: int| 0 <= k < without(s, id, symbol).len() ==> s.contains(#[trigger] without(s, id, symbol)[k]),
        forall|k: int|
            0 <= k < without(s, id, symbol).len() ==> !((#[trigger] without(s, id, symbol)[k]).0 == id
                && without(s, id, symbol)[k].1 == symbol),
        one_per_user_and_symbol(s) ==> one_per_user_and_symbol(without(s, id, symbol)),
    decreases s.len(),
{
    if s.len() > 0 {
        let d = s.drop_last();
        lemma_without(d, id, symbol);
        let rest = without(d, id, symbol);
        let w = without(s, id, symbol);
        assert forall|k: int| 0 <= k < rest.len() implies s.contains(#[trigger] rest[k]) by {
            let j = choose|j: int| 0 <= j < d.len() && d[j] == rest[k];
            assert(s[j] == rest[k]);
        }
        if one_per_user_and_symbol(s) {
            assert forall|i: int, j: int| 0 <= i < j < d.len() implies !((#[trigger] d[i]).0 == (#[trigger] d[j]).0
                && d[i].1 == d[j].1) by {
                assert(d[i] == s[i] && d[j] == s[j]);
            }
        }
        if !(s.last().0 == id && s.last().1 == symbol) {
            assert(w == rest.push(s.last()));
            assert(s.contains(s.last())) by {
                assert(s[s.len() - 1] == s.last());
            }
            if one_per_user_and_symbol(s) {
                assert forall|i: int, j: int| 0 <= i < j < w.len() implies !((#[trigger] w[i]).0 == (#[trigger] w[j]).0
                    && w[i].1 == w[j].1) by {
                    if j == w.len() - 1 {
                        assert(w[j] == s.last());
                        assert(w[i] == rest[i]);
                        let m = choose|m: int| 0 <= m < d.len() && d[m] == rest[i];
                        assert(s[m] == d[m]);
                        assert(s[s.len() - 1] == s.last());
                    } else {
                        assert(w[i] == rest[i] && w[j] == rest[j]);
                    }
                }
            }
        }
    }
}

/// Setting an alarm replaces the user's earlier alarm on that symbol, so a
/// registry never holds two alarms of one user on one symbol.
pub proof fn set_keeps_one_alarm_per_user_and_symbol<T>(
    s: Seq<(i64, Seq<char>, T, bool)>,
    id: i64,
    symbol: Seq<char>,
    threshold: T,
)
    requires
        one_per_user_and_symbol(s),
    ensures
        one_per_user_and_symbol(without(s, id, symbol).push((id, symbol, threshold, false))),
{
    lemma_without(s, id, symbol);
    let w = without(s, id, symbol);
    let n = w.push((id, symbol, threshold, false));
    assert forall|i: int, j: int| 0 <= i < j < n.len() implies !((#[trigger] n[i]).0 == (#[trigger] n[j]).0
        && n[i].1 == n[j].1) by {
        assert(n[i] == w[i]);
        if j < w.len() {
            assert(n[j] == w[j]);
        }
    }
}

/// The telegram ids of the alarms of `s` on `symbol`, in order.
pub open spec fn ids_on<T>(s: Seq<(i64, Seq<char>, T, bool)>, symbol: Seq<char>) -> Seq<i64>
    decreases s.len(),
{
    if s.len() == 0 {
        Seq::empty()
    } else {
        let rest = ids_on(s.drop_last(), symbol);
        if s.last().1 == symbol {
            rest.push(s.last().0)
        } else {
            rest
        }
    }
}

/// Every alarm set, in the order they were set.
pub struct AlarmRegistry<T> {
    alarms: Vec<Alarm<T>>,
}

impl<T: Copy> AlarmRegistry<T> {
    /// The alarms as values.
    pub closed spec fn alarms(&self) -> Seq<(i64, Seq<char>, T, bool)> {
        alarm_views(self.alarms@)
    }

    pub fn new() -> (r: Self)
        ensures
            r.alarms() == Seq::<(i64, Seq<char>, T, bool)>::empty(),
    {
        let r = AlarmRegistry { alarms: Vec::new() };
        assert(r.alarms() =~= Seq::<(i64, Seq<char>, T, bool)>::empty());
        r
    }

    /// Sets `telegram_id`'s alarm on `symbol`, replacing an earlier one; a
    /// new alarm starts as below its threshold.
    pub fn set(&mut self, telegram_id: i64, symbol: &str, threshold: T)
        ensures
            final(self).alarms() == without(old(self).alarms(), telegram_id, symbol@).push(
                (telegram_id, symbol@, threshold, false),
            ),
    {
        let ghost before = self.alarms();
        let mut kept: Vec<Alarm<T>> = Vec::new();
        let mut i: usize = 0;
        while i < self.alarms.len()
            invariant
                i <= self.alarms.len(),
                before == alarm_views(self.alarms@),
                alarm_views(kept@) == without(before.take(i as int), telegram_id, symbol@),
            decreases self.alarms.len() - i,
        {
            let a = &self.alarms[i];
            let ghost prior = alarm_views(kept@);
            assert(before.take(i + 1).drop_last() =~= before.take(i as int));
            assert(before.take(i + 1).last() == alarm_view(self.alarms@[i as int]));
            if !(a.telegram_id == telegram_id && str_eq(a.symbol.as_str(), symbol)) {
                let copy = Alarm { telegram_id: a.telegram_id, symbol: a.symbol.clone(), threshold: a.threshold, was_above: a.was_above };
                kept.push(copy);
                assert(alarm_views(kept@) =~= prior.push(alarm_view(self.alarms@[i as int])));
            }
            i += 1;
        }
        assert(before.take(self.alarms.len() as int) =~= before);
        let ghost prior = alarm_views(kept@);
        kept.push(Alarm { telegram_id, symbol: crate::text::string_from(symbol), threshold, was_above: false });
        assert(alarm_views(kept@) =~= prior.push((telegram_id, symbol@, threshold, false)));
        self.alarms = kept;
    }

    /// Records a score of `symbol`: `is_above` tells whether the score is at
    /// or above a threshold. Every alarm on `symbol` remembers the answer;
    /// those that were below and now are not are returned.
    pub fn crossed<F: Fn(&T) -> bool>(&mut self, symbol: &str, is_above: F) -> (fired: Vec<(i64, T)>)
        requires
            forall|t: &T| #[trigger] is_above.requires((t,)),
        ensures
            final(self).alarms().len() == old(self).alarms().len(),
            forall|k: int|
                0 <= k < old(self).alarms().len() ==> {
                    let (b, a) = (old(self).alarms()[k], #[trigger] final(self).alarms()[k]);
                    &&& a.0 == b.0 && a.1 == b.1 && a.2 == b.2
                    &&& b.1 == symbol@ ==> is_above.ensures((&b.2,), a.3)
                    &&& b.1 != symbol@ ==> a.3 == b.3
                },
            fired@ == newly_above(old(self).alarms(), final(self).alarms(), symbol@),
    {
        let ghost before = self.alarms();
        let mut updated: Vec<Alarm<T>> = Vec::new();
        let mut fired: Vec<(i64, T)> = Vec::new();
        let mut i: usize = 0;
        while i < self.alarms.len()
            invariant
                i <= self.alarms.len(),
                forall|t: &T| #[trigger] is_above.requires((t,)),
                before == alarm_views(self.alarms@),
                updated@.len() == i,
                forall|k: int|
                    0 <= k < i ==> {
                        let (b, a) = (before[k], #[trigger] alarm_views(updated@)[k]);
                        &&& a.0 == b.0 && a.1 == b.1 && a.2 == b.2
                        &&& b.1 == symbol@ ==> is_above.ensures((&b.2,), a.3)
                        &&& b.1 != symbol@ ==> a.3 == b.3
                    },
                fired@ == newly_above(before.take(i as int), alarm_views(updated@), symbol@),
            decreases self.alarms.len() - i,
        {
            let a = &self.alarms[i];
            let ghost prior = alarm_views(updated@);
            let matches = str_eq(a.symbol.as_str(), symbol);
            let above = if matches { is_above(&a.threshold) } else { a.was_above };
            if matches && above && !a.was_above {
                fired.push((a.telegram_id, a.threshold));
            }
            let copy = Alarm { telegram_id: a.telegram_id, symbol: a.symbol.clone(), threshold: a.threshold, was_above: above };
            updated.push(copy);
            proof {
                let now = alarm_views(updated@);
                assert(now =~= prior.push(alarm_view(updated@[i as int])));
                assert(now.drop_last() =~= prior);
                assert(before.take(i + 1).drop_last() =~= before.take(i as int));
                assert(before.take(i + 1).last() == before[i as int]);
                assert(forall|k: int| 0 <= k < i ==> now[k] == prior[k]);
            }
            i += 1;
        }
        assert(before.take(self.alarms.len() as int) =~= before);
        self.alarms = updated;
        fired
    }

    /// The Telegram ids with an alarm on `symbol`, in the order set.
    pub fn subscribers(&self, symbol: &str) -> (ids: Vec<i64>)
        ensures
            ids@ == ids_on(self.alarms(), symbol@),
    {
        let ghost all = self.alarms();
        let mut ids: Vec<i64> = Vec::new();
        let mut i: usize = 0;
        while i < self.alarms.len()
            invariant
                i <= self.alarms.len(),
                all == alarm_views(self.alarms@),
                ids@ == ids_on(all.take(i as int), symbol@),
            decreases self.alarms.len() - i,
        {
            assert(all.take(i + 1).drop_last() =~= all.take(i as int));
            assert(all.take(i + 1).last() == alarm_view(self.alarms@[i as int]));
            if str_eq(self.alarms[i].symbol.as_str(), symbol) {
                ids.push(self.alarms[i].telegram_id);
            }
            i += 1;
        }
        assert(all.take(self.alarms.len() as int) =~= all);
        ids
    }
}

} // verus!
