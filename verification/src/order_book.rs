//! The locally maintained Bybit order book: snapshots replace a side,
//! deltas set or remove single price levels.

use vstd::prelude::*;
use crate::text::{str_eq, string_from};

verus! {

broadcast use vstd::string::group_string_axioms;

/// The book a list of `(price, quantity)` levels describes.
pub open spec fn book_of(levels: Seq<(Seq<char>, Seq<char>)>) -> Map<Seq<char>, Seq<char>>
    decreases levels.len(),
{
    if levels.len() == 0 {
        Map::empty()
    } else {
        book_of(levels.drop_last()).insert(levels.last().0, levels.last().1)
    }
}

/// No price occurs twice.
pub open spec fn distinct_prices(levels: Seq<(Seq<char>, Seq<char>)>) -> bool {
    forall|i: int, j: int| 0 <= i < j < levels.len() ==> (#[trigger] levels[i]).0 != (#[trigger] levels[j]).0
}

/// The levels of `v` as values.
pub open spec fn level_views(v: Seq<(String, String)>) -> Seq<(Seq<char>, Seq<char>)> {
    v.map_values(|l: (String, String)| (l.0@, l.1@))
}

proof fn lemma_book_dom(levels: Seq<(Seq<char>, Seq<char>)>, price: Seq<char>)
    ensures
        book_of(levels).dom().contains(price) <==> exists|i: int| 0 <= i < levels.len() && (#[trigger] levels[i]).0 == price,
    decreases levels.len(),
{
    if levels.len() > 0 {
        let rest = levels.drop_last();
        lemma_book_dom(rest, price);
        if book_of(levels).dom().contains(price) && price != levels.last().0 {
            let i = choose|i: int| 0 <= i < rest.len() && (#[trigger] rest[i]).0 == price;
            assert(levels[i] == rest[i]);
        }
        if exists|i: int| 0 <= i < levels.len() && (#[trigger] levels[i]).0 == price {
            let i = choose|i: int| 0 <= i < levels.len() && (#[trigger] levels[i]).0 == price;
            if i < levels.len() - 1 {
                assert(rest[i] == levels[i]);
            }
        }
    }
}

proof fn lemma_book_set(levels: Seq<(Seq<char>, Seq<char>)>, i: int, quantity: Seq<char>)
    requires
        distinct_prices(levels),
        0 <= i < levels.len(),
    ensures
        book_of(levels.update(i, (levels[i].0, quantity))) =~= book_of(levels).insert(levels[i].0, quantity),
    decreases levels.len(),
{
    let rest = levels.drop_last();
    let updated = levels.update(i, (levels[i].0, quantity));
    if i == levels.len() - 1 {
        assert(updated.drop_last() =~= rest);
    } else {
        assert(updated.drop_last() =~= rest.update(i, (rest[i].0, quantity)));
        lemma_book_set(rest, i, quantity);
        assert(levels[i].0 != levels.last().0);
    }
}

proof fn lemma_book_remove(levels: Seq<(Seq<char>, Seq<char>)>, i: int)
    requires
        distinct_prices(levels),
        0 <= i < levels.len(),
    ensures
        book_of(levels.remove(i)) =~= book_of(levels).remove(levels[i].0),
    decreases levels.len(),
{
    let rest = levels.drop_last();
    if i == levels.len() - 1 {
        assert(levels.remove(i) =~= rest);
        lemma_book_dom(rest, levels[i].0);
        assert(!book_of(rest).dom().contains(levels[i].0));
    } else {
        assert(levels.remove(i).drop_last() =~= rest.remove(i));
        assert(levels.remove(i).last() == levels.last());
        lemma_book_remove(rest, i);
        assert(levels[i].0 != levels.last().0);
    }
}

/// One side of a book: each price at most once, with its quantity. The
/// levels are a list of distinct prices rather than a string-keyed map:
/// the whole side is walked to publish it (`levels`), and vstd's
/// string-keyed map offers no walk over its entries.
pub struct BookSide {
    levels: Vec<(String, String)>,
}

impl View for BookSide {
    type V = Map<Seq<char>, Seq<char>>;

    closed spec fn view(&self) -> Map<Seq<char>, Seq<char>> {
        book_of(level_views(self.levels@))
    }
}

/// The side after one level update: a zero quantity removes the price, any
/// other quantity sets it.
pub open spec fn level_applied(
    side: Map<Seq<char>, Seq<char>>,
    price: Seq<char>,
    quantity: Seq<char>,
    zero: bool,
) -> Map<Seq<char>, Seq<char>> {
    if zero {
        side.remove(price)
    } else {
        side.insert(price, quantity)
    }
}

/// Where `price` sits among `levels`, if it does.
fn find_price(levels: &Vec<(String, String)>, price: &str) -> (r: Option<usize>)
    ensures
        match r {
            Some(i) => i < levels.len() && levels@[i as int].0@ == price@,
            None => forall|k: int| 0 <= k < levels.len() ==> (#[trigger] levels@[k]).0@ != price@,
        },
{
    let mut i: usize = 0;
    while i < levels.len()
        invariant
            i <= levels.len(),
            forall|k: int| 0 <= k < i ==> (#[trigger] levels@[k]).0@ != price@,
        decreases levels.len() - i,
    {
        if str_eq(levels[i].0.as_str(), price) {
            return Some(i);
        }
        i += 1;
    }
    None
}

impl BookSide {
    #[verifier::type_invariant]
    closed spec fn prices_distinct(self) -> bool {
        distinct_prices(level_views(self.levels@))
    }

    pub fn new() -> (s: Self)
        ensures
            s@ == Map::<Seq<char>, Seq<char>>::empty(),
    {
        let s = BookSide { levels: Vec::new() };
        assert(level_views(s.levels@) =~= Seq::<(Seq<char>, Seq<char>)>::empty());
        s
    }

    /// Empties the side.
    pub fn clear(&mut self)
        ensures
            final(self)@ == Map::<Seq<char>, Seq<char>>::empty(),
    {
        self.levels = Vec::new();
        assert(level_views(self.levels@) =~= Seq::<(Seq<char>, Seq<char>)>::empty());
    }

    /// Applies one level update; `zero` says whether the quantity reads as
    /// zero.
    pub fn apply(&mut self, price: &str, quantity: &str, zero: bool)
        ensures
            final(self)@ == level_applied(old(self)@, price@, quantity@, zero),
    {
        proof {
            use_type_invariant(&*self);
        }
        let mut levels: Vec<(String, String)> = Vec::new();
        std::mem::swap(&mut levels, &mut self.levels);
        let ghost before = level_views(levels@);
        let found = find_price(&levels, price);
        if let Some(i) = found {
            assert(before[i as int].0 == price@);
            if zero {
                levels.remove(i);
                proof {
                    assert(level_views(levels@) =~= before.remove(i as int));
                    lemma_book_remove(before, i as int);
                }
            } else {
                levels.set(i, (string_from(price), string_from(quantity)));
                proof {
                    assert(level_views(levels@) =~= before.update(i as int, (before[i as int].0, quantity@)));
                    lemma_book_set(before, i as int, quantity@);
                }
            }
        } else {
            proof {
                lemma_book_dom(before, price@);
                assert forall|k: int| 0 <= k < before.len() implies (#[trigger] before[k]).0 != price@ by {
                    assert(before[k].0 == levels@[k].0@);
                }
            }
            if !zero {
                levels.push((string_from(price), string_from(quantity)));
                assert(level_views(levels@) =~= before.push((price@, quantity@)));
                assert(level_views(levels@).drop_last() =~= before);
            } else {
                assert(book_of(before).remove(price@) =~= book_of(before));
            }
        }
        self.levels = levels;
    }

    /// The levels of the side, each price once, in no particular order.
    pub fn levels(&self) -> (r: Vec<(String, String)>)
        ensures
            distinct_prices(level_views(r@)),
            book_of(level_views(r@)) == self@,
    {
        proof {
            use_type_invariant(self);
        }
        let mut r: Vec<(String, String)> = Vec::new();
        let mut i: usize = 0;
        while i < self.levels.len()
            invariant
                i <= self.levels.len(),
                distinct_prices(level_views(self.levels@)),
                level_views(r@) == level_views(self.levels@).take(i as int),
            decreases self.levels.len() - i,
        {
            let p = self.levels[i].0.clone();
            let q = self.levels[i].1.clone();
            let ghost prior = level_views(r@);
            r.push((p, q));
            assert(level_views(r@) =~= prior.push(level_views(self.levels@)[i as int]));
            assert(level_views(r@) =~= level_views(self.levels@).take(i + 1));
            i += 1;
        }
        assert(level_views(self.levels@).take(self.levels.len() as int) =~= level_views(self.levels@));
        r
    }
}

/// One price level of an update message; `zero` says whether its quantity
/// reads as zero.
#[derive(Debug)]
pub struct LevelUpdate {
    pub price: String,
    pub quantity: String,
    pub zero: bool,
}

/// A side after a list of level updates, applied in order.
pub open spec fn levels_applied(side: Map<Seq<char>, Seq<char>>, updates: Seq<LevelUpdate>) -> Map<Seq<char>, Seq<char>>
    decreases updates.len(),
{
    if updates.len() == 0 {
        side
    } else {
        let u = updates.last();
        level_applied(levels_applied(side, updates.drop_last()), u.price@, u.quantity@, u.zero)
    }
}

/// The side an update message leaves: a snapshot starts from an empty
/// side, a delta from the current one.
pub open spec fn side_after(side: Map<Seq<char>, Seq<char>>, snapshot: bool, updates: Seq<LevelUpdate>) -> Map<Seq<char>, Seq<char>> {
    levels_applied(if snapshot { Map::empty() } else { side }, updates)
}

/// The bids and asks of one symbol.
pub struct BookState {
    pub bids: BookSide,
    pub asks: BookSide,
}

fn apply_all(side: &mut BookSide, updates: &Vec<LevelUpdate>)
    ensures
        final(side)@ == levels_applied(old(side)@, updates@),
{
    let ghost start = side@;
    let mut i: usize = 0;
    while i < updates.len()
        invariant
            i <= updates.len(),
            side@ == levels_applied(start, updates@.take(i as int)),
        decreases updates.len() - i,
    {
        let u = &updates[i];
        side.apply(u.price.as_str(), u.quantity.as_str(), u.zero);
        assert(updates@.take(i + 1).drop_last() =~= updates@.take(i as int));
        i += 1;
    }
    assert(updates@.take(updates.len() as int) =~= updates@);
}

impl BookState {
    pub fn new() -> (b: Self)
        ensures
            b.bids@ == Map::<Seq<char>, Seq<char>>::empty(),
            b.asks@ == Map::<Seq<char>, Seq<char>>::empty(),
    {
        BookState { bids: BookSide::new(), asks: BookSide::new() }
    }

    /// Applies one order-book message: a snapshot first clears both sides,
    /// then the bid and ask levels are applied in order.
    pub fn apply_message(&mut self, snapshot: bool, bids: &Vec<LevelUpdate>, asks: &Vec<LevelUpdate>)
        ensures
            final(self).bids@ == side_after(old(self).bids@, snapshot, bids@),
            final(self).asks@ == side_after(old(self).asks@, snapshot, asks@),
    {
        if snapshot {
            self.bids.clear();
            self.asks.clear();
        }
        apply_all(&mut self.bids, bids);
        apply_all(&mut self.asks, asks);
    }
}

/// A snapshot replaces what was there: whatever two books held before, the
/// same snapshot message leaves them equal.
pub proof fn snapshot_replaces_side(a: Map<Seq<char>, Seq<char>>, b: Map<Seq<char>, Seq<char>>, updates: Seq<LevelUpdate>)
    ensures
        side_after(a, true, updates) == side_after(b, true, updates),
{
}

/// After a message, a price whose last update read zero is absent, and a
/// price whose last update carried a quantity holds that quantity.
pub proof fn last_update_wins(side: Map<Seq<char>, Seq<char>>, updates: Seq<LevelUpdate>)
    requires
        updates.len() > 0,
    ensures
        updates.last().zero ==> !levels_applied(side, updates).dom().contains(updates.last().price@),
        !updates.last().zero ==> levels_applied(side, updates).dom().contains(updates.last().price@)
            && levels_applied(side, updates)[updates.last().price@] == updates.last().quantity@,
{
}

} // verus!
