//! Decisions of the bot's market-data subscriber: what a published channel
//! carries, which channel kinds and scores are seen for the first time, and
//! how a decision's reasons are written out.

use vstd::prelude::*;
use crate::market::{decision_direction_of, mirrored, Decision, SweepSide};
use crate::streams::{join, join_into};
use crate::text::{has_prefix, starts_with, string_from};

verus! {

broadcast use vstd::string::group_string_axioms;

/// What a subscribed channel publishes.
#[derive(Debug, Clone, Copy, PartialEq, Eq, Structural)]
pub enum ChannelKind {
    Candles,
    OrderBook,
    Funding,
    OpenInterest,
    Other,
}

/// The kind of a channel, by its prefix.
pub open spec fn channel_kind_of(channel: Seq<char>) -> ChannelKind {
    if starts_with(channel, "candles:"@) {
        ChannelKind::Candles
    } else if starts_with(channel, "orderbook:"@) {
        ChannelKind::OrderBook
    } else if starts_with(channel, "funding:"@) {
        ChannelKind::Funding
    } else if starts_with(channel, "open_interest:"@) {
        ChannelKind::OpenInterest
    } else {
        ChannelKind::Other
    }
}

pub fn channel_kind(channel: &str) -> (k: ChannelKind)
    ensures
        k == channel_kind_of(channel@),
{
    if has_prefix(channel, "candles:") {
        ChannelKind::Candles
    } else if has_prefix(channel, "orderbook:") {
        ChannelKind::OrderBook
    } else if has_prefix(channel, "funding:") {
        ChannelKind::Funding
    } else if has_prefix(channel, "open_interest:") {
        ChannelKind::OpenInterest
    } else {
        ChannelKind::Other
    }
}

/// What the subscriber has seen since it connected.
#[derive(Debug)]
pub struct SubscriberState {
    pub seen_candles: bool,
    pub seen_order_book: bool,
    pub seen_funding: bool,
    pub seen_open_interest: bool,
    pub scored: bool,
}

impl SubscriberState {
    /// Whether a message of `kind` has arrived since connecting.
    pub open spec fn seen(&self, kind: ChannelKind) -> bool {
        match kind {
            ChannelKind::Candles => self.seen_candles,
            ChannelKind::OrderBook => self.seen_order_book,
            ChannelKind::Funding => self.seen_funding,
            ChannelKind::OpenInterest => self.seen_open_interest,
            ChannelKind::Other => false,
        }
    }

    /// The state right after connecting: nothing seen, nothing scored.
    pub fn new() -> (s: Self)
        ensures
            forall|k: ChannelKind| !s.seen(k),
            !s.scored,
    {
        SubscriberState {
            seen_candles: false,
            seen_order_book: false,
            seen_funding: false,
            seen_open_interest: false,
            scored: false,
        }
    }

    /// Records a message on `channel`; answers its kind and whether it is
    /// the first of that kind since connecting.
    pub fn note_channel(&mut self, channel: &str) -> (r: (ChannelKind, bool))
        ensures
            r.0 == channel_kind_of(channel@),
            r.1 == (r.0 != ChannelKind::Other && !old(self).seen(r.0)),
            forall|k: ChannelKind| #[trigger] final(self).seen(k) == (old(self).seen(k) || (k == r.0 && k != ChannelKind::Other)),
            final(self).scored == old(self).scored,
    {
        let kind = channel_kind(channel);
        let first = match kind {
            ChannelKind::Candles => {
                let f = !self.seen_candles;
                self.seen_candles = true;
                f
            },
            ChannelKind::OrderBook => {
                let f = !self.seen_order_book;
                self.seen_order_book = true;
                f
            },
            ChannelKind::Funding => {
                let f = !self.seen_funding;
                self.seen_funding = true;
                f
            },
            ChannelKind::OpenInterest => {
                let f = !self.seen_open_interest;
                self.seen_open_interest = true;
                f
            },
            ChannelKind::Other => false,
        };
        (kind, first)
    }

    /// Records a computed score; answers whether it is the first since
    /// connecting.
    pub fn note_score(&mut self) -> (first: bool)
        ensures
            first == !old(self).scored,
            final(self).scored,
            forall|k: ChannelKind| #[trigger] final(self).seen(k) == old(self).seen(k),
    {
        let first = !self.scored;
        self.scored = true;
        first
    }
}

/// A liquidity sweep opposes a directional decision when it took the highs
/// against a long, or the lows against a short.
pub open spec fn sweep_opposes_spec(decision: Decision, side: SweepSide) -> bool {
    ||| (decision == Decision::StrongLong || decision == Decision::Long) && side == SweepSide::Highs
    ||| (decision == Decision::StrongShort || decision == Decision::Short) && side == SweepSide::Lows
}

pub fn sweep_opposes(decision: Decision, side: SweepSide) -> (r: bool)
    ensures
        r == sweep_opposes_spec(decision, side),
{
    match (decision, side) {
        (Decision::StrongLong, SweepSide::Highs) | (Decision::Long, SweepSide::Highs) => true,
        (Decision::StrongShort, SweepSide::Lows) | (Decision::Short, SweepSide::Lows) => true,
        _ => false,
    }
}

/// A sweep opposes a decision exactly when the decision takes a direction
/// and the sweep took the side that direction leans on: the highs against
/// every decision that goes long, the lows against every decision that goes
/// short. No sweep opposes nothing, and a non-directional decision is
/// opposed by no sweep.
pub proof fn sweep_opposes_the_direction(decision: Decision)
    ensures
        sweep_opposes_spec(decision, SweepSide::Highs) <==> decision_direction_of(decision) == 1,
        sweep_opposes_spec(decision, SweepSide::Lows) <==> decision_direction_of(decision) == -1,
        !sweep_opposes_spec(decision, SweepSide::NoSweep),
        sweep_opposes_spec(mirrored(decision), SweepSide::Highs) == sweep_opposes_spec(decision, SweepSide::Lows),
{
}

/// A list written on one line: the entries separated by `, `, or `-` when
/// there are none.
pub open spec fn line_or_dash(items: Seq<Seq<char>>) -> Seq<char> {
    if items.len() == 0 { "-"@ } else { join(items, ", "@) }
}

pub fn list_line(items: &Vec<String>) -> (s: String)
    ensures
        s@ == line_or_dash(items.deep_view()),
{
    if items.len() == 0 {
        string_from("-")
    } else {
        join_into(items, ", ")
    }
}

/// The rationale stored with a decision: its reasons separated by `; `, or
/// its headline when it has no reasons.
pub open spec fn rationale_of(headline: Seq<char>, reasons: Seq<Seq<char>>) -> Seq<char> {
    if reasons.len() == 0 { headline } else { join(reasons, "; "@) }
}

pub fn ledger_rationale(headline: &str, reasons: &Vec<String>) -> (s: String)
    ensures
        s@ == rationale_of(headline@, reasons.deep_view()),
{
    if reasons.len() == 0 {
        string_from(headline)
    } else {
        join_into(reasons, "; ")
    }
}

} // verus!
