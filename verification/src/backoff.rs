//! Exponential backoff for reconnect attempts, in whole milliseconds.

use vstd::prelude::*;
use vstd::arithmetic::power2::{lemma_pow2_unfold, pow2};

verus! {

/// Tracks the delay to wait before the next reconnect attempt, doubling on
/// every failure up to a fixed cap and resetting on success.
#[derive(Debug, Clone, Copy)]
pub struct ReconnectBackoff {
    initial_ms: u64,
    cap_ms: u64,
    current_ms: u64,
}

/// The delay that follows `current` after one more failure.
pub open spec fn doubled_capped(current: int, cap: int) -> int {
    if 2 * current <= cap { 2 * current } else { cap }
}

/// The delay returned after `failures` consecutive failed attempts.
pub open spec fn delay_after(initial: int, cap: int, failures: nat) -> int
    decreases failures,
{
    if failures == 0 {
        initial
    } else {
        doubled_capped(delay_after(initial, cap, (failures - 1) as nat), cap)
    }
}

/// Reconnect delays stay bounded: every delay lies between zero and the
/// larger of the initial delay and the cap, from the first failure on it
/// is at most the cap, and when the initial delay is within the cap the
/// delays never shrink while failures continue.
pub proof fn delays_are_bounded(initial: int, cap: int, failures: nat)
    requires
        0 <= initial,
        0 <= cap,
    ensures
        0 <= delay_after(initial, cap, failures) <= if initial <= cap { cap } else { initial },
        failures >= 1 ==> delay_after(initial, cap, failures) <= cap,
        initial <= cap ==> delay_after(initial, cap, failures) <= delay_after(initial, cap, failures + 1),
    decreases failures,
{
    if failures > 0 {
        delays_are_bounded(initial, cap, (failures - 1) as nat);
    }
}

/// The delays in closed form: the first is the initial delay, and after
/// `failures >= 1` failures the delay is the initial delay doubled once per
/// failure, capped: `min(initial * 2^failures, cap)`.
pub proof fn delay_closed_form(initial: int, cap: int, failures: nat)
    requires
        0 <= initial,
        0 <= cap,
    ensures
        delay_after(initial, cap, failures) == if failures == 0 {
            initial
        } else if initial * pow2(failures) <= cap {
            initial * pow2(failures)
        } else {
            cap
        },
    decreases failures,
{
    if failures > 0 {
        let k = (failures - 1) as nat;
        delay_closed_form(initial, cap, k);
        lemma_pow2_unfold(failures);
        let p = pow2(k);
        assert(initial * pow2(failures) == 2 * (initial * p)) by (nonlinear_arith)
            requires
                pow2(failures) == 2 * p,
        ;
        if k == 0 {
            vstd::arithmetic::power2::lemma2_to64();
            assert(initial * p == initial);
        }
    }
}

/// The backoff's delay after `failures` calls of `next_delay` since `new` or
/// `reset` is `delay_after(initial, cap, failures)`: `new` and `reset` start
/// at the initial delay, and each call moves the delay one failure on.
pub proof fn next_delay_counts_failures(backoff: ReconnectBackoff, next: ReconnectBackoff, failures: nat)
    requires
        backoff.current() == delay_after(backoff.initial(), backoff.cap(), failures),
        next.initial() == backoff.initial(),
        next.cap() == backoff.cap(),
        next.current() == doubled_capped(backoff.current(), backoff.cap()),
    ensures
        next.current() == delay_after(next.initial(), next.cap(), failures + 1),
{
}

impl ReconnectBackoff {
    pub closed spec fn initial(&self) -> int { self.initial_ms as int }
    pub closed spec fn cap(&self) -> int { self.cap_ms as int }
    pub closed spec fn current(&self) -> int { self.current_ms as int }

    /// Starts at `initial_ms`, never exceeding `cap_ms` after the first
    /// doubling.
    pub fn new(initial_ms: u64, cap_ms: u64) -> (result: Self)
        ensures
            result.initial() == initial_ms,
            result.cap() == cap_ms,
            result.current() == initial_ms,
    {
        ReconnectBackoff { initial_ms, cap_ms, current_ms: initial_ms }
    }

    /// Returns the delay to wait for the next attempt and advances the
    /// internal state for the following one.
    pub fn next_delay(&mut self) -> (delay: u64)
        ensures
            delay == old(self).current(),
            final(self).current() == doubled_capped(old(self).current(), old(self).cap()),
            final(self).initial() == old(self).initial(),
            final(self).cap() == old(self).cap(),
    {
        let delay = self.current_ms;
        let doubled: u128 = (self.current_ms as u128) * 2;
        if doubled <= self.cap_ms as u128 {
            self.current_ms = doubled as u64;
        } else {
            self.current_ms = self.cap_ms;
        }
        delay
    }

    /// Resets the backoff after a successful connection.
    pub fn reset(&mut self)
        ensures
            final(self).current() == old(self).initial(),
            final(self).initial() == old(self).initial(),
            final(self).cap() == old(self).cap(),
    {
        self.current_ms = self.initial_ms;
    }
}

impl Default for ReconnectBackoff {
    /// One second at first, doubling up to one minute.
    fn default() -> (b: Self)
        ensures
            b.initial() == 1000,
            b.cap() == 60_000,
            b.current() == 1000,
    {
        ReconnectBackoff::new(1000, 60_000)
    }
}

} // verus!
