//! Retrying a failed request with exponential backoff. The delays come from
//! `backon`'s exponential backoff; sleeping and re-sending are left to the
//! caller, which asks [`Retrier::on_failure`] after every failed attempt.
use vstd::prelude::*;
use std::time::Duration;
use backon::{BackoffBuilder, ExponentialBackoff, ExponentialBuilder};
use crate::time::secs_duration;

verus! {

/// `backon::ExponentialBackoff`, the iterator of delays.
#[verifier::external_type_specification]
#[verifier::external_body]
pub struct ExExponentialBackoff(ExponentialBackoff);

/// How many delays the backoff has handed out.
pub uninterp spec fn backoff_attempts(b: ExponentialBackoff) -> nat;

/// How many delays the backoff hands out in all (the limit it was made with).
pub uninterp spec fn backoff_max_times(b: ExponentialBackoff) -> nat;

/// The backoff has the default exponential settings (no jitter, no total-delay
/// limit, one second first, factor two, at most sixty seconds) and was advanced
/// only by `next`, so each delay is the one after the previous.
pub uninterp spec fn backoff_is_default(b: ExponentialBackoff) -> bool;

/// `2` to the power `k`.
pub open spec fn doubling(k: nat) -> nat
    decreases k,
{
    if k == 0 { 1 } else { 2 * doubling((k - 1) as nat) }
}

/// The length in seconds of the delay after `k` earlier delays: one second,
/// doubled each time, at most a minute.
pub open spec fn delay_secs(k: nat) -> nat {
    if k < 6 { doubling(k) } else { 60 }
}

/// `ExponentialBuilder::default().with_max_times(max_times).build()`: a backoff
/// without jitter or total-delay limit, starting at one second, doubling, at most
/// sixty seconds, handing out `max_times` delays; none handed out yet.
#[verifier::external_body]
fn exponential_backoff(max_times: usize) -> (b: ExponentialBackoff)
    ensures
        backoff_is_default(b),
        backoff_attempts(b) == 0,
        backoff_max_times(b) == max_times,
{
    ExponentialBuilder::default().with_max_times(max_times).build()
}

/// `Iterator::next` on such a backoff: while fewer than `max_times` delays were
/// handed out, the next one, `delay_secs` of their number seconds long (the
/// doublings of whole seconds are exact in `f32`); then `None`, with nothing
/// changed.
#[verifier::external_body]
fn next_delay(b: &mut ExponentialBackoff) -> (r: Option<Duration>)
    ensures
        backoff_is_default(*old(b)) ==> backoff_is_default(*final(b)) && backoff_max_times(*final(b))
            == backoff_max_times(*old(b)),
        backoff_is_default(*old(b)) && backoff_attempts(*old(b)) >= backoff_max_times(*old(b)) ==> r is None
            && backoff_attempts(*final(b)) == backoff_attempts(*old(b)),
        backoff_is_default(*old(b)) && backoff_attempts(*old(b)) < backoff_max_times(*old(b)) ==> r == Some(
            secs_duration(delay_secs(backoff_attempts(*old(b))) as u64),
        ) && backoff_attempts(*final(b)) == backoff_attempts(*old(b)) + 1,
{
    b.next()
}

/// What to do after a failed attempt.
pub enum RetryDecision {
    /// Wait this long, then try again.
    RetryAfter(Duration),
    /// Every retry is spent: report the failure.
    GiveUp,
}

/// The retry budget of one request and the backoff that spaces the retries.
pub struct Retrier {
    backoff: ExponentialBackoff,
}

impl Retrier {
    /// How many retries the request may make after its first attempt.
    pub closed spec fn budget(&self) -> nat {
        backoff_max_times(self.backoff)
    }

    /// How many failed attempts were retried so far.
    pub closed spec fn retried(&self) -> nat {
        backoff_attempts(self.backoff)
    }

    /// The backoff is the one the retrier was made with, advanced only by it.
    pub closed spec fn well_formed(&self) -> bool {
        backoff_is_default(self.backoff)
    }

    /// A budget of `max_retries` retries after the first attempt.
    pub fn new(max_retries: usize) -> (r: Retrier)
        ensures
            r.well_formed(),
            r.budget() == max_retries,
            r.retried() == 0,
    {
        Retrier { backoff: exponential_backoff(max_retries) }
    }

    /// Called after a failed attempt: while retries are left, retry after the
    /// next delay (1 s, 2 s, 4 s, .., at most 60 s), using one up; once all are
    /// used, give up. So a request whose attempts all fail is attempted
    /// `budget + 1` times.
    pub fn on_failure(&mut self) -> (d: RetryDecision)
        requires
            old(self).well_formed(),
        ensures
            final(self).well_formed(),
            final(self).budget() == old(self).budget(),
            old(self).retried() < old(self).budget() ==> d == RetryDecision::RetryAfter(
                secs_duration(delay_secs(old(self).retried()) as u64),
            ) && final(self).retried() == old(self).retried() + 1,
            old(self).retried() >= old(self).budget() ==> d is GiveUp && final(self).retried() == old(
                self,
            ).retried(),
    {
        match next_delay(&mut self.backoff) {
            Some(delay) => RetryDecision::RetryAfter(delay),
            None => RetryDecision::GiveUp,
        }
    }
}

/// The delays of the retries of one request are 1, 2, 4, 8, 16 and 32 seconds,
/// then a minute each: each at least as long as the one before, none over a minute.
pub proof fn lemma_delays_grow_to_a_minute(k: nat)
    ensures
        1 <= delay_secs(k) <= 60,
        delay_secs(k) <= delay_secs(k + 1),
        k < 5 ==> delay_secs(k + 1) == 2 * delay_secs(k),
        k >= 6 ==> delay_secs(k) == 60,
    decreases k,
{
    if k > 0 {
        lemma_delays_grow_to_a_minute((k - 1) as nat);
    }
    if k < 6 {
        assert(doubling(0) == 1);
        assert(doubling(1) == 2);
        assert(doubling(2) == 4);
        assert(doubling(3) == 8);
        assert(doubling(4) == 16);
        assert(doubling(5) == 32);
    }
}

} // verus!
