//! Setting up a session, and the limiter that paces its requests.

use crate::auth::NotAuthed;
use crate::base::RackhostClient;
use std::marker::PhantomData;
use vstd::prelude::*;

verus! {

/// The time between the starts of two requests where nothing else is asked
/// for, in milliseconds.
pub const DEFAULT_RATE_LIMIT: u64 = 1000;

/// The limiter that all requests of a session pass: it lets one request start
/// at a time and keeps a fixed interval between two starts. It holds no
/// clock. Whoever sends the requests tells it the time, in milliseconds on
/// a clock that does not run backwards, waits as long as it says, and
/// asks it under a lock, one caller at a time.
#[derive(Debug, Clone, Copy, PartialEq, Eq)]
pub struct MyRateLimiter {
    rate_limit: u64,
    next_start: u64,
}

/// The mathematical value of a [`MyRateLimiter`].
pub struct PaceView {
    /// The interval between two starts, in milliseconds.
    pub rate_limit: nat,
    /// The earliest time at which the next request may start.
    pub next_start: nat,
}

/// `a + b`, or the largest `u64` where the sum is larger.
pub open spec fn saturating_sum(a: nat, b: nat) -> nat {
    if a + b > u64::MAX {
        u64::MAX as nat
    } else {
        a + b
    }
}

impl PaceView {
    /// The time at which a request that asks at `now` starts: at once, or
    /// when the interval since the last start is over.
    pub open spec fn start_at(self, now: nat) -> nat {
        if now >= self.next_start {
            now
        } else {
            self.next_start
        }
    }

    /// How long a request that asks at `now` has to wait.
    pub open spec fn delay_at(self, now: nat) -> nat {
        (self.start_at(now) - now) as nat
    }

    /// The limiter after it let a request pass that asked at `now`.
    pub open spec fn after(self, now: nat) -> PaceView {
        PaceView {
            rate_limit: self.rate_limit,
            next_start: saturating_sum(self.start_at(now), self.rate_limit),
        }
    }
}

impl View for MyRateLimiter {
    type V = PaceView;

    closed spec fn view(&self) -> PaceView {
        PaceView { rate_limit: self.rate_limit as nat, next_start: self.next_start as nat }
    }
}

impl MyRateLimiter {
    /// A limiter that keeps `rate_limit` milliseconds between two starts and
    /// lets the first request start at once.
    pub fn new(rate_limit: u64) -> (limiter: Self)
        ensures
            limiter@ == (PaceView { rate_limit: rate_limit as nat, next_start: 0 }),
    {
        MyRateLimiter { rate_limit, next_start: 0 }
    }

    /// The interval between two starts, in milliseconds.
    pub fn rate_limit(&self) -> (rate_limit: u64)
        ensures
            rate_limit == self@.rate_limit,
    {
        self.rate_limit
    }

    /// The earliest time at which the next request may start.
    pub fn next_start(&self) -> (next_start: u64)
        ensures
            next_start == self@.next_start,
    {
        self.next_start
    }

    /// Lets one request pass that asks at the time `now`, and says how many
    /// milliseconds it has to wait before it starts. The request after it
    /// starts no sooner than one interval later.
    pub fn acquire_permit(&mut self, now: u64) -> (delay: u64)
        ensures
            delay == old(self)@.delay_at(now as nat),
            final(self)@ == old(self)@.after(now as nat),
    {
        let start = if now >= self.next_start {
            now
        } else {
            self.next_start
        };
        self.next_start = start.saturating_add(self.rate_limit);
        start - now
    }
}

/// Requests start in the order in which they ask, and two requests that
/// pass the limiter one after the other start at least one interval apart, as
/// long as the clock has not run out.
pub proof fn lemma_starts_are_spaced(limiter: MyRateLimiter, first: u64, second: u64)
    requires
        first <= second,
    ensures
        limiter@.start_at(first as nat) <= limiter@.after(first as nat).start_at(second as nat),
        limiter@.start_at(first as nat) + limiter@.rate_limit <= u64::MAX ==> limiter@.after(
            first as nat,
        ).start_at(second as nat) - limiter@.start_at(first as nat) >= limiter@.rate_limit,
{
}

/// A request waits no longer than it must: it starts at once where the
/// interval since the last start is over, and otherwise exactly when it is.
pub proof fn lemma_delay_is_least(limiter: MyRateLimiter, now: u64)
    ensures
        now >= limiter@.next_start ==> limiter@.delay_at(now as nat) == 0,
        now < limiter@.next_start ==> now + limiter@.delay_at(now as nat) == limiter@.next_start,
{
}

/// Collects what a session is set up with.
#[derive(Debug, Clone, Copy, PartialEq, Eq)]
pub struct RackhostClientBuilder {
    rate_limiter: MyRateLimiter,
}

impl View for RackhostClientBuilder {
    type V = PaceView;

    closed spec fn view(&self) -> PaceView {
        self.rate_limiter@
    }
}

impl RackhostClientBuilder {
    /// A builder with the default interval of one second.
    pub fn new() -> (builder: RackhostClientBuilder)
        ensures
            builder@ == (PaceView { rate_limit: DEFAULT_RATE_LIMIT as nat, next_start: 0 }),
    {
        RackhostClientBuilder { rate_limiter: MyRateLimiter::new(DEFAULT_RATE_LIMIT) }
    }

    /// The builder with an interval of `rate_limit` milliseconds.
    pub fn rate_limit_from_duration(self, rate_limit: u64) -> (builder: RackhostClientBuilder)
        ensures
            builder@ == (PaceView { rate_limit: rate_limit as nat, next_start: 0 }),
    {
        RackhostClientBuilder { rate_limiter: MyRateLimiter::new(rate_limit) }
    }

    /// The limiter that the session's requests will pass.
    pub fn rate_limiter(&self) -> (limiter: MyRateLimiter)
        ensures
            limiter@ == self@,
    {
        self.rate_limiter
    }

    /// A session that has not logged in, and the limiter that paces its requests.
    pub fn build(self) -> (session: (RackhostClient<NotAuthed>, MyRateLimiter))
        ensures
            !session.0@,
            session.1@ == self@,
    {
        (RackhostClient { state: PhantomData }, self.rate_limiter)
    }
}

impl RackhostClient<NotAuthed> {
    /// A builder with the default interval.
    pub fn builder() -> (builder: RackhostClientBuilder)
        ensures
            builder@ == (PaceView { rate_limit: DEFAULT_RATE_LIMIT as nat, next_start: 0 }),
    {
        RackhostClientBuilder::new()
    }
}

} // verus!
