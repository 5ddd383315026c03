//! Waiting for a condition by looking again and again, with an end to it.
//!
//! A bounded wait is told what each look at its condition found. While the
//! condition does not hold, the caller sleeps one polling interval and
//! looks again, until the time allowed has run out.

use crate::error::NegotiationError;
use vstd::prelude::*;

verus! {

/// The polling interval of the waits of a negotiation, in milliseconds.
pub const NEGOTIATION_POLL_MS: u64 = 100;

/// How long a wait of a negotiation lasts at most, in milliseconds.
pub const NEGOTIATION_TIMEOUT_MS: u64 = 30_000;

/// The polling interval of the directory, in milliseconds.
pub const DIRECTORY_POLL_MS: u64 = 1000;

/// What follows a look at the condition.
#[derive(Clone, Copy, Debug, PartialEq, Eq, Structural)]
pub enum WaitStep {
    /// The condition holds: go on.
    Ready,
    /// The condition does not hold yet: sleep this long, then ask again.
    Retry(u64),
    /// The condition did not hold in time: give up.
    TimedOut,
}

impl WaitStep {
    /// How the wait has ended, if it has: well where the condition holds,
    /// with a timeout where it did not hold in time.
    pub open spec fn ended(self) -> Option<Result<(), NegotiationError>> {
        match self {
            WaitStep::Ready => Some(Ok(())),
            WaitStep::Retry(_) => None,
            WaitStep::TimedOut => Some(Err(NegotiationError::Timeout)),
        }
    }

    /// How the wait has ended, if it has.
    pub fn outcome(self) -> (outcome: Option<Result<(), NegotiationError>>)
        ensures
            outcome == self.ended(),
    {
        match self {
            WaitStep::Ready => Some(Ok(())),
            WaitStep::Retry(_) => None,
            WaitStep::TimedOut => Some(Err(NegotiationError::Timeout)),
        }
    }
}

/// A bounded wait as plain values.
pub struct WaitView {
    /// How long the caller sleeps between two looks.
    pub interval: nat,
    /// How long the wait lasts at most.
    pub timeout: nat,
    /// How long has been waited so far.
    pub waited: nat,
}

impl WaitView {
    /// What follows a look that found `ready`, and the wait after it. The
    /// time waited is counted up to the limit and no further.
    pub open spec fn poll(self, ready: bool, limit: nat) -> (WaitView, WaitStep) {
        if ready {
            (self, WaitStep::Ready)
        } else if self.waited >= self.timeout {
            (self, WaitStep::TimedOut)
        } else {
            let waited = if self.waited + self.interval > limit {
                limit
            } else {
                self.waited + self.interval
            };
            (WaitView { waited, ..self }, WaitStep::Retry(self.interval as u64))
        }
    }

    /// The wait after `n` looks that did not find the condition.
    pub open spec fn after_misses(self, n: nat, limit: nat) -> WaitView
        decreases n,
    {
        if n == 0 {
            self
        } else {
            self.poll(false, limit).0.after_misses((n - 1) as nat, limit)
        }
    }
}

/// A wait for a condition that is looked at every `interval`, for `timeout`
/// at most.
pub struct BoundedWait {
    interval: u64,
    timeout: u64,
    waited: u64,
}

impl View for BoundedWait {
    type V = WaitView;

    closed spec fn view(&self) -> WaitView {
        WaitView {
            interval: self.interval as nat,
            timeout: self.timeout as nat,
            waited: self.waited as nat,
        }
    }
}

impl BoundedWait {
    /// A wait that has not begun.
    pub fn new(interval: u64, timeout: u64) -> (wait: BoundedWait)
        ensures
            wait@ == (WaitView { interval: interval as nat, timeout: timeout as nat, waited: 0 }),
    {
        BoundedWait { interval, timeout, waited: 0 }
    }

    /// Takes in a look at the condition that found `ready`.
    pub fn poll(&mut self, ready: bool) -> (step: WaitStep)
        ensures
            (final(self)@, step) == old(self)@.poll(ready, u64::MAX as nat),
    {
        if ready {
            WaitStep::Ready
        } else if self.waited >= self.timeout {
            WaitStep::TimedOut
        } else {
            self.waited = self.waited.saturating_add(self.interval);
            WaitStep::Retry(self.interval)
        }
    }

    /// How long has been waited so far.
    pub fn waited(&self) -> (waited: u64)
        ensures
            waited == self@.waited,
    {
        self.waited
    }
}

/// A wait is over as soon as its condition holds, however long it lasted.
pub proof fn lemma_ready_ends_wait(wait: WaitView, limit: nat)
    ensures
        wait.poll(true, limit) == (wait, WaitStep::Ready),
{
}

/// Looks that do not find the condition add up: after `n` of them `n`
/// intervals have been waited, or the whole timeout.
pub proof fn lemma_misses_add_up(wait: WaitView, n: nat, limit: nat)
    requires
        wait.timeout <= limit,
    ensures
        wait.after_misses(n, limit).waited >= wait.timeout || wait.after_misses(n, limit).waited
            >= wait.waited + n * wait.interval,
        wait.after_misses(n, limit).interval == wait.interval,
        wait.after_misses(n, limit).timeout == wait.timeout,
    decreases n,
{
    if n == 0 {
        assert(n * wait.interval == 0) by (nonlinear_arith)
            requires
                n == 0,
        ;
    } else if wait.waited >= wait.timeout {
        lemma_timed_out_stays(wait, n, limit);
    } else {
        let next = wait.poll(false, limit).0;
        lemma_misses_add_up(next, (n - 1) as nat, limit);
        assert(n * wait.interval == (n - 1) * wait.interval + wait.interval) by (nonlinear_arith);
    }
}

/// A wait that has run out of time stays as it is under further looks
/// that do not find the condition.
pub proof fn lemma_timed_out_stays(wait: WaitView, n: nat, limit: nat)
    requires
        wait.waited >= wait.timeout,
    ensures
        wait.after_misses(n, limit) == wait,
    decreases n,
{
    if n > 0 {
        assert(wait.poll(false, limit).0 == wait);
        lemma_timed_out_stays(wait, (n - 1) as nat, limit);
    }
}

/// Nothing is waited for for ever: with an interval that is not zero, a
/// condition that never holds is given up after as many looks as intervals
/// are needed to fill the timeout.
pub proof fn lemma_wait_gives_up(wait: WaitView, n: nat, limit: nat)
    requires
        wait.timeout <= limit,
        wait.waited + n * wait.interval >= wait.timeout,
    ensures
        wait.after_misses(n, limit).poll(false, limit).1 == WaitStep::TimedOut,
{
    lemma_misses_add_up(wait, n, limit);
}

} // verus!
