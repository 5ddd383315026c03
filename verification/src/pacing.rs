//! Holding a loop to a target rate: after each round the loop sleeps
//! whatever is left of the target interval.
//!
//! Times are counted in ticks of whatever clock the caller reads; the module
//! only asks that all of them are counted in the same unit.

use vstd::prelude::*;

verus! {

/// The rate that both media loops are held to, in rounds per second.
pub const TARGET_FPS: u64 = 30;

/// The target interval of both media loops, in milliseconds.
pub const TARGET_INTERVAL_MS: u64 = 33;

/// What is left of the interval after a round whose work took `elapsed`.
pub open spec fn rest_of_interval(elapsed: nat, interval: nat) -> nat {
    if elapsed < interval {
        (interval - elapsed) as nat
    } else {
        0
    }
}

/// How long a round lasts, sleep included.
pub open spec fn round_length(elapsed: nat, interval: nat) -> nat {
    elapsed + rest_of_interval(elapsed, interval)
}

/// When round `k` starts, for a loop whose first round starts at `first`
/// and whose rounds take `work[0]`, `work[1]`, ... before they sleep.
pub open spec fn round_start(first: nat, work: Seq<nat>, interval: nat, k: nat) -> nat
    decreases k,
{
    if k == 0 {
        first
    } else {
        round_start(first, work, interval, (k - 1) as nat) + round_length(
            work[k - 1],
            interval,
        )
    }
}

/// When round `k` sends: at the end of its work.
pub open spec fn send_time(first: nat, work: Seq<nat>, interval: nat, k: nat) -> nat {
    round_start(first, work, interval, k) + work[k as int]
}

/// How long to sleep after a round whose work took `elapsed`.
pub fn remaining_interval(elapsed: u64, interval: u64) -> (rest: u64)
    ensures
        rest == rest_of_interval(elapsed as nat, interval as nat),
{
    if elapsed < interval {
        interval - elapsed
    } else {
        0
    }
}

/// A round never lasts less than the interval: it lasts the interval, or
/// as long as its work where that is longer.
pub proof fn lemma_round_length(elapsed: nat, interval: nat)
    ensures
        round_length(elapsed, interval) >= interval,
        round_length(elapsed, interval) == if elapsed < interval { interval } else { elapsed },
{
}

/// Rounds start at least one interval apart, whatever the work takes.
pub proof fn lemma_rounds_spaced(first: nat, work: Seq<nat>, interval: nat, k: nat)
    requires
        k < work.len(),
    ensures
        round_start(first, work, interval, k + 1) >= round_start(first, work, interval, k)
            + interval,
{
    assert(round_start(first, work, interval, k + 1) == round_start(
        first,
        work,
        interval,
        ((k + 1) - 1) as nat,
    ) + round_length(work[(k + 1) - 1], interval));
}

/// The gap between the sends of two rounds that follow one another: what
/// was left of the interval in the first, and the work of the second.
pub proof fn lemma_send_gap(first: nat, work: Seq<nat>, interval: nat, k: nat)
    requires
        k + 1 < work.len(),
    ensures
        send_time(first, work, interval, k + 1) - send_time(first, work, interval, k)
            == rest_of_interval(work[k as int], interval) + work[k as int + 1],
{
    assert(round_start(first, work, interval, k + 1) == round_start(
        first,
        work,
        interval,
        ((k + 1) - 1) as nat,
    ) + round_length(work[(k + 1) - 1], interval));
}

/// Rate bound: two sends that follow one another are at least one interval
/// apart, provided the work before the second send is not shorter than the
/// work before the first, or not shorter than the interval.
pub proof fn lemma_sends_spaced(first: nat, work: Seq<nat>, interval: nat, k: nat)
    requires
        k + 1 < work.len(),
        work[k as int + 1] >= work[k as int] || work[k as int + 1] >= interval,
    ensures
        send_time(first, work, interval, k + 1) >= send_time(first, work, interval, k) + interval,
{
    lemma_send_gap(first, work, interval, k);
}

} // verus!
