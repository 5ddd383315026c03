//! Counting frames per second over a rolling window of round times.

use vstd::prelude::*;

verus! {

/// The sum of a list of round times.
pub open spec fn total(times: Seq<u64>) -> nat
    decreases times.len(),
{
    if times.len() == 0 {
        0
    } else {
        total(times.drop_last()) + times.last() as nat
    }
}

/// The list without its first time, the last one moved into its place.
pub open spec fn without_first(times: Seq<u64>) -> Seq<u64>
    recommends
        times.len() > 0,
{
    times.update(0, times.last()).drop_last()
}

/// The list after times have been dropped from it, one at a time, until
/// what is left sums to less than the window.
pub open spec fn trimmed(times: Seq<u64>, window: nat) -> Seq<u64>
    decreases times.len(),
{
    if times.len() > 0 && total(times) >= window {
        trimmed(without_first(times), window)
    } else {
        times
    }
}

/// Putting another time in one place of a list changes the sum by the
/// difference of the two times.
pub proof fn lemma_total_update(times: Seq<u64>, i: int, t: u64)
    requires
        0 <= i < times.len(),
    ensures
        total(times.update(i, t)) == total(times) - times[i] + t,
    decreases times.len(),
{
    let changed = times.update(i, t);
    if i == times.len() - 1 {
        assert(changed.drop_last() =~= times.drop_last());
    } else {
        assert(changed.drop_last() =~= times.drop_last().update(i, t));
        lemma_total_update(times.drop_last(), i, t);
    }
}

/// Dropping the first time takes exactly that time off the sum.
pub proof fn lemma_total_without_first(times: Seq<u64>)
    requires
        times.len() > 0,
    ensures
        total(without_first(times)) == total(times) - times[0],
        without_first(times).len() == times.len() - 1,
{
    if times.len() == 1 {
        assert(without_first(times) =~= Seq::<u64>::empty());
        assert(times.drop_last() =~= Seq::<u64>::empty());
    } else {
        lemma_total_update(times, 0, times.last());
        let moved = times.update(0, times.last());
        assert(moved.last() == times.last());
    }
}

/// What is left after trimming sums to less than the window, unless
/// nothing is left; and nothing is trimmed from a list that already does.
pub proof fn lemma_trimmed_fits(times: Seq<u64>, window: nat)
    ensures
        trimmed(times, window).len() == 0 || total(trimmed(times, window)) < window,
        trimmed(times, window).len() <= times.len(),
        times.len() == 0 || total(times) < window ==> trimmed(times, window) == times,
    decreases times.len(),
{
    if times.len() > 0 && total(times) >= window {
        lemma_trimmed_fits(without_first(times), window);
    }
}

/// The frames of the last second or so: the times of the latest rounds,
/// as many as sum to less than the window.
pub struct FpsWindow {
    times: Vec<u64>,
    window: u64,
}

impl View for FpsWindow {
    type V = Seq<u64>;

    /// The round times that the window holds.
    closed spec fn view(&self) -> Seq<u64> {
        self.times@
    }
}

impl FpsWindow {
    /// The length of the window, in the unit of the round times.
    pub closed spec fn window(&self) -> nat {
        self.window as nat
    }

    /// An empty window of the given length.
    pub fn new(window: u64) -> (fps: FpsWindow)
        ensures
            fps@ == Seq::<u64>::empty(),
            fps.window() == window,
    {
        FpsWindow { times: Vec::new(), window }
    }

    fn sum(&self) -> (sum: u128)
        ensures
            sum == total(self@),
    {
        let mut sum: u128 = 0;
        let mut i: usize = 0;
        while i < self.times.len()
            invariant
                i <= self.times.len(),
                sum == total(self.times@.take(i as int)),
                sum <= i * 0xffff_ffff_ffff_ffff,
            decreases self.times.len() - i,
        {
            assert(self.times@.take(i + 1).drop_last() =~= self.times@.take(i as int));
            assert((i + 1) * 0xffff_ffff_ffff_ffff == i * 0xffff_ffff_ffff_ffff
                + 0xffff_ffff_ffff_ffff) by (nonlinear_arith);
            assert(i * 0xffff_ffff_ffff_ffff <= 0xffff_ffff_ffff_ffff * 0xffff_ffff_ffff_ffff)
                by (nonlinear_arith)
                requires
                    i <= 0xffff_ffff_ffff_ffff,
            ;
            sum = sum + self.times[i] as u128;
            i += 1;
        }
        assert(self.times@.take(self.times@.len() as int) =~= self.times@);
        sum
    }

    /// Takes in the time of one more round, then drops times until what is
    /// held sums to less than the window.
    pub fn record(&mut self, elapsed: u64)
        ensures
            final(self)@ == trimmed(old(self)@.push(elapsed), old(self).window()),
            final(self).window() == old(self).window(),
    {
        self.times.push(elapsed);
        let mut sum = self.sum();
        while self.times.len() > 0 && sum >= self.window as u128
            invariant
                sum == total(self.times@),
                self.window == old(self).window,
                trimmed(self.times@, self.window as nat) == trimmed(
                    old(self)@.push(elapsed),
                    old(self).window as nat,
                ),
            decreases self.times.len(),
        {
            proof {
                lemma_total_without_first(self.times@);
            }
            let first = self.times.swap_remove(0);
            sum = sum - first as u128;
        }
    }

    /// The number of frames in the window: the frames per second, for a
    /// window of one second.
    pub fn frames(&self) -> (n: usize)
        ensures
            n == self@.len(),
    {
        self.times.len()
    }
}

} // verus!
