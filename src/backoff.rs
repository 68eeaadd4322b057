use vstd::prelude::*;

verus! {

/// The delay before the next scan after a run of empty scans, in
/// milliseconds. It starts at `start` and grows on each empty scan, capped
/// at `max`.
#[derive(Debug, Clone, Copy, PartialEq, Eq, Structural)]
pub struct Backoff {
    pub delay: u64,
    pub start: u64,
    pub max: u64,
}

/// The delay after one more empty scan: the delay in seconds squared, capped
/// at `max`, whatever the delay was before.
pub open spec fn grown_delay(delay: int, max: int) -> int {
    let squared = delay * delay / 1000;
    if squared < max { squared } else { max }
}

/// The backoff after one scan that found something (`found`) or nothing.
pub open spec fn backoff_step(b: Backoff, found: bool) -> Backoff {
    if found {
        Backoff { delay: b.start, ..b }
    } else {
        Backoff { delay: grown_delay(b.delay as int, b.max as int) as u64, ..b }
    }
}

/// The backoff after a run of scans, `found[i]` telling whether scan `i`
/// found anything.
pub open spec fn backoff_run(b: Backoff, found: Seq<bool>) -> Backoff
    decreases found.len(),
{
    if found.len() == 0 {
        b
    } else {
        backoff_step(backoff_run(b, found.drop_last()), found.last())
    }
}

impl Backoff {
    /// The backoff of a loop that has not scanned yet.
    pub open spec fn new_spec(start: u64, max: u64) -> Backoff {
        Backoff { delay: start, start, max }
    }

    /// A backoff that waits `start` milliseconds after the first empty scan
    /// and never more than `max`.
    pub fn new(start: u64, max: u64) -> (r: Backoff)
        ensures
            r == Backoff::new_spec(start, max),
    {
        Backoff { delay: start, start, max }
    }

    /// A scan found something: the delay goes back to its start.
    pub fn reset(&mut self)
        ensures
            *final(self) == backoff_step(*old(self), true),
            final(self).delay == old(self).start,
    {
        self.delay = self.start;
    }

    /// A scan found nothing: the delay grows.
    pub fn grow(&mut self)
        ensures
            *final(self) == backoff_step(*old(self), false),
            final(self).delay == grown_delay(old(self).delay as int, old(self).max as int),
    {
        let d = self.delay as u128;
        assert(d * d <= u128::MAX) by (nonlinear_arith)
            requires
                d <= u64::MAX,
        {
        }
        let squared = d * d / 1000;
        if squared < self.max as u128 {
            self.delay = squared as u64;
        } else {
            self.delay = self.max;
        }
    }
}

/// Growing never shortens a delay of at least one second, and never takes a
/// delay at or below `max` above it.
pub proof fn lemma_grown_delay_bounds(delay: int, max: int)
    requires
        1000 <= delay <= max,
    ensures
        delay <= grown_delay(delay, max) <= max,
{
    assert(delay * delay / 1000 >= delay) by (nonlinear_arith)
        requires
            1000 <= delay,
    {
    }
}

/// An empty scan never leaves a delay above `max`, whatever the backoff
/// held before: every sleep after an empty scan is at most `max`.
pub proof fn lemma_empty_scan_capped(b: Backoff, found: Seq<bool>)
    ensures
        found.len() > 0 && !found.last() ==> backoff_run(b, found).delay <= b.max,
{
    lemma_backoff_keeps_bounds(b, found.drop_last());
}

/// Over any run of scans, a backoff that starts at or below `max` never
/// waits longer than `max`.
pub proof fn lemma_backoff_capped(b: Backoff, found: Seq<bool>)
    requires
        b.start <= b.max,
        b.delay <= b.max,
    ensures
        backoff_run(b, found).delay <= b.max,
    decreases found.len(),
{
    if found.len() > 0 {
        lemma_backoff_capped(b, found.drop_last());
        lemma_backoff_keeps_bounds(b, found.drop_last());
    }
}

/// Over any run of scans, a backoff whose start lies between one second and
/// `max` keeps its delay between `start` and `max`.
pub proof fn lemma_backoff_within_bounds(b: Backoff, found: Seq<bool>)
    requires
        1000 <= b.start <= b.max,
        b.start <= b.delay <= b.max,
    ensures
        b.start <= backoff_run(b, found).delay <= b.max,
        backoff_run(b, found).start == b.start,
        backoff_run(b, found).max == b.max,
    decreases found.len(),
{
    if found.len() > 0 {
        let prev = backoff_run(b, found.drop_last());
        lemma_backoff_within_bounds(b, found.drop_last());
        lemma_grown_delay_bounds(prev.delay as int, prev.max as int);
    }
}

/// Along a run of empty scans the delay never decreases and never exceeds
/// `max`: after `i` empty scans it is at most what it is after `j >= i`.
pub proof fn lemma_backoff_monotone(b: Backoff, i: nat, j: nat)
    requires
        1000 <= b.start <= b.max,
        b.start <= b.delay <= b.max,
        i <= j,
    ensures
        backoff_run(b, Seq::new(i, |k: int| false)).delay
            <= backoff_run(b, Seq::new(j, |k: int| false)).delay <= b.max,
    decreases j - i,
{
    let sj = Seq::new(j, |k: int| false);
    lemma_backoff_within_bounds(b, sj);
    if i < j {
        let sp = Seq::new((j - 1) as nat, |k: int| false);
        assert(sj.drop_last() =~= sp);
        lemma_backoff_monotone(b, i, (j - 1) as nat);
        let prev = backoff_run(b, sp);
        lemma_backoff_within_bounds(b, sp);
        lemma_grown_delay_bounds(prev.delay as int, prev.max as int);
    }
}

/// A scan that found something puts the delay back at exactly `start`, so
/// the empty scan after it waits the same as the first empty scan of a fresh
/// backoff.
pub proof fn lemma_backoff_resets(b: Backoff, found: Seq<bool>)
    ensures
        backoff_run(b, found.push(true)).delay == b.start,
        backoff_run(b, found.push(true).push(false))
            == backoff_run(Backoff { delay: b.start, ..b }, seq![false]),
{
    lemma_backoff_keeps_bounds(b, found);
    assert(found.push(true).drop_last() =~= found);
    assert(found.push(true).push(false).drop_last() =~= found.push(true));
    let fresh = Backoff { delay: b.start, ..b };
    assert(backoff_run(b, found.push(true)) == fresh);
    let one = seq![false];
    assert(one.drop_last() =~= Seq::<bool>::empty());
    assert(one.len() == 1 && one.last() == false);
    assert(backoff_run(fresh, Seq::<bool>::empty()) == fresh);
    assert(backoff_run(fresh, one) == backoff_step(fresh, false));
}

/// A run of scans never changes `start` or `max`.
pub proof fn lemma_backoff_keeps_bounds(b: Backoff, found: Seq<bool>)
    ensures
        backoff_run(b, found).start == b.start,
        backoff_run(b, found).max == b.max,
    decreases found.len(),
{
    if found.len() > 0 {
        lemma_backoff_keeps_bounds(b, found.drop_last());
    }
}

} // verus!
