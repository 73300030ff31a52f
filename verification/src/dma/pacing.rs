use vstd::prelude::*;

verus! {

/// Nanoseconds in a second.
pub const SECOND_AS_NANO: u64 = 1_000_000_000;

/// How many polls in a row may overrun the target interval before the radar warns that the
/// poll rate is too high.
pub const MISMATCH_LIMIT: u32 = 25;

/// Keeps a poll loop at its poll rate: the interval each poll should take, how many polls
/// have overrun it, and whether the warning about overruns was given.
pub struct Pacer {
    pub target_nanos: u64,
    pub mismatch_count: u32,
    pub warned: bool,
}

/// What to do after a poll: sleep this long, and whether to warn that the poll rate is too
/// high (given once, after the overruns reached their limit).
#[derive(Clone, Copy, Debug, PartialEq, Eq, Structural)]
pub struct PaceStep {
    pub sleep_nanos: u64,
    pub warn: bool,
}

impl Pacer {
    /// Overruns never pass their limit.
    pub open spec fn wf(self) -> bool {
        self.mismatch_count <= MISMATCH_LIMIT
    }

    /// A pacer for `poll_rate` polls a second: each poll should take a second divided by
    /// the rate, in whole nanoseconds.
    pub fn new(poll_rate: u16) -> (r: Pacer)
        requires
            poll_rate > 0,
        ensures
            r.wf(),
            r.target_nanos == SECOND_AS_NANO / (poll_rate as u64),
            r.mismatch_count == 0,
            !r.warned,
    {
        Pacer { target_nanos: SECOND_AS_NANO / (poll_rate as u64), mismatch_count: 0, warned: false }
    }

    /// After a poll that took `elapsed_nanos`: sleep for what is left of the target
    /// interval; a poll that overran it sleeps not at all and counts as an overrun, up to
    /// the limit, after which the first such poll warns.
    pub fn pace(&mut self, elapsed_nanos: u128) -> (r: PaceStep)
        requires
            old(self).wf(),
        ensures
            final(self).wf(),
            (*final(self), r) == pace_result(*old(self), elapsed_nanos as int),
    {
        let target = self.target_nanos as u128;
        if elapsed_nanos <= target {
            let left = (target - elapsed_nanos) as u64;
            PaceStep { sleep_nanos: left, warn: false }
        } else if self.mismatch_count >= MISMATCH_LIMIT {
            let warn = !self.warned;
            self.warned = true;
            PaceStep { sleep_nanos: 0, warn }
        } else {
            self.mismatch_count = self.mismatch_count + 1;
            PaceStep { sleep_nanos: 0, warn: false }
        }
    }
}

/// The pacer and the step after a poll that took `elapsed` nanoseconds.
pub open spec fn pace_result(p: Pacer, elapsed: int) -> (Pacer, PaceStep) {
    if elapsed <= p.target_nanos {
        (p, PaceStep { sleep_nanos: (p.target_nanos - elapsed) as u64, warn: false })
    } else if p.mismatch_count >= MISMATCH_LIMIT {
        (
            Pacer { target_nanos: p.target_nanos, mismatch_count: p.mismatch_count, warned: true },
            PaceStep { sleep_nanos: 0, warn: !p.warned },
        )
    } else {
        (
            Pacer { target_nanos: p.target_nanos, mismatch_count: (p.mismatch_count + 1) as u32, warned: p.warned },
            PaceStep { sleep_nanos: 0, warn: false },
        )
    }
}

/// The warning about the poll rate is given at most once: a pacer that warned stays so and
/// never warns again, whatever the polls take.
pub proof fn warning_given_once(p: Pacer, elapsed: int)
    requires
        p.wf(),
        p.warned,
    ensures
        !pace_result(p, elapsed).1.warn,
        pace_result(p, elapsed).0.warned,
{
}

/// A poll that kept within the target interval sleeps for exactly the rest of it, so the
/// poll and the sleep together take the interval.
pub proof fn sleep_fills_interval(p: Pacer, elapsed: int)
    requires
        0 <= elapsed <= p.target_nanos,
    ensures
        pace_result(p, elapsed).1.sleep_nanos + elapsed == p.target_nanos,
{
}

/// Only overruns count: the warning comes only after the target was overrun at least the
/// limit's number of times in all (the count only grows, by one per overrun).
pub proof fn warning_needs_overruns(p: Pacer, elapsed: int)
    requires
        p.wf(),
        pace_result(p, elapsed).1.warn,
    ensures
        elapsed > p.target_nanos,
        p.mismatch_count == MISMATCH_LIMIT,
        !p.warned,
{
}

/// A poll that overran the target interval sleeps not at all, whatever the number of
/// overruns so far; it keeps the target, and counts one more overrun up to the limit.
pub proof fn overrun_sleeps_not_at_all(p: Pacer, elapsed: int)
    requires
        p.wf(),
        elapsed > p.target_nanos,
    ensures
        pace_result(p, elapsed).1.sleep_nanos == 0,
        pace_result(p, elapsed).0.target_nanos == p.target_nanos,
        pace_result(p, elapsed).0.mismatch_count == if p.mismatch_count < MISMATCH_LIMIT { p.mismatch_count + 1 } else { p.mismatch_count as int },
{
}

} // verus!
