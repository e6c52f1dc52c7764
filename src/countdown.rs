use vstd::prelude::*;

verus! {

/// The gravity period at the start of a round: 0.7 s, in nanoseconds.
pub const INITIAL_PERIOD_NANOS: u64 = 700_000_000;

/// The period never shrinks to this value or below: 0.1 s, in nanoseconds.
pub const MIN_PERIOD_NANOS: u64 = 100_000_000;

/// The period after one lock: 10% shorter, unless that would reach the floor.
pub open spec fn shrunk_period(period: u64) -> u64 {
    let next = period - period / 10;
    if next > MIN_PERIOD_NANOS {
        next as u64
    } else {
        period
    }
}

/// The period after `locks` pieces have locked since the start of a round.
pub open spec fn period_after_locks(locks: nat) -> u64
    decreases locks,
{
    if locks == 0 {
        INITIAL_PERIOD_NANOS
    } else {
        shrunk_period(period_after_locks((locks - 1) as nat))
    }
}

/// The gravity scheduler: a tick is due each time `period_nanos` has elapsed.
pub struct Countdown {
    pub period_nanos: u64,
}

impl Countdown {
    /// The period lies above the floor.
    pub open spec fn wf(&self) -> bool {
        self.period_nanos > MIN_PERIOD_NANOS
    }

    pub fn new() -> (r: Countdown)
        ensures
            r.period_nanos == INITIAL_PERIOD_NANOS,
            r.wf(),
    {
        Countdown { period_nanos: INITIAL_PERIOD_NANOS }
    }

    /// The current period, in nanoseconds.
    pub fn period_nanos(&self) -> (r: u64)
        ensures
            r == self.period_nanos,
    {
        self.period_nanos
    }

    /// Shortens the period by 10% after a lock, unless that would reach the floor.
    pub fn on_tetromino_reached_bottom(&mut self)
        ensures
            final(self).period_nanos == shrunk_period(old(self).period_nanos),
            old(self).wf() ==> final(self).wf(),
    {
        let duration = self.period_nanos;
        let new_duration = duration - duration / 10;
        if new_duration > MIN_PERIOD_NANOS {
            self.period_nanos = new_duration;
        }
    }
}

impl Default for Countdown {
    fn default() -> (r: Countdown)
        ensures
            r.period_nanos == INITIAL_PERIOD_NANOS,
    {
        Countdown::new()
    }
}

/// However many pieces lock, the period stays above the floor.
pub proof fn lemma_period_stays_above_floor(locks: nat)
    ensures
        period_after_locks(locks) > MIN_PERIOD_NANOS,
    decreases locks,
{
    if locks > 0 {
        lemma_period_stays_above_floor((locks - 1) as nat);
    }
}

} // verus!
