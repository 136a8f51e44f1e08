//! Countdown timers with "just finished" edge detection.
//!
//! A timer accumulates elapsed milliseconds; `just_finished` is true exactly
//! on the tick where the threshold was crossed.  Repeating timers fire at
//! most once per tick however large the delta (excess time is folded away,
//! never turned into extra triggers), one-shot timers stay finished until
//! reset.

use vstd::prelude::*;

verus! {

/// Upper bound on any duration or tick delta, in milliseconds (about 31 years).
pub const MAX_TIME_MS: u64 = 1_000_000_000_000;

#[derive(Clone, Copy, PartialEq, Eq, Structural, Debug)]
pub enum TimerMode {
    /// Stays finished once the threshold is reached, until reset.
    Once,
    /// Starts over after each crossing, keeping the remainder.
    Repeating,
}

#[derive(Clone, Copy, PartialEq, Eq, Structural, Debug)]
pub struct Timer {
    pub duration_ms: u64,
    pub elapsed_ms: u64,
    pub mode: TimerMode,
    pub paused: bool,
    pub finished: bool,
    pub just_finished: bool,
}

impl Timer {
    /// Well-formedness: bounded duration, accumulator within range, and for
    /// one-shot timers the `finished` flag tracks the accumulator exactly.
    pub open spec fn wf(self) -> bool {
        &&& 1 <= self.duration_ms <= MAX_TIME_MS
        &&& self.elapsed_ms <= self.duration_ms
        &&& (self.mode == TimerMode::Once ==> (self.finished <==> self.elapsed_ms == self.duration_ms))
    }

    /// The tick transition as a mathematical function of the old state.
    pub open spec fn spec_tick(self, delta_ms: u64) -> Timer {
        if self.paused {
            Timer { just_finished: false, ..self }
        } else {
            let total = self.elapsed_ms + delta_ms;
            match self.mode {
                TimerMode::Once => {
                    if total >= self.duration_ms {
                        Timer {
                            elapsed_ms: self.duration_ms,
                            finished: true,
                            just_finished: !self.finished,
                            ..self
                        }
                    } else {
                        Timer { elapsed_ms: total as u64, finished: false, just_finished: false, ..self }
                    }
                }
                TimerMode::Repeating => {
                    if total >= self.duration_ms {
                        Timer {
                            elapsed_ms: (total % (self.duration_ms as int)) as u64,
                            finished: true,
                            just_finished: true,
                            ..self
                        }
                    } else {
                        Timer { elapsed_ms: total as u64, finished: false, just_finished: false, ..self }
                    }
                }
            }
        }
    }

    pub fn new(duration_ms: u64, mode: TimerMode) -> (t: Timer)
        requires
            1 <= duration_ms <= MAX_TIME_MS,
        ensures
            t.wf(),
            t == (Timer {
                duration_ms,
                elapsed_ms: 0,
                mode,
                paused: false,
                finished: false,
                just_finished: false,
            }),
    {
        Timer {
            duration_ms,
            elapsed_ms: 0,
            mode,
            paused: false,
            finished: false,
            just_finished: false,
        }
    }

    /// Advance the accumulator by `delta_ms`.  A paused timer does not
    /// accumulate; a one-shot timer that was already finished reports no new
    /// edge; a repeating timer that crosses its threshold fires exactly once
    /// and keeps only the remainder of the excess time.
    pub fn tick(&mut self, delta_ms: u64)
        requires
            old(self).wf(),
            delta_ms <= MAX_TIME_MS,
        ensures
            final(self).wf(),
            *final(self) == old(self).spec_tick(delta_ms),
    {
        if self.paused {
            self.just_finished = false;
            return;
        }
        let total: u64 = self.elapsed_ms + delta_ms;
        match self.mode {
            TimerMode::Once => {
                if total >= self.duration_ms {
                    self.elapsed_ms = self.duration_ms;
                    self.just_finished = !self.finished;
                    self.finished = true;
                } else {
                    self.elapsed_ms = total;
                    self.finished = false;
                    self.just_finished = false;
                }
            }
            TimerMode::Repeating => {
                if total >= self.duration_ms {
                    self.elapsed_ms = total % self.duration_ms;
                    self.finished = true;
                    self.just_finished = true;
                } else {
                    self.elapsed_ms = total;
                    self.finished = false;
                    self.just_finished = false;
                }
            }
        }
    }

    /// Start over from zero.  Does not report an edge retroactively.
    pub fn reset(&mut self)
        requires
            old(self).wf(),
        ensures
            final(self).wf(),
            *final(self) == (Timer {
                elapsed_ms: 0,
                finished: false,
                just_finished: false,
                ..*old(self)
            }),
    {
        self.elapsed_ms = 0;
        self.finished = false;
        self.just_finished = false;
    }

    /// Change the threshold.  The accumulator is clamped into the new range
    /// and the `finished` flag recomputed; the `just_finished` edge of the
    /// current tick is left untouched.
    pub fn set_duration(&mut self, duration_ms: u64)
        requires
            old(self).wf(),
            1 <= duration_ms <= MAX_TIME_MS,
        ensures
            final(self).wf(),
            final(self).duration_ms == duration_ms,
            final(self).elapsed_ms == if old(self).elapsed_ms <= duration_ms { old(self).elapsed_ms } else { duration_ms },
            final(self).finished == (old(self).elapsed_ms >= duration_ms),
            final(self).mode == old(self).mode,
            final(self).paused == old(self).paused,
            final(self).just_finished == old(self).just_finished,
    {
        self.duration_ms = duration_ms;
        if self.elapsed_ms > duration_ms {
            self.elapsed_ms = duration_ms;
        }
        self.finished = self.elapsed_ms >= duration_ms;
    }

    pub fn pause(&mut self)
        requires
            old(self).wf(),
        ensures
            final(self).wf(),
            *final(self) == (Timer { paused: true, ..*old(self) }),
    {
        self.paused = true;
    }

    pub fn unpause(&mut self)
        requires
            old(self).wf(),
        ensures
            final(self).wf(),
            *final(self) == (Timer { paused: false, ..*old(self) }),
    {
        self.paused = false;
    }

    pub fn finished(&self) -> (r: bool)
        ensures
            r == self.finished,
    {
        self.finished
    }

    pub fn just_finished(&self) -> (r: bool)
        ensures
            r == self.just_finished,
    {
        self.just_finished
    }
}

/// How many ticks of the given sequence of deltas report a `just_finished`
/// edge, starting from timer state `t`.
pub open spec fn count_fires(t: Timer, deltas: Seq<u64>) -> nat
    decreases deltas.len(),
{
    if deltas.len() == 0 {
        0
    } else {
        let t2 = t.spec_tick(deltas[0]);
        (if t2.just_finished { 1nat } else { 0nat }) + count_fires(t2, deltas.drop_first())
    }
}

/// Ticking preserves well-formedness, for a delta of any size.
pub proof fn lemma_tick_preserves_wf(t: Timer, delta_ms: u64)
    requires
        t.wf(),
    ensures
        t.spec_tick(delta_ms).wf(),
{
}

/// Each tick reports at most one edge: over any run of ticks, the number of
/// `just_finished` edges never exceeds the number of ticks, however large
/// each delta is.
pub proof fn lemma_at_most_one_fire_per_tick(t: Timer, deltas: Seq<u64>)
    requires
        t.wf(),
    ensures
        count_fires(t, deltas) <= deltas.len(),
    decreases deltas.len(),
{
    if deltas.len() > 0 {
        let t2 = t.spec_tick(deltas[0]);
        lemma_tick_preserves_wf(t, deltas[0]);
        lemma_at_most_one_fire_per_tick(t2, deltas.drop_first());
    }
}

/// A single tick fires at most once, even when the delta exceeds the
/// duration many times over: no catch-up bursts.
pub proof fn lemma_no_multi_fire(t: Timer, delta_ms: u64)
    requires
        t.wf(),
    ensures
        count_fires(t, seq![delta_ms]) <= 1,
{
    lemma_at_most_one_fire_per_tick(t, seq![delta_ms]);
}

/// A finished one-shot timer stays quiet: no run of further ticks ever
/// reports another edge (until an explicit reset).
pub proof fn lemma_once_stays_quiet(t: Timer, deltas: Seq<u64>)
    requires
        t.wf(),
        t.mode == TimerMode::Once,
        t.finished,
    ensures
        count_fires(t, deltas) == 0,
    decreases deltas.len(),
{
    if deltas.len() > 0 {
        let t2 = t.spec_tick(deltas[0]);
        lemma_tick_preserves_wf(t, deltas[0]);
        lemma_once_stays_quiet(t2, deltas.drop_first());
    }
}

/// Over any run of ticks, a one-shot timer crosses its threshold at most
/// once.
pub proof fn lemma_once_fires_at_most_once(t: Timer, deltas: Seq<u64>)
    requires
        t.wf(),
        t.mode == TimerMode::Once,
    ensures
        count_fires(t, deltas) <= 1,
    decreases deltas.len(),
{
    if deltas.len() > 0 {
        let t2 = t.spec_tick(deltas[0]);
        lemma_tick_preserves_wf(t, deltas[0]);
        if t2.just_finished {
            lemma_once_stays_quiet(t2, deltas.drop_first());
        } else {
            lemma_once_fires_at_most_once(t2, deltas.drop_first());
        }
    }
}

} // verus!
