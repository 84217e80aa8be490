//! Countdown timer state machine.
//!
//! A timer is constructed against the resolved clock tree with a nonzero
//! period, counts down once enabled, and on reaching its period boundary
//! reloads and latches its pending flag (the hardware match that asserts
//! the interrupt line).  The handler must clear the pending flag within
//! the interval; a flag left set is observable as continuous immediate
//! re-firing rather than a silent hang.

use vstd::prelude::*;

use crate::clocks::ResolvedClocks;
use crate::registry::TimerHandle;

verus! {

/// Ghost model of a countdown timer: its reload period, the ticks left
/// in the current interval, whether it is counting, and whether its
/// hardware match flag is asserted.
pub struct TimerModel {
    pub period: int,
    pub remaining: int,
    pub enabled: bool,
    pub pending: bool,
}

/// Well-formedness of a timer model: a nonzero period and a remaining
/// count inside the current interval.
pub open spec fn model_wf(m: TimerModel) -> bool {
    &&& m.period >= 1
    &&& 1 <= m.remaining <= m.period
}

/// Whether the next tick is the hardware match of the current interval.
pub open spec fn tick_fires(m: TimerModel) -> bool {
    m.enabled && m.remaining == 1
}

/// Effect of one hardware clock tick: a disabled timer holds still; an
/// enabled one counts down, and on the match reloads its period and
/// latches the pending flag (latching over an already-set flag coalesces).
pub open spec fn tick_model(m: TimerModel) -> TimerModel {
    if !m.enabled {
        m
    } else if m.remaining == 1 {
        TimerModel { period: m.period, remaining: m.period, enabled: true, pending: true }
    } else {
        TimerModel {
            period: m.period,
            remaining: m.remaining - 1,
            enabled: m.enabled,
            pending: m.pending,
        }
    }
}

/// Effect of enabling: counting starts from the full period.
pub open spec fn enable_model(m: TimerModel) -> TimerModel {
    TimerModel { period: m.period, remaining: m.period, enabled: true, pending: m.pending }
}

/// Effect of the handler clearing the hardware match flag.
pub open spec fn clear_model(m: TimerModel) -> TimerModel {
    TimerModel { period: m.period, remaining: m.remaining, enabled: m.enabled, pending: false }
}

/// The model after `n` hardware ticks.
pub open spec fn advance_model(m: TimerModel, n: nat) -> TimerModel
    decreases n,
{
    if n == 0 {
        m
    } else {
        tick_model(advance_model(m, (n - 1) as nat))
    }
}

/// How many of the first `n` ticks are hardware matches.
pub open spec fn fired_count(m: TimerModel, n: nat) -> int
    decreases n,
{
    if n == 0 {
        0
    } else {
        fired_count(m, (n - 1) as nat) + if tick_fires(advance_model(m, (n - 1) as nat)) {
            1int
        } else {
            0int
        }
    }
}

/// Law: an enabled timer at the start of an interval fires exactly once
/// per period-length interval — no tick before the period boundary is a
/// match, the boundary tick is, and it returns the timer to the start of
/// the next interval with the pending flag asserted.
pub proof fn lemma_fires_once_per_period(m: TimerModel, k: nat)
    requires
        model_wf(m),
        m.enabled,
        m.remaining == m.period,
        k <= m.period,
    ensures
        fired_count(m, k) == if k == m.period {
            1int
        } else {
            0int
        },
        advance_model(m, k).period == m.period,
        advance_model(m, k).enabled,
        advance_model(m, k).remaining == if k == m.period {
            m.period
        } else {
            m.period - k
        },
        k == m.period ==> advance_model(m, k).pending,
        k < m.period ==> advance_model(m, k).pending == m.pending,
    decreases k,
{
    if k > 0 {
        lemma_fires_once_per_period(m, (k - 1) as nat);
    }
}

/// Law: a serviced interval repeats.  Running a full period from the
/// start of an interval and clearing the match flag puts the timer back
/// at the start of the next interval, satisfying the single-interval
/// law again — so the line fires exactly once per period-length
/// interval for as long as the handler keeps clearing the flag.
pub proof fn lemma_serviced_interval_repeats(m: TimerModel)
    requires
        model_wf(m),
        m.enabled,
        m.remaining == m.period,
    ensures
        ({
            let next = clear_model(advance_model(m, m.period as nat));
            &&& model_wf(next)
            &&& next.enabled
            &&& next.remaining == next.period
            &&& !next.pending
            &&& next.period == m.period
        }),
{
    lemma_fires_once_per_period(m, m.period as nat);
}

/// A countdown timer unit, constructed on an exclusively owned timer
/// block against the committed clock tree.
pub struct CountdownTimer {
    unit: u8,
    period: u32,
    remaining: u32,
    enabled: bool,
    pending: bool,
}

impl CountdownTimer {
    /// The ghost model of this timer.
    pub closed spec fn model(&self) -> TimerModel {
        TimerModel {
            period: self.period as int,
            remaining: self.remaining as int,
            enabled: self.enabled,
            pending: self.pending,
        }
    }

    /// The timer unit this driver owns.
    pub closed spec fn unit_spec(&self) -> u8 {
        self.unit
    }

    /// Structural invariant of the running driver.
    pub open spec fn wf(&self) -> bool {
        model_wf(self.model())
    }

    /// Construct the timer in its configured, not-yet-counting state.
    ///
    /// Taking the [`TimerHandle`] by value consumes the unit's ownership,
    /// and taking [`ResolvedClocks`] by reference makes construction
    /// before clock resolution impossible: the only source of such a
    /// value is a successful resolution.
    pub fn new(handle: TimerHandle, _clocks: &ResolvedClocks, period_ticks: u32) -> (timer: Self)
        requires
            period_ticks >= 1,
        ensures
            timer.wf(),
            timer.unit_spec() == handle.unit_spec(),
            timer.model() == (TimerModel {
                period: period_ticks as int,
                remaining: period_ticks as int,
                enabled: false,
                pending: false,
            }),
    {
        CountdownTimer {
            unit: handle.unit(),
            period: period_ticks,
            remaining: period_ticks,
            enabled: false,
            pending: false,
        }
    }

    /// Start counting from the full period.
    pub fn enable(&mut self)
        requires
            old(self).wf(),
        ensures
            final(self).wf(),
            final(self).model() == enable_model(old(self).model()),
            final(self).unit_spec() == old(self).unit_spec(),
    {
        self.enabled = true;
        self.remaining = self.period;
    }

    /// One hardware clock tick; returns whether this tick was the match
    /// that asserts the interrupt line.
    pub fn tick(&mut self) -> (fired: bool)
        requires
            old(self).wf(),
        ensures
            final(self).wf(),
            final(self).model() == tick_model(old(self).model()),
            fired == tick_fires(old(self).model()),
            final(self).unit_spec() == old(self).unit_spec(),
    {
        if !self.enabled {
            false
        } else if self.remaining == 1 {
            self.remaining = self.period;
            self.pending = true;
            true
        } else {
            self.remaining = self.remaining - 1;
            false
        }
    }

    /// Run `ticks` hardware clock ticks; returns how many of them were
    /// matches.
    pub fn advance(&mut self, ticks: u32) -> (fired: u32)
        requires
            old(self).wf(),
        ensures
            final(self).wf(),
            final(self).model() == advance_model(old(self).model(), ticks as nat),
            fired == fired_count(old(self).model(), ticks as nat),
            final(self).unit_spec() == old(self).unit_spec(),
    {
        let mut done: u32 = 0;
        let mut fired: u32 = 0;
        while done < ticks
            invariant
                done <= ticks,
                fired <= done,
                old(self).wf(),
                self.wf(),
                self.model() == advance_model(old(self).model(), done as nat),
                fired == fired_count(old(self).model(), done as nat),
                self.unit_spec() == old(self).unit_spec(),
            decreases ticks - done,
        {
            proof {
                lemma_fired_count_bounded(old(self).model(), (done + 1) as nat);
            }
            let matched = self.tick();
            if matched {
                fired = fired + 1;
            }
            done = done + 1;
        }
        fired
    }

    /// The handler's explicit acknowledgement: clear the hardware match
    /// flag, returning the timer to plain counting.  A handler that
    /// omits this sees the line re-fire immediately.
    pub fn clear_pending(&mut self)
        requires
            old(self).wf(),
        ensures
            final(self).wf(),
            final(self).model() == clear_model(old(self).model()),
            final(self).unit_spec() == old(self).unit_spec(),
    {
        self.pending = false;
    }

    /// Whether the hardware match flag is asserted.
    pub fn interrupt_asserted(&self) -> (asserted: bool)
        ensures
            asserted == self.model().pending,
    {
        self.pending
    }

    /// The configured reload period, in ticks.
    pub fn period(&self) -> (ticks: u32)
        ensures
            ticks == self.model().period,
    {
        self.period
    }
}

/// Helper law: no run of ticks fires more often than it has ticks.
pub proof fn lemma_fired_count_bounded(m: TimerModel, n: nat)
    ensures
        0 <= fired_count(m, n) <= n,
    decreases n,
{
    if n > 0 {
        lemma_fired_count_bounded(m, (n - 1) as nat);
    }
}

} // verus!
