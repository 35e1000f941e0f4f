//! Rate arithmetic and the scheduling/shutdown state machine. The timer, the
//! task spawning and the interrupt signal live outside the library; they hand
//! each event to these functions and act on what comes back.

use vstd::prelude::*;

verus! {

/// A configured rate of 0 is clamped to 1 before any division.
pub open spec fn clamped_rate(rps: u16) -> int {
    if rps == 0 {
        1
    } else {
        rps as int
    }
}

/// Fixed tick period in microseconds for the clamped rate.
pub open spec fn period_micros_spec(rps: u16) -> int {
    1_000_000int / clamped_rate(rps)
}

pub fn clamp_rate(rps: u16) -> (r: u16)
    ensures
        r as int == clamped_rate(rps),
        r >= 1,
{
    if rps == 0 {
        1
    } else {
        rps
    }
}

/// Period of the fixed-interval ticker: `1_000_000 / rate` microseconds,
/// with the rate clamped so the divisor is never zero.
pub fn tick_period_micros(rps: u16) -> (r: u64)
    ensures
        r as int == period_micros_spec(rps),
{
    let rate = clamp_rate(rps);
    1_000_000 / (rate as u64)
}

/// Law: a configured rate of 0 behaves exactly as a rate of 1 — same clamped
/// rate, same tick period, no division by zero.
pub proof fn lemma_rate_zero_behaves_as_one(rps: u16)
    requires
        rps == 0,
    ensures
        clamped_rate(rps) == clamped_rate(1),
        period_micros_spec(rps) == period_micros_spec(1),
{
}

/// Lifecycle of the run, driven by the shutdown controller.
#[derive(Clone, Copy, Debug, PartialEq, Eq, Structural)]
pub enum Phase {
    /// Ticks are being issued, one dispatch unit per tick.
    Running,
    /// An interrupt arrived: no new ticks; in-flight units are neither
    /// cancelled nor awaited.
    Draining,
    /// The final snapshot was taken and handed to the reporter.
    Reported,
    /// The process is exiting.
    Terminated,
}

/// Decision core of the rate scheduler and shutdown controller: what each
/// tick, interrupt and report event does to the lifecycle, and how many
/// dispatch units have been spawned. The caller runs the timer loop, spawns
/// a dispatch unit whenever `on_tick` says so, and feeds the interrupt in.
pub struct Scheduler {
    pub period_micros: u64,
    pub phase: Phase,
    pub ticks_issued: u64,
}

impl Scheduler {
    pub fn new(rps: u16) -> (s: Self)
        ensures
            s.period_micros as int == period_micros_spec(rps),
            s.phase == Phase::Running,
            s.ticks_issued == 0,
    {
        Scheduler { period_micros: tick_period_micros(rps), phase: Phase::Running, ticks_issued: 0 }
    }

    /// One timer tick: spawn exactly one dispatch unit while running, none
    /// once draining has begun. Fire-and-forget: the decision never depends
    /// on how many units are still in flight.
    pub fn on_tick(&mut self) -> (spawn: bool)
        requires
            old(self).ticks_issued < u64::MAX,
        ensures
            spawn == (old(self).phase == Phase::Running),
            final(self).phase == old(self).phase,
            final(self).period_micros == old(self).period_micros,
            final(self).ticks_issued == old(self).ticks_issued + if spawn {
                1int
            } else {
                0int
            },
    {
        if self.phase == Phase::Running {
            self.ticks_issued = self.ticks_issued + 1;
            true
        } else {
            false
        }
    }

    /// The external interrupt: stop issuing ticks. Repeated interrupts have
    /// no further effect.
    pub fn on_interrupt(&mut self)
        ensures
            final(self).phase == if old(self).phase == Phase::Running {
                Phase::Draining
            } else {
                old(self).phase
            },
            final(self).period_micros == old(self).period_micros,
            final(self).ticks_issued == old(self).ticks_issued,
    {
        if self.phase == Phase::Running {
            self.phase = Phase::Draining;
        }
    }

    /// The final snapshot was handed to the reporter.
    pub fn on_reported(&mut self)
        ensures
            final(self).phase == if old(self).phase == Phase::Draining {
                Phase::Reported
            } else {
                old(self).phase
            },
            final(self).period_micros == old(self).period_micros,
            final(self).ticks_issued == old(self).ticks_issued,
    {
        if self.phase == Phase::Draining {
            self.phase = Phase::Reported;
        }
    }

    /// The process is about to exit.
    pub fn on_terminated(&mut self)
        ensures
            final(self).phase == if old(self).phase == Phase::Reported {
                Phase::Terminated
            } else {
                old(self).phase
            },
            final(self).period_micros == old(self).period_micros,
            final(self).ticks_issued == old(self).ticks_issued,
    {
        if self.phase == Phase::Reported {
            self.phase = Phase::Terminated;
        }
    }
}

} // verus!
