//! The timer's state machine: a countdown through alternating work and break
//! periods, started and paused by a toggle and advanced by a tick.

use vstd::prelude::*;
use crate::display::{clock_text, format_seconds};

verus! {

/// Length of a work period, in seconds.
pub const WORK_TIME: u32 = 1500;

/// Length of a break period, in seconds.
pub const BREAK_TIME: u32 = 300;

/// The abstract state of a timer.
pub struct TimerView {
    /// Seconds left in the current period.
    pub time_remaining: nat,
    /// Whether the countdown advances on each tick.
    pub is_running: bool,
    /// Whether the current period is a work period (else a break).
    pub is_work_period: bool,
}

impl TimerView {
    /// The time left never exceeds the longer of the two periods.
    pub open spec fn wf(self) -> bool {
        self.time_remaining <= WORK_TIME
    }
}

/// Length in seconds of a work period (`true`) or of a break (`false`).
pub open spec fn period_length(work: bool) -> nat {
    if work {
        WORK_TIME as nat
    } else {
        BREAK_TIME as nat
    }
}

/// A fresh timer: a full work period, paused.
pub open spec fn initial() -> TimerView {
    TimerView { time_remaining: WORK_TIME as nat, is_running: false, is_work_period: true }
}

/// The state after a toggle: running and paused swap.
pub open spec fn toggled(v: TimerView) -> TimerView {
    TimerView { is_running: !v.is_running, ..v }
}

/// Whether a tick from `v` counts down (and the caller should keep ticking).
pub open spec fn counts_down(v: TimerView) -> bool {
    v.is_running && v.time_remaining > 0
}

/// The state after a tick. A running timer with time left loses a second; a
/// timer at zero moves to the full length of the other period, paused; a
/// paused timer with time left stays as it is.
pub open spec fn ticked(v: TimerView) -> TimerView {
    if counts_down(v) {
        TimerView { time_remaining: (v.time_remaining - 1) as nat, ..v }
    } else if v.time_remaining == 0 {
        TimerView {
            time_remaining: period_length(!v.is_work_period),
            is_running: false,
            is_work_period: !v.is_work_period,
        }
    } else {
        v
    }
}

/// The state after `n` ticks in a row.
pub open spec fn ticks(v: TimerView, n: nat) -> TimerView
    decreases n,
{
    if n == 0 {
        v
    } else {
        ticked(ticks(v, (n - 1) as nat))
    }
}

/// One of the operations that change a timer.
pub enum Command {
    Toggle,
    Tick,
    Reset,
}

/// The state after one command.
pub open spec fn applied(v: TimerView, c: Command) -> TimerView {
    match c {
        Command::Toggle => toggled(v),
        Command::Tick => ticked(v),
        Command::Reset => initial(),
    }
}

/// The state after a sequence of commands, first to last.
pub open spec fn run(v: TimerView, cs: Seq<Command>) -> TimerView
    decreases cs.len(),
{
    if cs.len() == 0 {
        v
    } else {
        run(applied(v, cs[0]), cs.drop_first())
    }
}

/// A Pomodoro timer: seconds left in the current period, whether it is
/// running, and whether the period is one of work or of break.
pub struct PomodoroTimer {
    time_remaining: u32,
    is_running: bool,
    is_work_period: bool,
}

impl View for PomodoroTimer {
    type V = TimerView;

    closed spec fn view(&self) -> TimerView {
        TimerView {
            time_remaining: self.time_remaining as nat,
            is_running: self.is_running,
            is_work_period: self.is_work_period,
        }
    }
}

impl PomodoroTimer {
    #[verifier::type_invariant]
    spec fn inv(self) -> bool {
        self.time_remaining <= WORK_TIME
    }

    /// A timer at the start of a work period, paused.
    pub fn new() -> (r: Self)
        ensures
            r@ == initial(),
    {
        PomodoroTimer { time_remaining: WORK_TIME, is_running: false, is_work_period: true }
    }

    /// Seconds left in the current period.
    pub fn time_remaining(&self) -> (r: u32)
        ensures
            r == self@.time_remaining,
            self@.wf(),
    {
        proof { use_type_invariant(self); }
        self.time_remaining
    }

    /// Whether the countdown is running.
    pub fn is_running(&self) -> (r: bool)
        ensures
            r == self@.is_running,
    {
        self.is_running
    }

    /// Whether the current period is a work period.
    pub fn is_work_period(&self) -> (r: bool)
        ensures
            r == self@.is_work_period,
    {
        self.is_work_period
    }

    /// The time left as `MM:SS`.
    pub fn format_time(&self) -> (r: String)
        ensures
            r@ == clock_text(self@.time_remaining),
    {
        format_seconds(self.time_remaining)
    }

    /// Starts a paused timer or pauses a running one; returns whether it now
    /// runs.
    pub fn toggle(&mut self) -> (r: bool)
        ensures
            final(self)@ == toggled(old(self)@),
            r == final(self)@.is_running,
            final(self)@.wf(),
    {
        proof { use_type_invariant(&*self); }
        self.is_running = !self.is_running;
        self.is_running
    }

    /// Advances the timer by one second. Returns whether the caller should
    /// keep ticking: `false` once the timer is paused or a period has ended
    /// (a period's end pauses the timer and moves to the other period).
    pub fn tick(&mut self) -> (r: bool)
        ensures
            final(self)@ == ticked(old(self)@),
            r == counts_down(old(self)@),
            final(self)@.wf(),
    {
        proof { use_type_invariant(&*self); }
        if self.is_running && self.time_remaining > 0 {
            self.time_remaining = self.time_remaining - 1;
            true
        } else if self.time_remaining == 0 {
            self.is_work_period = !self.is_work_period;
            self.time_remaining = if self.is_work_period {
                WORK_TIME
            } else {
                BREAK_TIME
            };
            self.is_running = false;
            false
        } else {
            false
        }
    }

    /// Returns to the start of a work period, paused, whatever the state.
    pub fn reset(&mut self)
        ensures
            final(self)@ == initial(),
            final(self)@.wf(),
    {
        self.time_remaining = WORK_TIME;
        self.is_running = false;
        self.is_work_period = true;
    }
}

} // verus!
