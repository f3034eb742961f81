//! Properties of the timer's state machine that span several operations.

use vstd::prelude::*;
use crate::timer::{
    applied, initial, run, ticked, ticks, toggled, Command, TimerView, WORK_TIME,
};

verus! {

/// Whatever commands are applied, in whatever order, to a state whose time
/// left is within bounds, the time left stays within bounds.
pub proof fn lemma_commands_keep_bound(v: TimerView, cs: Seq<Command>)
    requires
        v.wf(),
    ensures
        run(v, cs).wf(),
    decreases cs.len(),
{
    if cs.len() > 0 {
        assert(applied(v, cs[0]).wf());
        lemma_commands_keep_bound(applied(v, cs[0]), cs.drop_first());
    }
}

/// A running timer with `t` seconds left, after `k <= t` ticks, is still
/// running in the same period with `t - k` seconds left.
pub proof fn lemma_countdown(v: TimerView, k: nat)
    requires
        v.is_running,
        k <= v.time_remaining,
    ensures
        ticks(v, k) == (TimerView { time_remaining: (v.time_remaining - k) as nat, ..v }),
    decreases k,
{
    if k > 0 {
        lemma_countdown(v, (k - 1) as nat);
    }
}

/// Started from a fresh timer, the work period runs down to zero in as many
/// ticks as it has seconds, still running; the tick after that moves to a
/// full break, paused.
pub proof fn lemma_work_period_runs_out()
    ensures
        ticks(toggled(initial()), WORK_TIME as nat)
            == (TimerView { time_remaining: 0, is_running: true, is_work_period: true }),
        ticks(toggled(initial()), WORK_TIME as nat + 1)
            == (TimerView { time_remaining: 300, is_running: false, is_work_period: false }),
{
    lemma_countdown(toggled(initial()), WORK_TIME as nat);
}

/// Two toggles in a row on a paused timer report running, then paused, and
/// leave the timer as it was.
pub proof fn lemma_toggle_twice(v: TimerView)
    requires
        !v.is_running,
    ensures
        toggled(v).is_running,
        !toggled(toggled(v)).is_running,
        toggled(toggled(v)) == v,
{
}

/// A tick on a paused timer with time left changes nothing.
pub proof fn lemma_paused_tick_keeps_time(v: TimerView)
    requires
        !v.is_running,
        v.time_remaining > 0,
    ensures
        ticked(v) == v,
        ticked(v).time_remaining == v.time_remaining,
{
}

} // verus!
