use vstd::prelude::*;

use crate::dispatch::{is_pause_key, step_action, step_state, Action, Event, KeyPress};
use crate::phase::{lemma_toggle_twice, Status};
use crate::schedule::Opts;
use crate::timer::{tick_next, tick_outcome, App, Notice, TickOutcome};

verus! {

/// The state `n` ticks lead to, none of them taken while paused.
pub open spec fn tick_n(a: App, n: nat) -> App
    decreases n,
{
    if n == 0 {
        a
    } else {
        tick_next(tick_n(a, (n - 1) as nat))
    }
}

/// The state `n` tick events from the stream lead to; ticks that arrive
/// while paused are dropped by the dispatcher.
pub open spec fn step_ticks(a: App, n: nat) -> App
    decreases n,
{
    if n == 0 {
        a
    } else {
        step_state(step_ticks(a, (n - 1) as nat), Event::<KeyPress>::Tick)
    }
}

/// Unfolding from the front: `n` ticks from `a` are one tick, then `n - 1`
/// more.
pub proof fn lemma_tick_n_front(a: App, n: nat)
    requires
        n >= 1,
    ensures
        tick_n(a, n) == tick_n(tick_next(a), (n - 1) as nat),
    decreases n,
{
    if n == 1 {
        assert(tick_n(a, 1) == tick_next(tick_n(a, 0)));
        assert(tick_n(tick_next(a), 0) == tick_next(a));
    } else {
        lemma_tick_n_front(a, (n - 1) as nat);
        assert(tick_n(a, n) == tick_next(tick_n(a, (n - 1) as nat)));
        assert(tick_n(tick_next(a), (n - 1) as nat) == tick_next(
            tick_n(tick_next(a), (n - 2) as nat),
        ));
    }
}

/// Counting a phase down: with `k` seconds on the clock, at least one cycle
/// left and the timer not paused, `k` ticks run the clock down to zero and
/// touch nothing else — no transition, no notification, no end of the run,
/// on any of them.
pub proof fn lemma_countdown(a: App, k: nat)
    requires
        !(a.status is Pause),
        a.schedule.repeats >= 1,
        a.left_seconds == k,
    ensures
        tick_n(a, k) == (App { left_seconds: 0, ..a }),
        forall|i: nat| i < k ==> tick_outcome(tick_n(a, i)) == TickOutcome::Continue,
    decreases k,
{
    if k > 0 {
        let a1 = tick_next(a);
        lemma_countdown(a1, (k - 1) as nat);
        lemma_tick_n_front(a, k);
        assert forall|i: nat| i < k implies tick_outcome(tick_n(a, i))
            == TickOutcome::Continue by {
            if i >= 1 {
                lemma_tick_n_front(a, i);
            }
        }
    }
}

/// Completing a work phase: from `Work` with the full work interval on the
/// clock and at least one cycle left, the first `work_time * 60` ticks only
/// count down, silently; the tick after them flips the phase to `Break`,
/// resets the clock to the full break interval, and announces the end of the
/// work interval exactly once — flagging the final cycle exactly when this
/// was the last one. `repeats` is untouched by this transition.
pub proof fn lemma_work_phase(a: App)
    requires
        a.wf(),
        a.status is Work,
        a.schedule.repeats >= 1,
        a.left_seconds == a.schedule.work_time * 60,
    ensures
        forall|i: nat|
            i < a.schedule.work_time * 60 ==> tick_outcome(tick_n(a, i))
                == TickOutcome::Continue,
        tick_n(a, (a.schedule.work_time * 60) as nat) == (App { left_seconds: 0, ..a }),
        tick_outcome(tick_n(a, (a.schedule.work_time * 60) as nat)) == (TickOutcome::Transitioned {
            notice: Notice::WorkDone,
            final_cycle: a.schedule.repeats == 1,
        }),
        tick_n(a, (a.schedule.work_time * 60 + 1) as nat) == (App {
            status: Status::Break,
            left_seconds: (a.schedule.break_time * 60) as u64,
            ..a
        }),
{
    let w = (a.schedule.work_time * 60) as nat;
    lemma_countdown(a, w);
    lemma_tick_n_front(a, (w + 1) as nat);
    assert(tick_n(a, (w + 1) as nat) == tick_next(tick_n(a, w)));
}

/// Completing a break phase: from `Break` with the full break interval on
/// the clock and at least one cycle left, the countdown ticks continue
/// silently; the tick after them flips the phase back to `Work`, resets the
/// clock to the full work interval, announces the end of the break, and
/// decrements `repeats` by exactly one — the cycle just completed.
pub proof fn lemma_break_phase(a: App)
    requires
        a.wf(),
        a.status is Break,
        a.schedule.repeats >= 1,
        a.left_seconds == a.schedule.break_time * 60,
    ensures
        forall|i: nat|
            i < a.schedule.break_time * 60 ==> tick_outcome(tick_n(a, i))
                == TickOutcome::Continue,
        tick_n(a, (a.schedule.break_time * 60) as nat) == (App { left_seconds: 0, ..a }),
        tick_outcome(tick_n(a, (a.schedule.break_time * 60) as nat)) == (TickOutcome::Transitioned {
            notice: Notice::BreakDone,
            final_cycle: false,
        }),
        tick_n(a, (a.schedule.break_time * 60 + 1) as nat) == (App {
            status: Status::Work,
            left_seconds: (a.schedule.work_time * 60) as u64,
            schedule: Opts { repeats: (a.schedule.repeats - 1) as u64, ..a.schedule },
        }),
{
    let b = (a.schedule.break_time * 60) as nat;
    lemma_countdown(a, b);
    lemma_tick_n_front(a, (b + 1) as nat);
    assert(tick_n(a, (b + 1) as nat) == tick_next(tick_n(a, b)));
}

/// Pausing freezes the clock: while the status is paused, any number of tick
/// events from the stream leave the timer exactly as it is.
pub proof fn lemma_pause_freezes(a: App, n: nat)
    requires
        a.status is Pause,
    ensures
        step_ticks(a, n) == a,
    decreases n,
{
    if n > 0 {
        lemma_pause_freezes(a, (n - 1) as nat);
    }
}

/// The pause round trip: toggling pause, letting any number of ticks from
/// the stream go by, and toggling again returns the timer to exactly the
/// phase and remaining time it had before the pause.
pub proof fn lemma_pause_round_trip(a: App, k: KeyPress, n: nat)
    requires
        is_pause_key(k),
        !(a.status is Pause),
    ensures
        step_state(step_ticks(step_state(a, Event::Input(k)), n), Event::Input(k)) == a,
{
    let p = step_state(a, Event::Input(k));
    lemma_pause_freezes(p, n);
    lemma_toggle_twice(a.status);
}

/// The last cycle's work half: with exactly one cycle left, the tick that
/// observes the work countdown at zero still flips to `Break` and resets the
/// clock, but flags the final cycle, and the dispatcher turns that flag into
/// an order to notify and then end the run — the last cycle's break is not
/// run. This is the boundary policy this library commits to.
pub proof fn lemma_final_cycle(a: App)
    requires
        a.status is Work,
        a.schedule.repeats == 1,
        a.left_seconds == 0,
    ensures
        tick_outcome(a) == (TickOutcome::Transitioned {
            notice: Notice::WorkDone,
            final_cycle: true,
        }),
        step_action(a, Event::<KeyPress>::Tick) == (Action::Notify {
            notice: Notice::WorkDone,
            then_quit: true,
        }),
{
}

/// An exhausted schedule: with no cycles left, a tick ends the run at once —
/// no phase change, no decrement, no notification — whatever the phase or
/// the clock say.
pub proof fn lemma_exhausted(a: App)
    requires
        a.schedule.repeats == 0,
        !(a.status is Pause),
    ensures
        tick_next(a) == a,
        tick_outcome(a) == TickOutcome::Finished,
        step_state(a, Event::<KeyPress>::Tick) == a,
        step_action(a, Event::<KeyPress>::Tick) == Action::Quit,
{
}

/// The countdown never underflows: whatever event arrives, the clock either
/// stays where it is, is reset to a full interval by a transition, or goes
/// down by exactly one from a positive value — under any interleaving of
/// ticks, pause toggles and other keys, since every event also preserves
/// well-formedness.
pub proof fn lemma_no_underflow(a: App, ev: Event<KeyPress>)
    requires
        a.wf(),
    ensures
        step_state(a, ev).wf(),
        ({
            ||| step_state(a, ev).left_seconds == a.left_seconds
            ||| (a.left_seconds > 0 && step_state(a, ev).left_seconds == a.left_seconds - 1)
            ||| (a.left_seconds == 0 && (step_state(a, ev).left_seconds == a.schedule.work_time
                * 60 || step_state(a, ev).left_seconds == a.schedule.break_time * 60))
        }),
{
}

} // verus!

