use vstd::prelude::*;

use crate::phase::{color_of, toggled, unwrapped, BasePhase, ColorToken, Status};
use crate::schedule::Opts;

verus! {

/// Which phase just completed; the caller turns this into the notification
/// text it delivers.
#[derive(Clone, Copy, PartialEq, Eq, Structural, Debug)]
pub enum Notice {
    /// A work interval ended and a break begins.
    WorkDone,
    /// A break interval ended and a work interval begins.
    BreakDone,
}

/// The notification text delivered when a phase completes.
pub open spec fn message_of(n: Notice) -> Seq<char> {
    match n {
        Notice::WorkDone => "Your work time is up, take a break!"@,
        Notice::BreakDone => "Your break time is up!!"@,
    }
}

impl Notice {
    /// The notification text for this completed phase.
    pub fn message(&self) -> (r: &'static str)
        ensures
            r@ == message_of(*self),
    {
        match self {
            Notice::WorkDone => "Your work time is up, take a break!",
            Notice::BreakDone => "Your break time is up!!",
        }
    }
}

/// What one tick of the clock amounted to.
#[derive(Clone, Copy, PartialEq, Eq, Structural, Debug)]
pub enum TickOutcome {
    /// One second elapsed; nothing else happened.
    Continue,
    /// The countdown hit zero and the phase flipped. `notice` names the phase
    /// that completed; `final_cycle` is set when the work half of the last
    /// remaining cycle just finished, and tells the caller to end the run
    /// right away (the policy here: the last cycle's break is not run).
    Transitioned { notice: Notice, final_cycle: bool },
    /// The schedule is exhausted: no cycles remain, so the run is over.
    Finished,
}

/// The timer itself: the schedule it runs, the seconds left in the current
/// phase, and which phase it is in.
#[derive(Clone, Copy, PartialEq, Eq, Structural, Debug)]
pub struct App {
    /// The run's configuration; `schedule.repeats` counts the cycles left.
    pub schedule: Opts,
    /// Seconds left in the current phase.
    pub left_seconds: u64,
    /// The current phase, possibly paused.
    pub status: Status,
}

/// The state one tick leads to, for a timer that is not paused. The schedule
/// being exhausted freezes the state; a countdown at zero flips the phase and
/// resets the countdown to the other phase's length (counting a finished
/// break against `repeats`); otherwise one second elapses.
pub open spec fn tick_next(a: App) -> App {
    if a.schedule.repeats == 0 {
        a
    } else if a.left_seconds == 0 {
        match a.status {
            Status::Work => App {
                status: Status::Break,
                left_seconds: (a.schedule.break_time * 60) as u64,
                ..a
            },
            Status::Break => App {
                status: Status::Work,
                left_seconds: (a.schedule.work_time * 60) as u64,
                schedule: Opts { repeats: (a.schedule.repeats - 1) as u64, ..a.schedule },
            },
            Status::Pause(_) => a,
        }
    } else {
        App { left_seconds: (a.left_seconds - 1) as u64, ..a }
    }
}

/// What the tick reports, matching `tick_next` case for case.
pub open spec fn tick_outcome(a: App) -> TickOutcome {
    if a.schedule.repeats == 0 {
        TickOutcome::Finished
    } else if a.left_seconds == 0 {
        match a.status {
            Status::Work => TickOutcome::Transitioned {
                notice: Notice::WorkDone,
                final_cycle: a.schedule.repeats == 1,
            },
            Status::Break => TickOutcome::Transitioned {
                notice: Notice::BreakDone,
                final_cycle: false,
            },
            Status::Pause(_) => TickOutcome::Continue,
        }
    } else {
        TickOutcome::Continue
    }
}

impl App {
    /// The interval lengths fit in seconds; every constructor establishes
    /// this and every step preserves it.
    pub open spec fn wf(self) -> bool {
        self.schedule.wf()
    }

    /// A fresh timer: the run starts in `Work` with the full work interval,
    /// in seconds, on the clock.
    pub fn new(schedule: Opts) -> (r: App)
        requires
            schedule.wf(),
        ensures
            r == (App { schedule, left_seconds: (schedule.work_time * 60) as u64, status: Status::Work }),
            r.wf(),
    {
        let left_seconds: u64 = schedule.work_time * 60;
        App { schedule, left_seconds, status: Status::Work }
    }

    /// One tick of the clock, for a timer that is not paused: the caller must
    /// check for pause first, so a paused countdown stays frozen. Exhausted
    /// schedule (`repeats == 0`, checked before anything else) reports
    /// `Finished` and changes nothing; a countdown at zero flips the phase as
    /// `tick_next` says and reports the transition; otherwise one second is
    /// taken off the countdown. The countdown never underflows: it is only
    /// decremented when positive.
    pub fn on_tick(&mut self) -> (r: TickOutcome)
        requires
            old(self).wf(),
            !(old(self).status is Pause),
        ensures
            *final(self) == tick_next(*old(self)),
            r == tick_outcome(*old(self)),
            final(self).wf(),
    {
        if self.schedule.repeats == 0 {
            TickOutcome::Finished
        } else if self.left_seconds == 0 {
            match self.status {
                Status::Work => {
                    let final_cycle = self.schedule.repeats == 1;
                    self.status = Status::Break;
                    self.left_seconds = self.schedule.break_time * 60;
                    TickOutcome::Transitioned { notice: Notice::WorkDone, final_cycle }
                },
                // the precondition rules the paused case out
                Status::Break | Status::Pause(_) => {
                    self.schedule.repeats = self.schedule.repeats - 1;
                    self.status = Status::Work;
                    self.left_seconds = self.schedule.work_time * 60;
                    TickOutcome::Transitioned { notice: Notice::BreakDone, final_cycle: false }
                },
            }
        } else {
            self.left_seconds = self.left_seconds - 1;
            TickOutcome::Continue
        }
    }

    /// Toggles pause: a running phase is wrapped in `Pause`, a paused one is
    /// restored exactly as it was. The countdown and the schedule are
    /// untouched, which is what freezes the clock while paused.
    pub fn toggle_pause(&mut self)
        ensures
            final(self).status == toggled(old(self).status),
            final(self).left_seconds == old(self).left_seconds,
            final(self).schedule == old(self).schedule,
    {
        self.status = match self.status {
            Status::Work => Status::Pause(BasePhase::Work),
            Status::Break => Status::Pause(BasePhase::Break),
            Status::Pause(BasePhase::Work) => Status::Work,
            Status::Pause(BasePhase::Break) => Status::Break,
        };
    }

    /// Whether the timer is currently paused.
    pub fn is_paused(&self) -> (r: bool)
        ensures
            r == (self.status is Pause),
    {
        self.status.is_paused()
    }

    /// What the clock face shows: the phase with any pause wrapper stripped,
    /// and the seconds left. A paused timer shows the wrapped phase's data
    /// unchanged, so the displayed clock visibly freezes.
    pub fn current_display(&self) -> (r: (Status, u64))
        ensures
            r.0 == unwrapped(self.status),
            !(r.0 is Pause),
            r.1 == self.left_seconds,
    {
        let shown = match self.status {
            Status::Work | Status::Pause(BasePhase::Work) => Status::Work,
            Status::Break | Status::Pause(BasePhase::Break) => Status::Break,
        };
        (shown, self.left_seconds)
    }

    /// The color the clock is drawn in, from the current status: paused
    /// timers get the pause color, not the wrapped phase's.
    pub fn color(&self) -> (r: ColorToken)
        ensures
            r == color_of(self.status),
    {
        self.status.color()
    }
}

} // verus!
