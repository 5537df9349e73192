use vstd::prelude::*;

use crate::phase::toggled;
use crate::timer::{tick_next, tick_outcome, App, Notice, TickOutcome};

verus! {

/// One event from the merged stream: a keystroke from the input reader, or a
/// one-second tick from the ticker.
#[derive(PartialEq, Eq, Structural, Debug)]
pub enum Event<I> {
    Input(I),
    Tick,
}

/// A keystroke, reduced to what the timer cares about.
#[derive(Clone, Copy, PartialEq, Eq, Structural, Debug)]
pub enum KeyCode {
    Char(char),
    Esc,
    Other,
}

/// A key together with whether Control was held.
#[derive(Clone, Copy, PartialEq, Eq, Structural, Debug)]
pub struct KeyPress {
    pub code: KeyCode,
    pub ctrl: bool,
}

/// What the caller must do after an event is applied: nothing, deliver a
/// notification (ending the run afterwards when `then_quit` is set), or tear
/// the terminal down and exit.
#[derive(Clone, Copy, PartialEq, Eq, Structural, Debug)]
pub enum Action {
    Ignore,
    Notify { notice: Notice, then_quit: bool },
    Quit,
}

/// The keys that end the run: `q`, Escape, and Control with `c` or `C`.
pub open spec fn is_quit_key(k: KeyPress) -> bool {
    ||| k.code == KeyCode::Char('q')
    ||| k.code is Esc
    ||| k.ctrl && (k.code == KeyCode::Char('c') || k.code == KeyCode::Char('C'))
}

/// The key that toggles pause: the space bar.
pub open spec fn is_pause_key(k: KeyPress) -> bool {
    k.code == KeyCode::Char(' ')
}

/// The state one event leads to. Keystrokes never touch the clock except the
/// pause key; a tick is dropped while paused and is `tick_next` otherwise.
pub open spec fn step_state(a: App, ev: Event<KeyPress>) -> App {
    match ev {
        Event::Input(k) => if !is_quit_key(k) && is_pause_key(k) {
            App { status: toggled(a.status), ..a }
        } else {
            a
        },
        Event::Tick => if a.status is Pause {
            a
        } else {
            tick_next(a)
        },
    }
}

/// What the caller is told to do for one event: quit keys quit, a transition
/// asks for its notification (and for the run's end on the final cycle), an
/// exhausted schedule asks for the run's end, everything else is ignored.
pub open spec fn step_action(a: App, ev: Event<KeyPress>) -> Action {
    match ev {
        Event::Input(k) => if is_quit_key(k) {
            Action::Quit
        } else {
            Action::Ignore
        },
        Event::Tick => if a.status is Pause {
            Action::Ignore
        } else {
            match tick_outcome(a) {
                TickOutcome::Continue => Action::Ignore,
                TickOutcome::Transitioned { notice, final_cycle } => Action::Notify {
                    notice,
                    then_quit: final_cycle,
                },
                TickOutcome::Finished => Action::Quit,
            }
        },
    }
}

/// Applies one event from the merged stream to the timer and says what the
/// caller must do next. This is the whole decision part of the main loop:
/// the caller only renders, blocks for the next event, and performs the
/// returned action.
pub fn handle_event(app: &mut App, ev: &Event<KeyPress>) -> (r: Action)
    requires
        old(app).wf(),
    ensures
        *final(app) == step_state(*old(app), *ev),
        r == step_action(*old(app), *ev),
        final(app).wf(),
{
    match ev {
        Event::Input(k) => {
            let quit = match k.code {
                KeyCode::Char('q') => true,
                KeyCode::Esc => true,
                KeyCode::Char('c') | KeyCode::Char('C') => k.ctrl,
                _ => false,
            };
            if quit {
                Action::Quit
            } else {
                let pause = match k.code {
                    KeyCode::Char(' ') => true,
                    _ => false,
                };
                if pause {
                    app.toggle_pause();
                }
                Action::Ignore
            }
        },
        Event::Tick => {
            if app.is_paused() {
                Action::Ignore
            } else {
                match app.on_tick() {
                    TickOutcome::Continue => Action::Ignore,
                    TickOutcome::Transitioned { notice, final_cycle } => Action::Notify {
                        notice,
                        then_quit: final_cycle,
                    },
                    TickOutcome::Finished => Action::Quit,
                }
            }
        },
    }
}

} // verus!
