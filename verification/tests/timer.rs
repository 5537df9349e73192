use tomato::dispatch::{handle_event, Action, Event, KeyCode, KeyPress};
use tomato::phase::{BasePhase, ColorToken, Status};
use tomato::render::{decimal_string, mm_ss_string, render_frame, two_padded_string};
use tomato::schedule::{seconds_to_minutes_seconds, Opts};
use tomato::timer::{App, Notice, TickOutcome};

fn key(c: char) -> Event<KeyPress> {
    Event::Input(KeyPress { code: KeyCode::Char(c), ctrl: false })
}

fn ctrl_key(c: char) -> Event<KeyPress> {
    Event::Input(KeyPress { code: KeyCode::Char(c), ctrl: true })
}

#[test]
fn starts_in_work_with_full_clock() {
    let app = App::new(Opts { work_time: 45, break_time: 15, repeats: 1 });
    assert_eq!(app.status, Status::Work);
    assert_eq!(app.left_seconds, 45 * 60);

    let zero = App::new(Opts { work_time: 0, break_time: 7, repeats: 3 });
    assert_eq!(zero.status, Status::Work);
    assert_eq!(zero.left_seconds, 0);
}

#[test]
fn work_phase_runs_down_then_transitions() {
    let mut app = App::new(Opts { work_time: 1, break_time: 2, repeats: 5 });
    for i in 0..60 {
        assert_eq!(app.on_tick(), TickOutcome::Continue);
        assert_eq!(app.left_seconds, 59 - i);
        assert_eq!(app.status, Status::Work);
    }
    // the tick that observes zero flips the phase and fires the one notice
    assert_eq!(
        app.on_tick(),
        TickOutcome::Transitioned { notice: Notice::WorkDone, final_cycle: false }
    );
    assert_eq!(app.status, Status::Break);
    assert_eq!(app.left_seconds, 2 * 60);
    assert_eq!(app.schedule.repeats, 5);
}

#[test]
fn break_phase_decrements_repeats() {
    let mut app = App { schedule: Opts { work_time: 1, break_time: 1, repeats: 3 }, left_seconds: 60, status: Status::Break };
    for _ in 0..60 {
        assert_eq!(app.on_tick(), TickOutcome::Continue);
    }
    assert_eq!(
        app.on_tick(),
        TickOutcome::Transitioned { notice: Notice::BreakDone, final_cycle: false }
    );
    assert_eq!(app.status, Status::Work);
    assert_eq!(app.left_seconds, 60);
    assert_eq!(app.schedule.repeats, 2);
}

#[test]
fn pause_freezes_clock_and_round_trips() {
    let mut app = App::new(Opts { work_time: 1, break_time: 1, repeats: 1 });
    for _ in 0..10 {
        app.on_tick();
    }
    let before = app;
    assert_eq!(handle_event(&mut app, &key(' ')), Action::Ignore);
    assert!(app.is_paused());
    assert_eq!(app.status, Status::Pause(BasePhase::Work));
    for _ in 0..100 {
        assert_eq!(handle_event(&mut app, &Event::Tick), Action::Ignore);
        assert_eq!(app.left_seconds, before.left_seconds);
    }
    assert_eq!(handle_event(&mut app, &key(' ')), Action::Ignore);
    assert_eq!(app, before);
}

#[test]
fn final_cycle_ends_run_at_work_break_boundary() {
    let mut app = App { schedule: Opts { work_time: 1, break_time: 1, repeats: 1 }, left_seconds: 0, status: Status::Work };
    let action = handle_event(&mut app, &Event::Tick);
    // the documented policy: the last cycle's break is not run
    assert_eq!(action, Action::Notify { notice: Notice::WorkDone, then_quit: true });
    assert_eq!(app.status, Status::Break);
    assert_eq!(app.left_seconds, 60);
}

#[test]
fn zero_repeats_finishes_on_first_tick() {
    let mut app = App::new(Opts { work_time: 1, break_time: 1, repeats: 0 });
    let before = app;
    assert_eq!(app.on_tick(), TickOutcome::Finished);
    assert_eq!(app, before);
    let mut viaev = before;
    assert_eq!(handle_event(&mut viaev, &Event::Tick), Action::Quit);
    assert_eq!(viaev, before);
}

#[test]
fn zero_length_phases_never_underflow() {
    let mut app = App::new(Opts { work_time: 0, break_time: 0, repeats: 2 });
    for _ in 0..10 {
        handle_event(&mut app, &Event::Tick);
        assert_eq!(app.left_seconds, 0);
    }
}

#[test]
fn quit_keys_quit_and_others_are_ignored() {
    let mut app = App::new(Opts { work_time: 1, break_time: 1, repeats: 1 });
    let before = app;
    assert_eq!(handle_event(&mut app, &key('q')), Action::Quit);
    assert_eq!(handle_event(&mut app, &Event::Input(KeyPress { code: KeyCode::Esc, ctrl: false })), Action::Quit);
    assert_eq!(handle_event(&mut app, &ctrl_key('c')), Action::Quit);
    assert_eq!(handle_event(&mut app, &ctrl_key('C')), Action::Quit);
    assert_eq!(handle_event(&mut app, &key('c')), Action::Ignore);
    assert_eq!(handle_event(&mut app, &key('x')), Action::Ignore);
    assert_eq!(handle_event(&mut app, &Event::Input(KeyPress { code: KeyCode::Other, ctrl: false })), Action::Ignore);
    assert_eq!(app, before);
}

#[test]
fn display_shows_wrapped_phase_while_paused() {
    let mut app = App { schedule: Opts { work_time: 1, break_time: 1, repeats: 1 }, left_seconds: 30, status: Status::Break };
    app.toggle_pause();
    assert_eq!(app.status, Status::Pause(BasePhase::Break));
    let (shown, left) = app.current_display();
    assert_eq!(shown, Status::Break);
    assert_eq!(left, 30);
    assert_eq!(app.color(), ColorToken::DarkGray);
    app.toggle_pause();
    assert_eq!(app.status, Status::Break);
    assert_eq!(app.color(), ColorToken::Green);
}

#[test]
fn formatting_matches_division_and_padding() {
    assert_eq!(seconds_to_minutes_seconds(125), (2, 5));
    assert_eq!(seconds_to_minutes_seconds(0), (0, 0));
    assert_eq!(seconds_to_minutes_seconds(3599), (59, 59));
    assert_eq!(decimal_string(0), "0");
    assert_eq!(decimal_string(12345), "12345");
    assert_eq!(two_padded_string(5), "05");
    assert_eq!(two_padded_string(59), "59");
    assert_eq!(two_padded_string(100), "100");
    assert_eq!(mm_ss_string(125), "02:05");
    assert_eq!(mm_ss_string(0), "00:00");
    assert_eq!(mm_ss_string(6000), "100:00");
}

#[test]
fn rendering_is_pure_and_really_draws_blocks() {
    let (frame1, color1) = render_frame(&Status::Work, 125);
    let (frame2, color2) = render_frame(&Status::Work, 125);
    assert_eq!(frame1, frame2);
    assert_eq!(color1, color2);
    assert_eq!(color1, ColorToken::Red);
    // the glyph renderer transformed the text: 7 rows of 8 cells per input
    // character, joined by 6 newlines
    assert_ne!(frame1, "02:05");
    assert_eq!(frame1.chars().count(), 56 * 5 + 6);
    assert_eq!(frame1.chars().filter(|c| *c == '\n').count(), 6);
}

#[test]
fn notices_carry_the_notification_text() {
    assert_eq!(Notice::WorkDone.message(), "Your work time is up, take a break!");
    assert_eq!(Notice::BreakDone.message(), "Your break time is up!!");
}

#[test]
fn full_run_work_one_break_one_repeats_two() {
    let mut app = App::new(Opts { work_time: 1, break_time: 1, repeats: 2 });
    let mut notices: Vec<(Notice, bool)> = Vec::new();
    let mut quit = false;
    let mut ticks = 0u64;
    while !quit && ticks < 1000 {
        ticks += 1;
        match handle_event(&mut app, &Event::Tick) {
            Action::Ignore => {}
            Action::Notify { notice, then_quit } => {
                notices.push((notice, then_quit));
                quit = then_quit;
            }
            Action::Quit => {
                quit = true;
            }
        }
    }
    // Work(60..0, notify) -> Break(60..0, notify, repeats 1) -> Work(60..0,
    // notify, final cycle) -> run ends at the last work/break boundary
    assert_eq!(
        notices,
        vec![
            (Notice::WorkDone, false),
            (Notice::BreakDone, false),
            (Notice::WorkDone, true),
        ]
    );
    assert_eq!(ticks, 61 + 61 + 61);
    assert_eq!(app.schedule.repeats, 1);
    assert_eq!(app.status, Status::Break);
}

#[test]
fn exhausting_all_repeats_reports_finished() {
    // run the breaks to their end too: repeats reaches zero and the next
    // tick reports the exhausted schedule
    let mut app = App { schedule: Opts { work_time: 1, break_time: 1, repeats: 1 }, left_seconds: 5, status: Status::Break };
    for _ in 0..5 {
        assert_eq!(app.on_tick(), TickOutcome::Continue);
    }
    assert_eq!(
        app.on_tick(),
        TickOutcome::Transitioned { notice: Notice::BreakDone, final_cycle: false }
    );
    assert_eq!(app.schedule.repeats, 0);
    assert_eq!(app.on_tick(), TickOutcome::Finished);
}
