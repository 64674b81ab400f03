use fokus::session::{
    CompletionEvent, PeriodKind, ProgressOutcome, SessionController, SkipOutcome, StartOutcome,
};
use fokus::settings::Settings;
use fokus::stats::{Date, SessionStats};
use fokus::timer::Countdown;

fn fresh(settings: Settings) -> SessionController {
    SessionController::new(settings, SessionStats::default())
}

fn minute_settings(threshold: u64) -> Settings {
    Settings {
        working_time: 1,
        break_time: 1,
        long_break_time: 1,
        sessions_until_long_break: threshold,
    }
}

/// Drive one period from `start` to natural completion and hand back the
/// completion event.
fn complete_period(c: &mut SessionController) -> CompletionEvent {
    let outcome = c.start_timer();
    let (duration, generation) = match outcome {
        StartOutcome::Spawned { duration, generation } => (duration, generation),
        other => panic!("expected a spawned countdown, got {:?}", other),
    };
    let mut last = ProgressOutcome::Ticked;
    let mut remaining = duration;
    while remaining > 0 {
        remaining -= 1;
        last = c.handle_progress(generation, remaining);
    }
    match last {
        ProgressOutcome::Completed(event) => event,
        other => panic!("expected a completion, got {:?}", other),
    }
}

#[test]
fn start_from_idle_work_uses_working_minutes() {
    let mut c = fresh(Settings::default());
    let outcome = c.start_timer();
    assert_eq!(outcome, StartOutcome::Spawned { duration: 25 * 60, generation: 1 });
    assert_eq!(c.timer.remaining_seconds, 25 * 60);
    assert!(c.timer.running);
    assert!(c.timer.active);
    assert_eq!(c.period, PeriodKind::Work);
}

#[test]
fn start_from_idle_break_uses_short_break_minutes() {
    let mut c = fresh(Settings::default());
    c.period = PeriodKind::Break;
    c.session_counter = 1;
    let outcome = c.start_timer();
    assert_eq!(outcome, StartOutcome::Spawned { duration: 5 * 60, generation: 1 });
}

#[test]
fn start_from_idle_break_uses_long_break_minutes_at_threshold() {
    let mut c = fresh(Settings::default());
    c.period = PeriodKind::Break;
    c.session_counter = 2;
    let outcome = c.start_timer();
    assert_eq!(outcome, StartOutcome::Spawned { duration: 15 * 60, generation: 1 });
}

#[test]
fn counter_zero_never_means_a_long_break() {
    let mut c = fresh(Settings::default());
    c.period = PeriodKind::Break;
    assert!(!c.next_break_is_long());
    let outcome = c.start_timer();
    assert_eq!(outcome, StartOutcome::Spawned { duration: 5 * 60, generation: 1 });
}

#[test]
fn start_while_paused_resumes() {
    let mut c = fresh(Settings::default());
    c.start_timer();
    assert_eq!(c.pause_timer(), Some(false));
    assert!(!c.timer.running);
    let outcome = c.start_timer();
    assert_eq!(outcome, StartOutcome::Resumed);
    assert!(c.timer.running);
}

#[test]
fn start_while_running_changes_nothing() {
    let mut c = fresh(Settings::default());
    c.start_timer();
    let remaining = c.timer.remaining_seconds;
    let generation = c.generation;
    let outcome = c.start_timer();
    assert_eq!(outcome, StartOutcome::AlreadyRunning);
    assert_eq!(c.timer.remaining_seconds, remaining);
    assert_eq!(c.generation, generation);
}

#[test]
fn pause_twice_returns_to_running_with_unchanged_remaining() {
    let mut c = fresh(Settings::default());
    c.start_timer();
    let remaining = c.timer.remaining_seconds;
    assert_eq!(c.pause_timer(), Some(false));
    assert_eq!(c.pause_timer(), Some(true));
    assert!(c.timer.running);
    assert!(c.timer.active);
    assert_eq!(c.timer.remaining_seconds, remaining);
    assert_eq!(c.period, PeriodKind::Work);
}

#[test]
fn pause_when_idle_is_ignored() {
    let mut c = fresh(Settings::default());
    assert_eq!(c.pause_timer(), None);
    assert!(!c.timer.running);
    assert!(!c.timer.active);
}

#[test]
fn reset_is_rejected_while_running() {
    let mut c = fresh(Settings::default());
    c.start_timer();
    let remaining = c.timer.remaining_seconds;
    assert!(!c.reset_timer());
    assert_eq!(c.timer.remaining_seconds, remaining);
    assert!(c.timer.running);
    assert!(c.timer.active);
}

#[test]
fn reset_is_accepted_while_paused() {
    let mut c = fresh(Settings::default());
    c.start_timer();
    c.pause_timer();
    assert!(c.reset_timer());
    assert_eq!(c.timer.remaining_seconds, 0);
    assert!(!c.timer.running);
    assert!(!c.timer.active);
    assert_eq!(c.period, PeriodKind::Work);
    assert_eq!(c.session_counter, 0);
}

#[test]
fn reset_is_accepted_while_idle() {
    let mut c = fresh(Settings::default());
    assert!(c.reset_timer());
    assert_eq!(c.timer.remaining_seconds, 0);
    assert_eq!(c.period, PeriodKind::Work);
}

#[test]
fn rejected_reset_leaves_pause_working() {
    let mut c = fresh(Settings::default());
    c.start_timer();
    assert!(!c.reset_timer());
    assert_eq!(c.pause_timer(), Some(false));
    assert!(!c.timer.running);
    assert_eq!(c.pause_timer(), Some(true));
    assert!(c.timer.running);
}

#[test]
fn skip_flips_the_period_and_zeroes_the_timer() {
    let mut c = fresh(Settings::default());
    c.start_timer();
    let outcome = c.skip_session();
    assert_eq!(outcome, SkipOutcome { abort_task: true, save_stats: true });
    assert_eq!(c.period, PeriodKind::Break);
    assert_eq!(c.timer.remaining_seconds, 0);
    assert!(!c.timer.running);
    assert!(!c.timer.active);
}

#[test]
fn skipping_work_credits_the_session() {
    let mut c = fresh(Settings::default());
    let before_total = c.stats.get_total_sessions();
    let before_today = c.stats.get_today_sessions();
    let outcome = c.skip_session();
    assert!(outcome.save_stats);
    assert_eq!(c.stats.get_total_sessions(), before_total + 1);
    assert_eq!(c.stats.get_today_sessions(), before_today + 1);
    assert_eq!(c.session_counter, 1);
}

#[test]
fn skipping_break_credits_nothing() {
    let mut c = fresh(Settings::default());
    c.skip_session();
    assert_eq!(c.period, PeriodKind::Break);
    let outcome = c.skip_session();
    assert_eq!(outcome, SkipOutcome { abort_task: false, save_stats: false });
    assert_eq!(c.period, PeriodKind::Work);
    assert_eq!(c.stats.get_total_sessions(), 1);
    assert_eq!(c.session_counter, 1);
}

#[test]
fn completion_fires_the_notification_exactly_once() {
    let mut c = fresh(Settings::default());
    let outcome = c.start_timer();
    let generation = match outcome {
        StartOutcome::Spawned { generation, .. } => generation,
        other => panic!("expected a spawned countdown, got {:?}", other),
    };
    let first = c.handle_progress(generation, 0);
    assert!(matches!(first, ProgressOutcome::Completed(CompletionEvent::WorkFinished { .. })));
    assert_eq!(c.stats.get_total_sessions(), 1);
    assert_eq!(c.period, PeriodKind::Break);
    let second = c.handle_progress(generation, 0);
    assert_eq!(second, ProgressOutcome::Ticked);
    assert_eq!(c.stats.get_total_sessions(), 1);
    assert_eq!(c.period, PeriodKind::Break);
}

#[test]
fn stale_progress_is_ignored() {
    let mut c = fresh(Settings::default());
    c.start_timer();
    let remaining = c.timer.remaining_seconds;
    let outcome = c.handle_progress(0, 7);
    assert_eq!(outcome, ProgressOutcome::Stale);
    assert_eq!(c.timer.remaining_seconds, remaining);
}

#[test]
fn progress_updates_the_remaining_time() {
    let mut c = fresh(Settings::default());
    c.start_timer();
    let generation = c.generation;
    let outcome = c.handle_progress(generation, 1499);
    assert_eq!(outcome, ProgressOutcome::Ticked);
    assert_eq!(c.timer.remaining_seconds, 1499);
}

#[test]
fn break_sequence_alternates_short_long_with_threshold_two() {
    let mut c = fresh(minute_settings(2));
    let mut breaks = Vec::new();
    for _ in 0..4 {
        match complete_period(&mut c) {
            CompletionEvent::WorkFinished { long_break } => breaks.push(long_break),
            other => panic!("expected a work completion, got {:?}", other),
        }
        match complete_period(&mut c) {
            CompletionEvent::BreakFinished => {}
            other => panic!("expected a break completion, got {:?}", other),
        }
    }
    assert_eq!(breaks, vec![false, true, false, true]);
}

#[test]
fn one_minute_cycle_scenario() {
    let mut c = fresh(minute_settings(2));

    let outcome = c.start_timer();
    assert_eq!(outcome, StartOutcome::Spawned { duration: 60, generation: 1 });
    let mut remaining = 60;
    let mut last = ProgressOutcome::Ticked;
    for _ in 0..60 {
        remaining -= 1;
        last = c.handle_progress(1, remaining);
    }
    assert!(matches!(
        last,
        ProgressOutcome::Completed(CompletionEvent::WorkFinished { long_break: false })
    ));
    assert_eq!(c.stats.get_total_sessions(), 1);
    assert_eq!(c.period, PeriodKind::Break);
    assert!(!c.next_break_is_long());

    match complete_period(&mut c) {
        CompletionEvent::BreakFinished => {}
        other => panic!("expected a break completion, got {:?}", other),
    }
    assert_eq!(c.period, PeriodKind::Work);

    match complete_period(&mut c) {
        CompletionEvent::WorkFinished { long_break } => assert!(long_break),
        other => panic!("expected a work completion, got {:?}", other),
    }
    assert_eq!(c.stats.get_total_sessions(), 2);
    assert_eq!(c.period, PeriodKind::Break);
    assert!(c.next_break_is_long());
}

#[test]
fn completed_long_break_resets_the_counter() {
    let mut c = fresh(minute_settings(2));
    complete_period(&mut c);
    assert_eq!(c.session_counter, 1);
    complete_period(&mut c);
    assert_eq!(c.session_counter, 1);
    complete_period(&mut c);
    assert_eq!(c.session_counter, 2);
    assert_eq!(c.period, PeriodKind::Break);
    assert!(c.next_break_is_long());
    complete_period(&mut c);
    assert_eq!(c.session_counter, 0);
    assert_eq!(c.period, PeriodKind::Work);
}

#[test]
fn notification_wording() {
    let short = CompletionEvent::WorkFinished { long_break: false };
    let long = CompletionEvent::WorkFinished { long_break: true };
    let done = CompletionEvent::BreakFinished;
    assert_eq!(short.summary(), "Session Finished");
    assert_eq!(long.summary(), "Session Finished");
    assert_eq!(done.summary(), "Break Finished");
    assert_eq!(short.body(), "Time for a short break");
    assert_eq!(long.body(), "Time for a long break!");
    assert_eq!(done.body(), "Time for another session");
}

#[test]
fn countdown_ticks_strictly_down_to_zero() {
    let mut countdown = Countdown::new(3);
    assert!(countdown.running);
    assert_eq!(countdown.remaining, 3);
    assert_eq!(countdown.on_tick(), 2);
    assert_eq!(countdown.on_tick(), 1);
    assert!(!countdown.is_done());
    assert_eq!(countdown.on_tick(), 0);
    assert!(countdown.is_done());
}

#[test]
fn countdown_signals_pause_and_resume_without_ticking() {
    let mut countdown = Countdown::new(10);
    countdown.on_signal(false);
    assert!(!countdown.running);
    assert_eq!(countdown.remaining, 10);
    countdown.on_signal(true);
    assert!(countdown.running);
    assert_eq!(countdown.remaining, 10);
}

#[test]
fn stats_record_sessions_per_date() {
    let mut stats = SessionStats::default();
    assert_eq!(stats.get_total_sessions(), 0);
    let day_one = Date { year: 2024, month: 3, day: 9 };
    let day_two = Date { year: 2024, month: 3, day: 10 };
    stats.increment_session_on(day_one);
    stats.increment_session_on(day_one);
    stats.increment_session_on(day_two);
    assert_eq!(stats.get_total_sessions(), 3);
    assert_eq!(stats.get_sessions_for_date(day_one), 2);
    assert_eq!(stats.get_sessions_for_date(day_two), 1);
    assert_eq!(stats.get_sessions_for_date(Date { year: 2024, month: 3, day: 11 }), 0);
}

#[test]
fn todays_sessions_follow_increments() {
    let mut stats = SessionStats::default();
    assert_eq!(stats.get_today_sessions(), 0);
    stats.increment_session();
    assert_eq!(stats.get_today_sessions(), 1);
    assert_eq!(stats.get_total_sessions(), 1);
    stats.increment_session();
    assert_eq!(stats.get_today_sessions(), 2);
    assert_eq!(stats.get_total_sessions(), 2);
}
