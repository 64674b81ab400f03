use vstd::prelude::*;
use crate::settings::Settings;
use crate::stats::{counts_below_max, daily_bumped, Date, SessionStats};

verus! {

/// What kind of period is timed.
#[derive(Clone, Copy, Debug, PartialEq, Eq, Structural)]
pub enum PeriodKind {
    Work,
    Break,
}

impl PeriodKind {
    /// The kind of the period that follows this one.
    pub open spec fn spec_flip(self) -> PeriodKind {
        match self {
            PeriodKind::Work => PeriodKind::Break,
            PeriodKind::Break => PeriodKind::Work,
        }
    }

    pub fn flip(self) -> (r: PeriodKind)
        ensures
            r == self.spec_flip(),
    {
        match self {
            PeriodKind::Work => PeriodKind::Break,
            PeriodKind::Break => PeriodKind::Work,
        }
    }
}

/// The observable state of the current countdown. `active` means a
/// background task exists for this period, running or paused; idle
/// between periods is zero remaining with no task.
#[derive(Clone, Copy, Debug, PartialEq, Eq, Structural)]
#[verifier::ext_equal]
pub struct TimerState {
    pub remaining_seconds: u64,
    pub running: bool,
    pub active: bool,
}

impl TimerState {
    /// A ticking countdown implies an existing task.
    pub open spec fn wf(self) -> bool {
        self.running ==> self.active
    }

    /// The state between periods: no time left, no task.
    pub open spec fn idle() -> TimerState {
        TimerState { remaining_seconds: 0, running: false, active: false }
    }
}

/// A break is long exactly when the session counter is a positive
/// multiple of the configured threshold.
pub open spec fn is_long_break(counter: u64, threshold: u64) -> bool
    recommends
        threshold >= 1,
{
    counter > 0 && counter as int % threshold as int == 0
}

/// How many seconds the next period of the given kind lasts.
pub open spec fn duration_for(period: PeriodKind, counter: u64, settings: Settings) -> int {
    match period {
        PeriodKind::Work => settings.working_time * 60,
        PeriodKind::Break => if is_long_break(counter, settings.sessions_until_long_break) {
            settings.long_break_time * 60
        } else {
            settings.break_time * 60
        },
    }
}

/// What the shell must do after a `start` command.
#[derive(Clone, Copy, Debug, PartialEq, Eq, Structural)]
pub enum StartOutcome {
    /// Abort any stale task, then spawn a countdown over `duration`
    /// seconds, seeded running and tagged with `generation`.
    Spawned { duration: u64, generation: u64 },
    /// A paused countdown exists: broadcast `running = true`.
    Resumed,
    /// The countdown is already ticking: nothing to do.
    AlreadyRunning,
}

/// What the shell must do after a `skip` command.
#[derive(Clone, Copy, Debug, PartialEq, Eq, Structural)]
pub struct SkipOutcome {
    /// A task existed: abort it and broadcast `running = false`.
    pub abort_task: bool,
    /// A work period was credited: persist the statistics.
    pub save_stats: bool,
}

/// The wording of a completion notification.
#[derive(Clone, Copy, Debug, PartialEq, Eq, Structural)]
pub enum CompletionEvent {
    /// A work period finished; the break now due is long or short.
    WorkFinished { long_break: bool },
    /// A break finished; work is due again.
    BreakFinished,
}

impl CompletionEvent {
    /// The notification summary line.
    pub fn summary(&self) -> (r: &'static str)
        ensures
            match *self {
                CompletionEvent::WorkFinished { .. } => r@ == "Session Finished"@,
                CompletionEvent::BreakFinished => r@ == "Break Finished"@,
            },
    {
        match self {
            CompletionEvent::WorkFinished { .. } => "Session Finished",
            CompletionEvent::BreakFinished => "Break Finished",
        }
    }

    /// The notification body line.
    pub fn body(&self) -> (r: &'static str)
        ensures
            match *self {
                CompletionEvent::WorkFinished { long_break } => r@ == (if long_break {
                    "Time for a long break!"@
                } else {
                    "Time for a short break"@
                }),
                CompletionEvent::BreakFinished => r@ == "Time for another session"@,
            },
    {
        match self {
            CompletionEvent::WorkFinished { long_break } => {
                if *long_break {
                    "Time for a long break!"
                } else {
                    "Time for a short break"
                }
            },
            CompletionEvent::BreakFinished => "Time for another session",
        }
    }
}

/// What a progress message led to.
#[derive(Clone, Copy, Debug, PartialEq, Eq, Structural)]
pub enum ProgressOutcome {
    /// The message came from an aborted task generation: ignored.
    Stale,
    /// Remaining time updated; the period goes on.
    Ticked,
    /// The period completed: notify, and for work persist the statistics.
    Completed(CompletionEvent),
}

/// The session orchestrator. It owns the period kind, the timer state,
/// the session counter, the settings and the statistics, and decides
/// every transition; the shell performs the outside work each outcome
/// names (spawning and aborting the task, broadcasting run/pause signals,
/// showing notifications, persisting files).
#[derive(Debug)]
#[verifier::ext_equal]
pub struct SessionController {
    pub period: PeriodKind,
    pub timer: TimerState,
    pub transition_pending: bool,
    pub session_counter: u64,
    pub generation: u64,
    pub settings: Settings,
    pub stats: SessionStats,
}

/// `pause_or_resume` as a function on states: when a countdown exists its
/// run flag is toggled; otherwise nothing changes.
pub open spec fn spec_pause(s: SessionController) -> SessionController {
    if s.timer.active {
        SessionController { timer: TimerState { running: !s.timer.running, ..s.timer }, ..s }
    } else {
        s
    }
}

/// A zero-progress event completes the current period exactly when it
/// comes from the live task generation while a task exists and no
/// completion is pending.
pub open spec fn completion_fires(s: SessionController, generation: u64, secs: u64) -> bool {
    generation == s.generation && secs == 0 && s.timer.active && !s.transition_pending
}

/// A progress message that completes nothing only updates the remaining
/// time; a stale one does not even that.
pub open spec fn spec_ticked(s: SessionController, generation: u64, secs: u64) -> SessionController {
    if generation == s.generation {
        SessionController { timer: TimerState { remaining_seconds: secs, ..s.timer }, ..s }
    } else {
        s
    }
}

impl SessionController {
    pub open spec fn wf(self) -> bool {
        &&& self.timer.wf()
        &&& self.settings.wf()
    }

    /// A fresh controller: a work period is due, no task exists, nothing
    /// has been completed yet.
    pub fn new(settings: Settings, stats: SessionStats) -> (c: SessionController)
        requires
            settings.wf(),
        ensures
            c.period == PeriodKind::Work,
            c.timer == TimerState::idle(),
            !c.transition_pending,
            c.session_counter == 0,
            c.generation == 0,
            c.settings == settings,
            c.stats == stats,
            c.wf(),
    {
        SessionController {
            period: PeriodKind::Work,
            timer: TimerState { remaining_seconds: 0, running: false, active: false },
            transition_pending: false,
            session_counter: 0,
            generation: 0,
            settings,
            stats,
        }
    }

    /// Whether the break the session counter now calls for is long.
    pub fn next_break_is_long(&self) -> (r: bool)
        requires
            self.wf(),
        ensures
            r == is_long_break(self.session_counter, self.settings.sessions_until_long_break),
    {
        self.session_counter > 0 && self.session_counter % self.settings.sessions_until_long_break
            == 0
    }

    /// The `start` command. From idle: read this period's length off the
    /// settings (the long-break length when the counter says so) and hand
    /// the shell a fresh countdown to spawn, seeded running, under a new
    /// task generation; any stale task is aborted first. While a
    /// countdown exists, `start` doubles as resume.
    pub fn start_timer(&mut self) -> (o: StartOutcome)
        requires
            old(self).wf(),
            old(self).generation < u64::MAX,
        ensures
            final(self).wf(),
            !old(self).timer.active ==> {
                &&& o == (StartOutcome::Spawned {
                    duration: duration_for(
                        old(self).period,
                        old(self).session_counter,
                        old(self).settings,
                    ) as u64,
                    generation: (old(self).generation + 1) as u64,
                })
                &&& *final(self) == (SessionController {
                    timer: TimerState {
                        remaining_seconds: duration_for(
                            old(self).period,
                            old(self).session_counter,
                            old(self).settings,
                        ) as u64,
                        running: true,
                        active: true,
                    },
                    transition_pending: false,
                    generation: (old(self).generation + 1) as u64,
                    ..*old(self)
                })
            },
            old(self).timer.active ==> {
                &&& *final(self) == (SessionController {
                    timer: TimerState { running: true, ..old(self).timer },
                    ..*old(self)
                })
                &&& o == (if old(self).timer.running {
                    StartOutcome::AlreadyRunning
                } else {
                    StartOutcome::Resumed
                })
            },
    {
        if !self.timer.active {
            let duration: u64 = match self.period {
                PeriodKind::Work => self.settings.get_working_time_seconds(),
                PeriodKind::Break => {
                    if self.session_counter > 0 && self.session_counter
                        % self.settings.sessions_until_long_break == 0 {
                        self.settings.get_long_break_time_seconds()
                    } else {
                        self.settings.get_break_time_seconds()
                    }
                },
            };
            self.transition_pending = false;
            self.timer = TimerState { remaining_seconds: duration, running: true, active: true };
            self.generation = self.generation + 1;
            StartOutcome::Spawned { duration, generation: self.generation }
        } else {
            let was_running = self.timer.running;
            self.timer.running = true;
            if was_running {
                StartOutcome::AlreadyRunning
            } else {
                StartOutcome::Resumed
            }
        }
    }

    /// The `pause_or_resume` command: flip the run flag of an existing
    /// countdown and tell the shell to broadcast the new flag; ignored
    /// when no countdown exists.
    pub fn pause_timer(&mut self) -> (signal: Option<bool>)
        requires
            old(self).wf(),
        ensures
            final(self).wf(),
            *final(self) == spec_pause(*old(self)),
            signal == (if old(self).timer.active {
                Some(!old(self).timer.running)
            } else {
                None::<bool>
            }),
    {
        if self.timer.active {
            self.timer.running = !self.timer.running;
            Some(self.timer.running)
        } else {
            None
        }
    }

    /// The `reset` command. Rejected, changing nothing, while the
    /// countdown is ticking; accepted otherwise: the task is aborted, the
    /// timer zeroed, and the same period stays due.
    pub fn reset_timer(&mut self) -> (accepted: bool)
        requires
            old(self).wf(),
            old(self).generation < u64::MAX,
        ensures
            final(self).wf(),
            accepted == !old(self).timer.running,
            !accepted ==> *final(self) == *old(self),
            accepted ==> *final(self) == (SessionController {
                timer: TimerState::idle(),
                generation: (old(self).generation + 1) as u64,
                ..*old(self)
            }),
    {
        if !self.timer.running {
            self.timer = TimerState { remaining_seconds: 0, running: false, active: false };
            self.generation = self.generation + 1;
            true
        } else {
            false
        }
    }

    /// The `skip` command: abort any countdown, zero the timer, and move
    /// on to the next period. A skipped work period is still credited,
    /// exactly as on natural completion: the session counter and the
    /// statistics go up, and the shell persists the statistics.
    pub fn skip_session(&mut self) -> (o: SkipOutcome)
        requires
            old(self).wf(),
            old(self).generation < u64::MAX,
            old(self).period == PeriodKind::Work ==> {
                &&& old(self).session_counter < u64::MAX
                &&& old(self).stats.total_sessions < u64::MAX
                &&& counts_below_max(old(self).stats.daily_sessions@)
            },
        ensures
            final(self).wf(),
            o == (SkipOutcome {
                abort_task: old(self).timer.active,
                save_stats: old(self).period == PeriodKind::Work,
            }),
            final(self).timer == TimerState::idle(),
            final(self).period == old(self).period.spec_flip(),
            final(self).generation == old(self).generation + 1,
            final(self).transition_pending == old(self).transition_pending,
            final(self).settings == old(self).settings,
            old(self).period == PeriodKind::Work ==> {
                &&& final(self).session_counter == old(self).session_counter + 1
                &&& final(self).stats.total_sessions == old(self).stats.total_sessions + 1
                &&& exists|d: Date|
                    d.wf() && #[trigger] daily_bumped(
                        old(self).stats.daily_sessions@,
                        final(self).stats.daily_sessions@,
                        d,
                    )
            },
            old(self).period == PeriodKind::Break ==> {
                &&& final(self).session_counter == old(self).session_counter
                &&& final(self).stats == old(self).stats
            },
    {
        let had_task = self.timer.active;
        self.timer = TimerState { remaining_seconds: 0, running: false, active: false };
        self.generation = self.generation + 1;
        let credit = matches!(self.period, PeriodKind::Work);
        if credit {
            self.session_counter = self.session_counter + 1;
            self.stats.increment_session();
        }
        self.period = self.period.flip();
        SkipOutcome { abort_task: had_task, save_stats: credit }
    }

    /// A progress message from the countdown task of the given
    /// generation. A message from an aborted generation is ignored; a
    /// live one updates the remaining time; a live zero completes the
    /// period exactly once. On completion the period flips; completed
    /// work credits the counter and the statistics and the returned event
    /// says whether the break now due is long; a completed break that
    /// closed a long-break cycle resets the counter.
    pub fn handle_progress(&mut self, generation: u64, secs: u64) -> (o: ProgressOutcome)
        requires
            old(self).wf(),
            completion_fires(*old(self), generation, secs) && old(self).period
                == PeriodKind::Work ==> {
                &&& old(self).session_counter < u64::MAX
                &&& old(self).stats.total_sessions < u64::MAX
                &&& counts_below_max(old(self).stats.daily_sessions@)
            },
        ensures
            final(self).wf(),
            !completion_fires(*old(self), generation, secs) ==> {
                &&& *final(self) == spec_ticked(*old(self), generation, secs)
                &&& o == (if generation == old(self).generation {
                    ProgressOutcome::Ticked
                } else {
                    ProgressOutcome::Stale
                })
            },
            completion_fires(*old(self), generation, secs) ==> {
                &&& final(self).timer == TimerState::idle()
                &&& final(self).transition_pending
                &&& final(self).period == old(self).period.spec_flip()
                &&& final(self).generation == old(self).generation
                &&& final(self).settings == old(self).settings
                &&& (old(self).period == PeriodKind::Work ==> {
                    &&& final(self).session_counter == old(self).session_counter + 1
                    &&& final(self).stats.total_sessions == old(self).stats.total_sessions + 1
                    &&& exists|d: Date|
                        d.wf() && #[trigger] daily_bumped(
                            old(self).stats.daily_sessions@,
                            final(self).stats.daily_sessions@,
                            d,
                        )
                    &&& o == ProgressOutcome::Completed(
                        CompletionEvent::WorkFinished {
                            long_break: is_long_break(
                                (old(self).session_counter + 1) as u64,
                                old(self).settings.sessions_until_long_break,
                            ),
                        },
                    )
                })
                &&& (old(self).period == PeriodKind::Break ==> {
                    &&& final(self).stats == old(self).stats
                    &&& final(self).session_counter == (if is_long_break(
                        old(self).session_counter,
                        old(self).settings.sessions_until_long_break,
                    ) {
                        0u64
                    } else {
                        old(self).session_counter
                    })
                    &&& o == ProgressOutcome::Completed(CompletionEvent::BreakFinished)
                })
            },
    {
        if generation != self.generation {
            return ProgressOutcome::Stale;
        }
        if secs == 0 && self.timer.active && !self.transition_pending {
            self.transition_pending = true;
            self.timer = TimerState { remaining_seconds: 0, running: false, active: false };
            match self.period {
                PeriodKind::Work => {
                    self.session_counter = self.session_counter + 1;
                    self.stats.increment_session();
                    let long_break = self.session_counter
                        % self.settings.sessions_until_long_break == 0;
                    self.period = PeriodKind::Break;
                    ProgressOutcome::Completed(CompletionEvent::WorkFinished { long_break })
                },
                PeriodKind::Break => {
                    if self.session_counter > 0 && self.session_counter
                        % self.settings.sessions_until_long_break == 0 {
                        self.session_counter = 0;
                    }
                    self.period = PeriodKind::Work;
                    ProgressOutcome::Completed(CompletionEvent::BreakFinished)
                },
            }
        } else {
            self.timer.remaining_seconds = secs;
            ProgressOutcome::Ticked
        }
    }
}

/// Law: issuing `pause_or_resume` twice from a state with an existing
/// countdown returns to exactly the state it started in: remaining time,
/// period, counters and statistics unchanged.
pub proof fn lemma_pause_toggle_twice(s: SessionController)
    requires
        s.timer.active,
    ensures
        spec_pause(spec_pause(s)) == s,
{
    assert(spec_pause(spec_pause(s)) =~= s);
}

/// Law: a period completes exactly once. Once a zero-progress event has
/// fired the transition (leaving the transition guard set, the timer
/// idle, and the task generation as it was), a duplicate zero for the
/// same generation fires nothing and leaves every field unchanged.
pub proof fn lemma_completion_fires_once(
    pre: SessionController,
    post: SessionController,
    generation: u64,
)
    requires
        completion_fires(pre, generation, 0),
        post.generation == pre.generation,
        post.transition_pending,
        post.timer == TimerState::idle(),
    ensures
        !completion_fires(post, generation, 0),
        spec_ticked(post, generation, 0) == post,
{
    assert(spec_ticked(post, generation, 0) =~= post);
}

} // verus!
