use vstd::prelude::*;

verus! {

/// Per-period configuration, in whole minutes. All four values are
/// positive; the command line and the settings editor keep them at most
/// 1440 (one day), so the second conversions below cannot overflow.
#[derive(Clone, Copy, Debug, PartialEq, Eq, Structural)]
pub struct Settings {
    pub working_time: u64,
    pub break_time: u64,
    pub long_break_time: u64,
    pub sessions_until_long_break: u64,
}

impl Settings {
    /// All four values lie in the accepted range.
    pub open spec fn wf(self) -> bool {
        &&& 1 <= self.working_time <= 1440
        &&& 1 <= self.break_time <= 1440
        &&& 1 <= self.long_break_time <= 1440
        &&& 1 <= self.sessions_until_long_break <= 1440
    }

    /// The configuration used when no stored settings can be read:
    /// 25 minute work periods, 5 minute breaks, 15 minute long breaks,
    /// a long break after every second work period.
    pub fn default() -> (s: Settings)
        ensures
            s.working_time == 25,
            s.break_time == 5,
            s.long_break_time == 15,
            s.sessions_until_long_break == 2,
            s.wf(),
    {
        Settings {
            working_time: 25,
            break_time: 5,
            long_break_time: 15,
            sessions_until_long_break: 2,
        }
    }

    pub fn get_working_time_seconds(&self) -> (r: u64)
        requires
            self.wf(),
        ensures
            r == self.working_time * 60,
    {
        self.working_time * 60
    }

    pub fn get_break_time_seconds(&self) -> (r: u64)
        requires
            self.wf(),
        ensures
            r == self.break_time * 60,
    {
        self.break_time * 60
    }

    pub fn get_long_break_time_seconds(&self) -> (r: u64)
        requires
            self.wf(),
        ensures
            r == self.long_break_time * 60,
    {
        self.long_break_time * 60
    }
}

/// Which screen the shell is showing.
#[derive(Clone, Copy, Debug, PartialEq, Eq, Structural)]
pub enum Screen {
    Timer,
    Settings,
}

/// The settings entry the editor is pointing at.
#[derive(Clone, Copy, Debug, PartialEq, Eq, Structural)]
pub enum SettingsField {
    WorkingTime,
    BreakTime,
    LongBreakTime,
    SessionsUntilLongBreak,
}

} // verus!
