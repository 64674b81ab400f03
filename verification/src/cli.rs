use vstd::prelude::*;
use crate::digits::{all_digits, digits_val, parse_digit_chars, str_to_chars};
use crate::settings::Settings;

verus! {

use vstd::string::StringExecFns;

/// Accept a command line time value: a decimal number of minutes between
/// 1 and 1440 (one day). Anything else is answered with the message the
/// user sees.
pub fn validate_time(s: &str) -> (r: Result<u64, String>)
    ensures
        match r {
            Ok(n) => {
                &&& s@.len() > 0
                &&& all_digits(s@)
                &&& n == digits_val(s@)
                &&& 1 <= n <= 1440
            },
            Err(m) => {
                if s@.len() == 0 || !all_digits(s@) || digits_val(s@) > u64::MAX {
                    m@ == "`"@ + s@ + "` is not a valid number"@
                } else {
                    &&& (digits_val(s@) == 0 || digits_val(s@) > 1440)
                    &&& m@ == "Time must be between 1 and 1440 minutes"@
                }
            },
        },
{
    let chars = str_to_chars(s);
    match parse_digit_chars(&chars) {
        Some(n) => {
            if n == 0 || n > 1440 {
                Err(String::from_str("Time must be between 1 and 1440 minutes"))
            } else {
                Ok(n)
            }
        },
        None => {
            let mut m = String::from_str("`");
            m.append(s);
            m.append("` is not a valid number");
            Err(m)
        },
    }
}

/// The four command line arguments, already validated: whole minutes,
/// each between 1 and 1440.
#[derive(Clone, Copy, Debug, PartialEq, Eq, Structural)]
pub struct Cli {
    pub working_time: u64,
    pub break_time: u64,
    pub long_break_time: u64,
    pub sessions_until_break_time: u64,
}

impl Cli {
    /// Every value lies in the range `validate_time` accepts.
    pub open spec fn wf(self) -> bool {
        &&& 1 <= self.working_time <= 1440
        &&& 1 <= self.break_time <= 1440
        &&& 1 <= self.long_break_time <= 1440
        &&& 1 <= self.sessions_until_break_time <= 1440
    }

    pub fn new(
        working_time: u64,
        break_time: u64,
        long_break_time: u64,
        sessions_until_break_time: u64,
    ) -> (c: Cli)
        requires
            1 <= working_time <= 1440,
            1 <= break_time <= 1440,
            1 <= long_break_time <= 1440,
            1 <= sessions_until_break_time <= 1440,
        ensures
            c == (Cli { working_time, break_time, long_break_time, sessions_until_break_time }),
            c.wf(),
    {
        Cli { working_time, break_time, long_break_time, sessions_until_break_time }
    }

    /// The configured work period, in seconds.
    pub fn get_working_time(&self) -> (r: u64)
        requires
            self.wf(),
        ensures
            r == self.working_time * 60,
    {
        self.working_time * 60
    }

    /// The configured break period, in seconds.
    pub fn get_break_time(&self) -> (r: u64)
        requires
            self.wf(),
        ensures
            r == self.break_time * 60,
    {
        self.break_time * 60
    }

    /// The settings to run with when no stored settings can be read.
    pub fn to_settings(&self) -> (s: Settings)
        requires
            self.wf(),
        ensures
            s.working_time == self.working_time,
            s.break_time == self.break_time,
            s.long_break_time == self.long_break_time,
            s.sessions_until_long_break == self.sessions_until_break_time,
            s.wf(),
    {
        Settings {
            working_time: self.working_time,
            break_time: self.break_time,
            long_break_time: self.long_break_time,
            sessions_until_long_break: self.sessions_until_break_time,
        }
    }
}

} // verus!
