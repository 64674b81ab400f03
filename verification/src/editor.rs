use vstd::prelude::*;
use crate::digits::{
    all_digits, dec_digits, digits_val, is_digit, lemma_dec_digits_roundtrip,
    lemma_digits_val_below_pow10, lemma_digits_val_nonneg, parse_digit_chars, pow10,
    to_decimal_chars,
};
use crate::settings::{Settings, SettingsField};

verus! {

/// The value one settings entry holds.
pub open spec fn field_value(s: Settings, f: SettingsField) -> u64 {
    match f {
        SettingsField::WorkingTime => s.working_time,
        SettingsField::BreakTime => s.break_time,
        SettingsField::LongBreakTime => s.long_break_time,
        SettingsField::SessionsUntilLongBreak => s.sessions_until_long_break,
    }
}

/// `s` with one entry replaced.
pub open spec fn set_field(s: Settings, f: SettingsField, v: u64) -> Settings {
    match f {
        SettingsField::WorkingTime => Settings { working_time: v, ..s },
        SettingsField::BreakTime => Settings { break_time: v, ..s },
        SettingsField::LongBreakTime => Settings { long_break_time: v, ..s },
        SettingsField::SessionsUntilLongBreak => Settings { sessions_until_long_break: v, ..s },
    }
}

/// The entry above `f` in display order; the list wraps around.
pub open spec fn prev_field(f: SettingsField) -> SettingsField {
    match f {
        SettingsField::WorkingTime => SettingsField::SessionsUntilLongBreak,
        SettingsField::BreakTime => SettingsField::WorkingTime,
        SettingsField::LongBreakTime => SettingsField::BreakTime,
        SettingsField::SessionsUntilLongBreak => SettingsField::LongBreakTime,
    }
}

/// The entry below `f` in display order; the list wraps around.
pub open spec fn next_field(f: SettingsField) -> SettingsField {
    match f {
        SettingsField::WorkingTime => SettingsField::BreakTime,
        SettingsField::BreakTime => SettingsField::LongBreakTime,
        SettingsField::LongBreakTime => SettingsField::SessionsUntilLongBreak,
        SettingsField::SessionsUntilLongBreak => SettingsField::WorkingTime,
    }
}

/// The settings editor: which entry is pointed at, whether it is open for
/// editing, and the digits typed so far.
#[derive(Debug)]
pub struct SettingsEditor {
    pub field: SettingsField,
    pub editing: bool,
    pub buffer: Vec<char>,
}

impl SettingsEditor {
    /// The buffer holds digits spelling a value the settings accept.
    pub open spec fn wf(self) -> bool {
        &&& all_digits(self.buffer@)
        &&& digits_val(self.buffer@) <= 1440
    }

    pub fn new() -> (e: SettingsEditor)
        ensures
            e.field == SettingsField::WorkingTime,
            !e.editing,
            e.buffer@ == Seq::<char>::empty(),
            e.wf(),
    {
        let e = SettingsEditor { field: SettingsField::WorkingTime, editing: false, buffer: Vec::new() };
        proof {
            assert(digits_val(e.buffer@) == 0);
        }
        e
    }

    /// Point at the entry above.
    pub fn previous_setting(&mut self)
        ensures
            final(self).field == prev_field(old(self).field),
            final(self).editing == old(self).editing,
            final(self).buffer == old(self).buffer,
    {
        self.field = match self.field {
            SettingsField::WorkingTime => SettingsField::SessionsUntilLongBreak,
            SettingsField::BreakTime => SettingsField::WorkingTime,
            SettingsField::LongBreakTime => SettingsField::BreakTime,
            SettingsField::SessionsUntilLongBreak => SettingsField::LongBreakTime,
        };
    }

    /// Point at the entry below.
    pub fn next_setting(&mut self)
        ensures
            final(self).field == next_field(old(self).field),
            final(self).editing == old(self).editing,
            final(self).buffer == old(self).buffer,
    {
        self.field = match self.field {
            SettingsField::WorkingTime => SettingsField::BreakTime,
            SettingsField::BreakTime => SettingsField::LongBreakTime,
            SettingsField::LongBreakTime => SettingsField::SessionsUntilLongBreak,
            SettingsField::SessionsUntilLongBreak => SettingsField::WorkingTime,
        };
    }

    /// Open the pointed-at entry: the buffer shows its current value.
    pub fn start_editing(&mut self, settings: &Settings)
        requires
            settings.wf(),
        ensures
            final(self).editing,
            final(self).field == old(self).field,
            final(self).buffer@ == dec_digits(field_value(*settings, old(self).field) as nat),
            final(self).wf(),
    {
        self.editing = true;
        let v: u64 = match self.field {
            SettingsField::WorkingTime => settings.working_time,
            SettingsField::BreakTime => settings.break_time,
            SettingsField::LongBreakTime => settings.long_break_time,
            SettingsField::SessionsUntilLongBreak => settings.sessions_until_long_break,
        };
        self.buffer = to_decimal_chars(v);
        proof {
            lemma_dec_digits_roundtrip(v as nat);
        }
    }

    /// A typed character: a digit is appended while fewer than three
    /// digits stand in the buffer; anything else is ignored.
    pub fn type_char(&mut self, c: char)
        ensures
            final(self).field == old(self).field,
            final(self).editing == old(self).editing,
            final(self).buffer@ == (if is_digit(c) && old(self).buffer@.len() < 3 {
                old(self).buffer@.push(c)
            } else {
                old(self).buffer@
            }),
            old(self).wf() ==> final(self).wf(),
    {
        let u = c as u32;
        if 48 <= u && u <= 57 && self.buffer.len() < 3 {
            let ghost before = self.buffer@;
            self.buffer.push(c);
            proof {
                assert(forall|i: int|
                    0 <= i < before.push(c).len() ==> is_digit(#[trigger] before.push(c)[i])
                        == (if i < before.len() {
                        is_digit(before[i])
                    } else {
                        is_digit(c)
                    }));
                if all_digits(before) {
                    assert(all_digits(before.push(c)));
                    lemma_digits_val_below_pow10(before.push(c));
                    assert(pow10(0) == 1);
                    assert(pow10(1) == 10);
                    assert(pow10(2) == 100);
                    assert(pow10(3) == 1000);
                }
            }
        }
    }

    /// A backspace: drop the last typed digit.
    pub fn backspace(&mut self)
        ensures
            final(self).field == old(self).field,
            final(self).editing == old(self).editing,
            final(self).buffer@ == (if old(self).buffer@.len() > 0 {
                old(self).buffer@.drop_last()
            } else {
                old(self).buffer@
            }),
            old(self).wf() ==> final(self).wf(),
    {
        let ghost before = self.buffer@;
        self.buffer.pop();
        proof {
            if before.len() > 0 && all_digits(before) {
                assert(all_digits(before.drop_last()));
                lemma_digits_val_nonneg(before.drop_last());
                assert(is_digit(before.last()));
                assert(digits_val(before) == digits_val(before.drop_last()) * 10 + (
                before.last() as u32 - 48));
            }
        }
    }

    /// Abandon the edit: the buffer is discarded, nothing is stored.
    pub fn cancel_editing(&mut self)
        ensures
            final(self).field == old(self).field,
            !final(self).editing,
            final(self).buffer@ == Seq::<char>::empty(),
            final(self).wf(),
    {
        self.editing = false;
        self.buffer.clear();
        proof {
            assert(digits_val(self.buffer@) == 0);
        }
    }

    /// Close the edit. A buffer spelling a positive value is stored into
    /// the pointed-at entry; an empty or zero buffer stores nothing.
    /// Says whether the settings changed and must be persisted.
    pub fn save_field(&mut self, settings: &mut Settings) -> (saved: bool)
        requires
            old(self).wf(),
            old(settings).wf(),
        ensures
            final(self).field == old(self).field,
            !final(self).editing,
            final(self).buffer@ == Seq::<char>::empty(),
            final(self).wf(),
            final(settings).wf(),
            saved == (old(self).buffer@.len() > 0 && digits_val(old(self).buffer@) >= 1),
            saved ==> *final(settings) == set_field(
                *old(settings),
                old(self).field,
                digits_val(old(self).buffer@) as u64,
            ),
            !saved ==> *final(settings) == *old(settings),
    {
        let mut saved = false;
        match parse_digit_chars(&self.buffer) {
            Some(v) => {
                if v > 0 {
                    match self.field {
                        SettingsField::WorkingTime => {
                            settings.working_time = v;
                        },
                        SettingsField::BreakTime => {
                            settings.break_time = v;
                        },
                        SettingsField::LongBreakTime => {
                            settings.long_break_time = v;
                        },
                        SettingsField::SessionsUntilLongBreak => {
                            settings.sessions_until_long_break = v;
                        },
                    }
                    saved = true;
                }
            },
            None => {},
        }
        self.editing = false;
        self.buffer.clear();
        proof {
            assert(digits_val(self.buffer@) == 0);
        }
        saved
    }
}

} // verus!
