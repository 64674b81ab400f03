use vstd::prelude::*;
use crate::digits::{dec_digits, digit_char};

verus! {

use vstd::string::StrSliceExecFns;
use vstd::string::StringExecFns;

/// How many lines a run of text takes at the given width: one when it
/// fits or when the width is zero, else characters divided by width,
/// rounded up.
pub open spec fn spec_text_height(len: int, width: int) -> int {
    if width == 0 {
        1
    } else if len <= width {
        1
    } else {
        (len + width - 1) / width
    }
}

pub fn calculate_text_height(text: &str, width: u16) -> (r: u16)
    requires
        width > 0 ==> text@.len() <= 0xFFFF * (width as int),
        text@.len() + width < usize::MAX,
    ensures
        r == spec_text_height(text@.len() as int, width as int),
{
    if width == 0 {
        return 1;
    }
    let chars_per_line: usize = width as usize;
    let total_chars: usize = text.unicode_len();
    if total_chars <= chars_per_line {
        1
    } else {
        let lines: usize = (total_chars + chars_per_line - 1) / chars_per_line;
        proof {
            assert(lines == (text@.len() as int + width - 1) / (width as int));
            assert(lines <= 0xFFFF) by (nonlinear_arith)
                requires
                    lines == (text@.len() as int + width - 1) / (width as int),
                    text@.len() <= 0xFFFF * (width as int),
                    width >= 1,
            ;
        }
        lines as u16
    }
}

/// The one-character string for a digit value.
pub fn digit_str(d: u64) -> (r: &'static str)
    requires
        d < 10,
    ensures
        r@ == seq![digit_char(d as int)],
{
    proof {
        reveal_strlit("0");
        reveal_strlit("1");
        reveal_strlit("2");
        reveal_strlit("3");
        reveal_strlit("4");
        reveal_strlit("5");
        reveal_strlit("6");
        reveal_strlit("7");
        reveal_strlit("8");
        reveal_strlit("9");
    }
    let r: &'static str = if d == 0 {
        "0"
    } else if d == 1 {
        "1"
    } else if d == 2 {
        "2"
    } else if d == 3 {
        "3"
    } else if d == 4 {
        "4"
    } else if d == 5 {
        "5"
    } else if d == 6 {
        "6"
    } else if d == 7 {
        "7"
    } else if d == 8 {
        "8"
    } else {
        "9"
    };
    proof {
        assert(r@ =~= seq![digit_char(d as int)]);
    }
    r
}

/// Spell `n` out in decimal, as a string.
pub fn decimal_string(n: u64) -> (r: String)
    ensures
        r@ == dec_digits(n as nat),
    decreases n,
{
    if n < 10 {
        String::from_str(digit_str(n))
    } else {
        let mut r = decimal_string(n / 10);
        r.append(digit_str(n % 10));
        proof {
            assert(dec_digits((n / 10) as nat).push(digit_char((n % 10) as int)) =~= dec_digits(
                (n / 10) as nat,
            ) + seq![digit_char((n % 10) as int)]);
        }
        r
    }
}

/// A value padded on the left to at least two digits, as the clock shows
/// its minutes and its seconds.
pub open spec fn two_digits(n: nat) -> Seq<char> {
    if n < 10 {
        seq!['0'] + dec_digits(n)
    } else {
        dec_digits(n)
    }
}

/// The remaining time as the timer screen's clock: whole minutes, a
/// colon, and the leftover seconds, both at least two digits wide.
pub fn format_clock(remaining: u64) -> (r: String)
    ensures
        r@ == two_digits((remaining / 60) as nat) + ":"@ + two_digits((remaining % 60) as nat),
{
    let minutes = remaining / 60;
    let seconds = remaining % 60;
    let mut r: String = if minutes < 10 {
        let mut h = String::from_str("0");
        h.append(digit_str(minutes));
        proof {
            reveal_strlit("0");
            assert(h@ =~= two_digits(minutes as nat));
        }
        h
    } else {
        decimal_string(minutes)
    };
    r.append(":");
    if seconds < 10 {
        r.append("0");
        r.append(digit_str(seconds));
        proof {
            reveal_strlit("0");
            assert(r@ =~= two_digits((remaining / 60) as nat) + ":"@ + two_digits(
                (remaining % 60) as nat,
            ));
        }
    } else {
        let tail = decimal_string(seconds);
        r.append(tail.as_str());
    }
    r
}

/// The display line for one settings entry: the pointed-at entry carries
/// a leading marker, and an entry open for editing shows the input
/// buffer between markers instead of its stored value.
pub fn setting_item_text(
    label: &str,
    value: &str,
    selected: bool,
    editing: bool,
    input_buffer: &str,
) -> (r: String)
    ensures
        r@ == (if selected && editing {
            "  "@ + label@ + ": ❯ "@ + input_buffer@ + " ❮"@
        } else if selected {
            "❯ "@ + label@ + ": "@ + value@
        } else {
            "  "@ + label@ + ": "@ + value@
        }),
{
    if selected && editing {
        let mut r = String::from_str("  ");
        r.append(label);
        r.append(": ❯ ");
        r.append(input_buffer);
        r.append(" ❮");
        r
    } else if selected {
        let mut r = String::from_str("❯ ");
        r.append(label);
        r.append(": ");
        r.append(value);
        r
    } else {
        let mut r = String::from_str("  ");
        r.append(label);
        r.append(": ");
        r.append(value);
        r
    }
}

} // verus!
