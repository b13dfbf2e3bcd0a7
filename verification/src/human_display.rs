//! Rendering of durations in a short human form: days, hours, minutes and
//! seconds, with the same field-selection rules throughout the crate's
//! consumers — minutes only when no day is shown, seconds only when
//! nothing larger is.

use vstd::prelude::*;
use vstd::string::StringExecFns;

verus! {

pub const MINUTE: i64 = 60;

pub const HOUR: i64 = 3_600;

pub const DAY: i64 = 86_400;

/// The decimal digit character of a value below ten.
pub open spec fn spec_digit_str(d: int) -> Seq<char> {
    if d == 0 {
        "0"@
    } else if d == 1 {
        "1"@
    } else if d == 2 {
        "2"@
    } else if d == 3 {
        "3"@
    } else if d == 4 {
        "4"@
    } else if d == 5 {
        "5"@
    } else if d == 6 {
        "6"@
    } else if d == 7 {
        "7"@
    } else if d == 8 {
        "8"@
    } else {
        "9"@
    }
}

/// The decimal rendering of a nonnegative value, most significant digit
/// first, with no leading zeros except for the value zero itself.
pub open spec fn spec_decimal(n: nat) -> Seq<char>
    decreases n,
{
    if n < 10 {
        spec_digit_str(n as int)
    } else {
        spec_decimal(n / 10) + spec_digit_str((n % 10) as int)
    }
}

/// The decimal rendering padded on the left with a zero to at least two
/// digits.
pub open spec fn spec_pad2(n: nat) -> Seq<char> {
    if n < 10 {
        "0"@ + spec_decimal(n)
    } else {
        spec_decimal(n)
    }
}

/// Appends the decimal rendering of a value to a string.
pub fn append_decimal(s: &mut String, n: u64)
    ensures
        final (s)@ == old(s)@ + spec_decimal(n as nat),
    decreases n,
{
    if n >= 10 {
        append_decimal(s, n / 10);
    }
    let digit: &str = match n % 10 {
        0 => "0",
        1 => "1",
        2 => "2",
        3 => "3",
        4 => "4",
        5 => "5",
        6 => "6",
        7 => "7",
        8 => "8",
        _ => "9",
    };
    s.append(digit);
    proof {
        if n >= 10 {
            assert(final(s)@ =~= old(s)@ + spec_decimal(n as nat));
        }
    }
}

/// The human rendering of a nonnegative count of seconds: the day count
/// with `d` when there is one, the hour count with `h` when there is one,
/// the minute count with `m` only when no day is shown (zero-padded right
/// after an hour count), and the second count with `s` only when nothing
/// larger is shown.
pub open spec fn spec_human_duration(total: int) -> Seq<char> {
    let days = total / 86400;
    let hours = (total % 86400) / 3600;
    let minutes = ((total % 86400) % 3600) / 60;
    let seconds = ((total % 86400) % 3600) % 60;
    let part_days = if days > 0 {
        spec_decimal(days as nat) + "d"@
    } else {
        Seq::<char>::empty()
    };
    let part_hours = if hours > 0 {
        (if part_days.len() > 0 {
            " "@
        } else {
            Seq::<char>::empty()
        }) + spec_decimal(hours as nat) + "h"@
    } else {
        Seq::<char>::empty()
    };
    let part_minutes = if minutes > 0 && days < 1 {
        (if (part_days + part_hours).len() > 0 && hours < 1 {
            " "@
        } else {
            Seq::<char>::empty()
        }) + (if hours > 0 {
            spec_pad2(minutes as nat)
        } else {
            spec_decimal(minutes as nat)
        }) + "m"@
    } else {
        Seq::<char>::empty()
    };
    let part_seconds = if days < 1 && hours < 1 && minutes < 1 {
        spec_decimal(seconds as nat) + "s"@
    } else {
        Seq::<char>::empty()
    };
    part_days + part_hours + part_minutes + part_seconds
}

/// A duration held as a count of seconds, ready to be rendered in human
/// form.
#[derive(Debug, Clone, Copy, PartialEq, Eq, Structural)]
pub struct HumanDurationDisplay(pub i64);

impl HumanDurationDisplay {
    /// Renders the duration in human form.
    pub fn human_string(&self) -> (r: String)
        requires
            self.0 >= 0,
        ensures
            r@ == spec_human_duration(self.0 as int),
    {
        let total_seconds = self.0;
        let days = total_seconds / DAY;
        let mut seconds = total_seconds % DAY;
        let hours = seconds / HOUR;
        seconds = seconds % HOUR;
        let minutes = seconds / MINUTE;
        seconds = seconds % MINUTE;
        let mut res = String::new();
        if days > 0 {
            append_decimal(&mut res, days as u64);
            res.append("d");
        }
        let ghost part_days = res@;
        if hours > 0 {
            if res.as_str().is_empty() == false {
                res.append(" ");
            }
            append_decimal(&mut res, hours as u64);
            res.append("h");
        }
        let ghost part_hours = res@;
        // only show minutes if days are not shown
        if minutes > 0 && days < 1 {
            if res.as_str().is_empty() == false && hours < 1 {
                res.append(" ");
            }
            if hours > 0 {
                if minutes < 10 {
                    res.append("0");
                }
                append_decimal(&mut res, minutes as u64);
            } else {
                append_decimal(&mut res, minutes as u64);
            }
            res.append("m");
        }
        let ghost part_minutes = res@;
        if days < 1 && hours < 1 && minutes < 1 {
            append_decimal(&mut res, seconds as u64);
            res.append("s");
        }
        proof {
            assert(res@ =~= spec_human_duration(self.0 as int));
        }
        res
    }
}

/// Anything that can be rendered as a short human duration.
pub trait HumanDuration {
    type Displayer;

    fn as_human(&self) -> Self::Displayer;
}

impl HumanDuration for i64 {
    type Displayer = HumanDurationDisplay;

    /// Wraps a count of seconds for human rendering.
    fn as_human(&self) -> Self::Displayer {
        HumanDurationDisplay(*self)
    }
}

} // verus!
