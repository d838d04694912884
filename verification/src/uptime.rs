//! The uptime as days, hours and minutes.

use vstd::prelude::*;
use vstd::string::StringExecFns;
use crate::text::{decimal, is_digit, lemma_decimal_digits, push_decimal};

verus! {

pub const SECONDS_PER_MINUTE: u64 = 60;

pub const SECONDS_PER_HOUR: u64 = 3600;

pub const SECONDS_PER_DAY: u64 = 86400;

/// The whole days in `seconds`.
pub open spec fn days_of(seconds: nat) -> nat {
    seconds / (SECONDS_PER_DAY as nat)
}

/// The whole hours in `seconds` beyond the whole days.
pub open spec fn hours_of(seconds: nat) -> nat {
    (seconds % (SECONDS_PER_DAY as nat)) / (SECONDS_PER_HOUR as nat)
}

/// The whole minutes in `seconds` beyond the whole hours.
pub open spec fn minutes_of(seconds: nat) -> nat {
    (seconds % (SECONDS_PER_HOUR as nat)) / (SECONDS_PER_MINUTE as nat)
}

/// The uptime as it is shown: "<d>d <h>h <m>m" from one day on,
/// "<h>h <m>m" from one hour on, "<m>m" below that. Seconds are not shown.
pub open spec fn uptime_text(seconds: nat) -> Seq<char> {
    let minutes = decimal(minutes_of(seconds)) + seq!['m'];
    let hours = decimal(hours_of(seconds)) + seq!['h', ' '];
    let days = decimal(days_of(seconds)) + seq!['d', ' '];
    if days_of(seconds) > 0 {
        days + hours + minutes
    } else if hours_of(seconds) > 0 {
        hours + minutes
    } else {
        minutes
    }
}

/// A character that an uptime may hold: a digit, a space, or one of the
/// units `d`, `h`, `m`.
pub open spec fn is_uptime_char(c: char) -> bool {
    is_digit(c) || c == ' ' || c == 'd' || c == 'h' || c == 'm'
}

/// An uptime holds digits, spaces and the units `d`, `h`, `m` only, so it
/// never shows a seconds unit; it ends with the minutes; and its hours are
/// below 24, its minutes below 60.
pub proof fn lemma_uptime_shows_no_seconds(seconds: nat)
    ensures
        forall|i: int|
            0 <= i < uptime_text(seconds).len() ==> is_uptime_char(#[trigger] uptime_text(seconds)[i]),
        !uptime_text(seconds).contains('s'),
        uptime_text(seconds).len() >= 2,
        uptime_text(seconds).last() == 'm',
        hours_of(seconds) < 24,
        minutes_of(seconds) < 60,
{
    lemma_decimal_digits(days_of(seconds));
    lemma_decimal_digits(hours_of(seconds));
    lemma_decimal_digits(minutes_of(seconds));
    let text = uptime_text(seconds);
    assert forall|i: int| 0 <= i < text.len() implies is_uptime_char(#[trigger] text[i]) by {
        let minutes = decimal(minutes_of(seconds)) + seq!['m'];
        let hours = decimal(hours_of(seconds)) + seq!['h', ' '];
        let days = decimal(days_of(seconds)) + seq!['d', ' '];
        assert forall|k: int| 0 <= k < minutes.len() implies is_uptime_char(#[trigger] minutes[k]) by {
            if k < minutes.len() - 1 {
                assert(minutes[k] == decimal(minutes_of(seconds))[k]);
            }
        }
        assert forall|k: int| 0 <= k < hours.len() implies is_uptime_char(#[trigger] hours[k]) by {
            if k < hours.len() - 2 {
                assert(hours[k] == decimal(hours_of(seconds))[k]);
            }
        }
        assert forall|k: int| 0 <= k < days.len() implies is_uptime_char(#[trigger] days[k]) by {
            if k < days.len() - 2 {
                assert(days[k] == decimal(days_of(seconds))[k]);
            }
        }
    }
    assert(!text.contains('s')) by {
        if text.contains('s') {
            let i = choose|i: int| 0 <= i < text.len() && text[i] == 's';
            assert(is_uptime_char(text[i]));
        }
    }
}

/// The uptime of `seconds` as text: days, hours and minutes from one day
/// on, hours and minutes from one hour on, minutes alone below that.
pub fn format_uptime(seconds: u64) -> (out: String)
    ensures
        out@ == uptime_text(seconds as nat),
{
    let days: u64 = seconds / SECONDS_PER_DAY;
    let hours: u64 = (seconds % SECONDS_PER_DAY) / SECONDS_PER_HOUR;
    let minutes: u64 = (seconds % SECONDS_PER_HOUR) / SECONDS_PER_MINUTE;
    proof {
        reveal_strlit("d ");
        reveal_strlit("h ");
        reveal_strlit("m");
    }
    let mut out = String::new();
    if days > 0 {
        push_decimal(&mut out, days);
        out.append("d ");
    }
    if days > 0 || hours > 0 {
        push_decimal(&mut out, hours);
        out.append("h ");
    }
    push_decimal(&mut out, minutes);
    out.append("m");
    proof {
        assert("d "@ =~= seq!['d', ' ']);
        assert("h "@ =~= seq!['h', ' ']);
        assert("m"@ =~= seq!['m']);
        assert(out@ =~= uptime_text(seconds as nat));
    }
    out
}

} // verus!
