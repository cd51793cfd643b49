//! Rendering a number of minutes for people to read.

use vstd::prelude::*;
use vstd::string::*;
use crate::decimal::{append_decimal, append_signed_decimal, decimal, signed_decimal};

verus! {

/// The text of a span of `minutes`: minutes alone below one hour, hours and
/// minutes below one day, and days, hours and minutes from one day on.
pub open spec fn human_time_text(minutes: int) -> Seq<char> {
    if minutes < 60 {
        signed_decimal(minutes) + seq!['m']
    } else if minutes < 1440 {
        decimal((minutes / 60) as nat) + seq!['h'] + decimal((minutes % 60) as nat) + seq!['m']
    } else {
        decimal((minutes / 1440) as nat) + seq!['d'] + decimal(((minutes % 1440) / 60) as nat)
            + seq!['h'] + decimal((minutes % 60) as nat) + seq!['m']
    }
}

/// Renders `minutes` as a compact span of time, such as `45m`, `2h5m` or `1d0h0m`.
pub fn human_time(minutes: i64) -> (text: String)
    ensures
        text@ == human_time_text(minutes as int),
{
    proof {
        reveal_strlit("m");
        reveal_strlit("h");
        reveal_strlit("d");
    }
    let mut text = String::new();
    if minutes < 60 {
        append_signed_decimal(&mut text, minutes as i128);
        text.append("m");
    } else if minutes < 1440 {
        append_decimal(&mut text, (minutes / 60) as u128);
        text.append("h");
        append_decimal(&mut text, (minutes % 60) as u128);
        text.append("m");
    } else {
        append_decimal(&mut text, (minutes / 1440) as u128);
        text.append("d");
        append_decimal(&mut text, ((minutes % 1440) / 60) as u128);
        text.append("h");
        append_decimal(&mut text, (minutes % 60) as u128);
        text.append("m");
    }
    assert(text@ =~= human_time_text(minutes as int));
    text
}

} // verus!
