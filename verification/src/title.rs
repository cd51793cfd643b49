//! The status title: a glyph for the state, the remaining time where it is
//! known, and the charge in percent. The text of the percentage is the
//! caller's: the title takes it as it is given.

use vstd::prelude::*;
use vstd::string::*;
use crate::duration::{human_time, human_time_text};
use crate::snapshot::{PowerSnapshot, PowerSourceState};

verus! {

/// Stands before the title of a source that runs on its battery.
pub const DISCHARGING_GLYPH: char = '\u{2193}';

/// Stands before the title of a source that runs on the mains.
pub const CHARGING_GLYPH: char = '\u{2191}';

/// The whole title of a source whose state is not known.
pub const FALLBACK_GLYPH: char = '\u{1F914}';

/// The remaining time as it is shown in a title: nothing where there is no
/// estimate, else the time and a space.
pub open spec fn time_text(time: Option<i64>) -> Seq<char> {
    match time {
        None => Seq::empty(),
        Some(minutes) => human_time_text(minutes as int) + seq![' '],
    }
}

/// The title of a source with a known state: the glyph, a space, the time
/// where it is known, and the percentage in brackets.
pub open spec fn labelled_text(glyph: char, time: Option<i64>, percent: Seq<char>) -> Seq<char> {
    seq![glyph, ' '] + time_text(time) + seq!['('] + percent + seq!['%', ')']
}

/// The title that shows `snapshot`, with `percent` as the text of its
/// percentage. A source whose state is not known shows the fallback glyph
/// alone.
pub open spec fn title_text(snapshot: PowerSnapshot, percent: Seq<char>) -> Seq<char> {
    match snapshot.state {
        PowerSourceState::OnBattery => labelled_text(
            DISCHARGING_GLYPH,
            snapshot.time_remaining_minutes,
            percent,
        ),
        PowerSourceState::OnACPower => labelled_text(
            CHARGING_GLYPH,
            snapshot.time_remaining_minutes,
            percent,
        ),
        PowerSourceState::Unknown => seq![FALLBACK_GLYPH],
    }
}

/// Renders the status title of `snapshot`, with `percent` as the text of
/// its percentage.
pub fn format_title(snapshot: &PowerSnapshot, percent: &str) -> (title: String)
    ensures
        title@ == title_text(*snapshot, percent@),
{
    proof {
        reveal_strlit("\u{2193} ");
        reveal_strlit("\u{2191} ");
        reveal_strlit("\u{1F914}");
        reveal_strlit(" ");
        reveal_strlit("(");
        reveal_strlit("%)");
    }
    let mut title = String::new();
    match snapshot.state {
        PowerSourceState::Unknown => {
            title.append("\u{1F914}");
            assert(title@ =~= title_text(*snapshot, percent@));
            return title;
        },
        PowerSourceState::OnBattery => {
            title.append("\u{2193} ");
        },
        PowerSourceState::OnACPower => {
            title.append("\u{2191} ");
        },
    }
    match snapshot.time_remaining_minutes {
        None => {},
        Some(minutes) => {
            let time = human_time(minutes);
            title.append(time.as_str());
            title.append(" ");
        },
    }
    title.append("(");
    title.append(percent);
    title.append("%)");
    assert(title@ =~= title_text(*snapshot, percent@));
    title
}

} // verus!
