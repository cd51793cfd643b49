//! One cycle of polling, in its two decisions: which source is read and
//! whether the cycle goes on, and what follows from the snapshot read.
//! Between the two the caller renders the percentage.

use vstd::prelude::*;
use crate::monitor::{is_low, step, AlertTransition, ThresholdMonitor};
use crate::notify::{low_battery_alert, message_text, spoken_text, Alert};
use crate::record::{ReadError, ReadErrorView, Record};
use crate::snapshot::{select_source, snapshot_of, PowerSnapshot};
use crate::title::{format_title, title_text};

verus! {

/// The pause between the end of one cycle and the start of the next, in
/// milliseconds.
pub const POLL_INTERVAL_MS: u64 = 10000;

/// How a cycle starts.
#[derive(Clone, Debug, PartialEq, Eq)]
pub enum CycleReading {
    /// The platform reported no power source: nothing to show.
    NoSource,
    /// The first source could not be read: the cycle ends here, the title
    /// and the monitor stay as they are.
    Skipped(ReadError),
    /// The snapshot of the first source.
    Taken(PowerSnapshot),
}

/// What a cycle asks of its caller: the title to show, what the monitor
/// reported, and the alert to raise if one is due.
#[derive(Clone, Debug, PartialEq, Eq)]
pub struct CycleOutcome {
    pub title: String,
    pub transition: AlertTransition,
    pub alert: Option<Alert>,
}

/// Starts a cycle on the sources that the platform reported: the first
/// source is read, and an error in it skips the cycle.
pub fn read_cycle(sources: &Vec<Record>) -> (reading: CycleReading)
    ensures
        match reading {
            CycleReading::NoSource => sources@.len() == 0,
            CycleReading::Skipped(error) => sources@.len() > 0 && snapshot_of(sources@[0]) == Err::<
                PowerSnapshot,
                ReadErrorView,
            >(error@),
            CycleReading::Taken(snapshot) => sources@.len() > 0 && snapshot_of(sources@[0]) == Ok::<
                PowerSnapshot,
                ReadErrorView,
            >(snapshot),
        },
{
    let record = match select_source(sources) {
        None => {
            return CycleReading::NoSource;
        },
        Some(record) => record,
    };
    match PowerSnapshot::read(record) {
        Err(error) => CycleReading::Skipped(error),
        Ok(snapshot) => CycleReading::Taken(snapshot),
    }
}

/// What follows from one snapshot, with `percent` as the text of its
/// percentage: its title, the monitor's step on its exact charge, and an
/// alert exactly when the charge has just become low.
pub fn observe(monitor: &mut ThresholdMonitor, snapshot: &PowerSnapshot, percent: &str) -> (outcome:
    CycleOutcome)
    ensures
        outcome.title@ == title_text(*snapshot, percent@),
        (final(monitor).notified(), outcome.transition) == step(
            old(monitor).notified(),
            is_low(snapshot.charge),
        ),
        outcome.transition == AlertTransition::EnteredLow <==> outcome.alert is Some,
        outcome.alert matches Some(raised) ==> raised.message@ == message_text(percent@)
            && raised.spoken@ == spoken_text(percent@),
{
    let title = format_title(snapshot, percent);
    let transition = monitor.update(snapshot.charge);
    let alert = match transition {
        AlertTransition::EnteredLow => Some(low_battery_alert(percent)),
        _ => None,
    };
    CycleOutcome { title, transition, alert }
}

} // verus!
