//! Snapshots of a power source, read from the record that describes it.

use vstd::prelude::*;
use vstd::string::*;
use crate::percent::Percent;
use crate::record::{ReadError, ReadErrorView, Record};

verus! {

/// Key of the text that says what the source runs on.
pub const POWER_SOURCE_STATE_KEY: &'static str = "Power Source State";

/// Key of the capacity that the source holds now.
pub const CURRENT_CAPACITY_KEY: &'static str = "Current Capacity";

/// Key of the capacity that the source can hold.
pub const MAX_CAPACITY_KEY: &'static str = "Max Capacity";

/// Key of the minutes until the battery is empty.
pub const TIME_TO_EMPTY_KEY: &'static str = "Time to Empty";

/// Key of the minutes until the battery is full.
pub const TIME_TO_FULL_CHARGE_KEY: &'static str = "Time to Full Charge";

/// The state text of a source that runs on the mains.
pub const AC_POWER_VALUE: &'static str = "AC Power";

/// The state text of a source that runs on its battery.
pub const BATTERY_POWER_VALUE: &'static str = "Battery Power";

/// The number of minutes that stands for "not known".
pub const TIME_REMAINING_UNKNOWN: i64 = -1;

/// What a power source runs on.
#[derive(Clone, Copy, Debug, PartialEq, Eq)]
pub enum PowerSourceState {
    OnACPower,
    OnBattery,
    Unknown,
}

/// What was read of a power source in one poll.
#[derive(Clone, Copy, Debug, PartialEq, Eq)]
pub struct PowerSnapshot {
    pub state: PowerSourceState,
    pub charge: Percent,
    pub time_remaining_minutes: Option<i64>,
}

/// The state that a state text stands for: any text but the two known ones
/// gives `Unknown`.
pub open spec fn state_of(text: Seq<char>) -> PowerSourceState {
    if text == BATTERY_POWER_VALUE@ {
        PowerSourceState::OnBattery
    } else if text == AC_POWER_VALUE@ {
        PowerSourceState::OnACPower
    } else {
        PowerSourceState::Unknown
    }
}

/// The estimate that a reported number of minutes stands for: zero and the
/// "not known" number give none.
pub open spec fn estimate_of(minutes: i64) -> Option<i64> {
    if minutes == 0 || minutes == TIME_REMAINING_UNKNOWN {
        None
    } else {
        Some(minutes)
    }
}

/// The key under which a source in `state` reports its remaining time.
pub open spec fn time_key_of(state: PowerSourceState) -> Option<Seq<char>> {
    match state {
        PowerSourceState::OnBattery => Some(TIME_TO_EMPTY_KEY@),
        PowerSourceState::OnACPower => Some(TIME_TO_FULL_CHARGE_KEY@),
        PowerSourceState::Unknown => None,
    }
}

/// The remaining time that `record` reports for a source in `state`.
pub open spec fn time_remaining_of(record: Record, state: PowerSourceState) -> Result<
    Option<i64>,
    ReadErrorView,
> {
    match time_key_of(state) {
        None => Ok(None),
        Some(key) => match record.int_at(key) {
            Ok(minutes) => Ok(estimate_of(minutes)),
            Err(error) => Err(error),
        },
    }
}

/// The snapshot that `record` describes, or the first thing that is wrong
/// with it. The fields are taken in this order: state, current capacity,
/// maximum capacity, which must not be zero, and the remaining time under
/// the key that the state selects.
pub open spec fn snapshot_of(record: Record) -> Result<PowerSnapshot, ReadErrorView> {
    match record.string_at(POWER_SOURCE_STATE_KEY@) {
        Err(error) => Err(error),
        Ok(text) => match record.int_at(CURRENT_CAPACITY_KEY@) {
            Err(error) => Err(error),
            Ok(current) => match record.int_at(MAX_CAPACITY_KEY@) {
                Err(error) => Err(error),
                Ok(max) => if max == 0 {
                    Err(ReadErrorView::DivisionByZero)
                } else {
                    match time_remaining_of(record, state_of(text)) {
                        Err(error) => Err(error),
                        Ok(time) => Ok(
                            PowerSnapshot {
                                state: state_of(text),
                                charge: Percent::of(current, max),
                                time_remaining_minutes: time,
                            },
                        ),
                    }
                },
            },
        },
    }
}

impl PowerSourceState {
    /// Reads a state text.
    pub fn from_text(text: &str) -> (state: PowerSourceState)
        ensures
            state == state_of(text@),
    {
        let given = String::from_str(text);
        if given == String::from_str(BATTERY_POWER_VALUE) {
            PowerSourceState::OnBattery
        } else if given == String::from_str(AC_POWER_VALUE) {
            PowerSourceState::OnACPower
        } else {
            PowerSourceState::Unknown
        }
    }
}

/// Turns a reported number of minutes into an estimate, if it is one.
pub fn time_estimate(minutes: i64) -> (estimate: Option<i64>)
    ensures
        estimate == estimate_of(minutes),
{
    if minutes == 0 || minutes == TIME_REMAINING_UNKNOWN {
        None
    } else {
        Some(minutes)
    }
}

/// Picks the source to watch: the first that the platform reports.
pub fn select_source(sources: &Vec<Record>) -> (selected: Option<&Record>)
    ensures
        sources@.len() == 0 <==> selected is None,
        selected matches Some(record) ==> *record == sources@[0],
{
    if sources.len() == 0 {
        None
    } else {
        Some(&sources[0])
    }
}

impl PowerSnapshot {
    /// A snapshot of the given values; `DivisionByZero` where the maximum
    /// capacity is zero, and only there.
    pub fn new(
        state: PowerSourceState,
        current_capacity: i64,
        max_capacity: i64,
        time_remaining_minutes: Option<i64>,
    ) -> (made: Result<PowerSnapshot, ReadError>)
        ensures
            max_capacity == 0 <==> made is Err,
            made matches Err(error) ==> error == ReadError::DivisionByZero,
            made matches Ok(snapshot) ==> snapshot == (PowerSnapshot {
                state,
                charge: Percent::of(current_capacity, max_capacity),
                time_remaining_minutes,
            }),
    {
        match Percent::new(current_capacity, max_capacity) {
            Err(error) => Err(error),
            Ok(charge) => Ok(PowerSnapshot { state, charge, time_remaining_minutes }),
        }
    }

    /// Reads the snapshot that `record` describes.
    pub fn read(record: &Record) -> (outcome: Result<PowerSnapshot, ReadError>)
        ensures
            match outcome {
                Ok(snapshot) => snapshot_of(*record) == Ok::<PowerSnapshot, ReadErrorView>(snapshot),
                Err(error) => snapshot_of(*record) == Err::<PowerSnapshot, ReadErrorView>(error@),
            },
    {
        let text = match record.get_string(POWER_SOURCE_STATE_KEY) {
            Ok(text) => text,
            Err(error) => {
                return Err(error);
            },
        };
        let current = match record.get_int(CURRENT_CAPACITY_KEY) {
            Ok(current) => current,
            Err(error) => {
                return Err(error);
            },
        };
        let max = match record.get_int(MAX_CAPACITY_KEY) {
            Ok(max) => max,
            Err(error) => {
                return Err(error);
            },
        };
        let charge = match Percent::new(current, max) {
            Ok(charge) => charge,
            Err(error) => {
                return Err(error);
            },
        };
        let state = PowerSourceState::from_text(text.as_str());
        let reported = match state {
            PowerSourceState::OnBattery => Some(record.get_int(TIME_TO_EMPTY_KEY)),
            PowerSourceState::OnACPower => Some(record.get_int(TIME_TO_FULL_CHARGE_KEY)),
            PowerSourceState::Unknown => None,
        };
        let time_remaining_minutes = match reported {
            None => None,
            Some(Ok(minutes)) => time_estimate(minutes),
            Some(Err(error)) => {
                return Err(error);
            },
        };
        Ok(PowerSnapshot { state, charge, time_remaining_minutes })
    }
}

} // verus!
