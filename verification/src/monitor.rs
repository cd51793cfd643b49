//! The low-battery monitor: remembers whether the alert for the current
//! spell of low charge has been raised already.

use vstd::prelude::*;
use crate::percent::Percent;

verus! {

/// The percentage at or below which the battery counts as low.
pub const NOTIF_THRESHOLD: i64 = 5;

/// What one observation did to the monitor.
#[derive(Clone, Copy, Debug, PartialEq, Eq)]
pub enum AlertTransition {
    /// Nothing changed.
    Unchanged,
    /// The charge has fallen to the threshold or below: the alert is due.
    EnteredLow,
    /// The charge has risen above the threshold again.
    ExitedLow,
}

/// Remembers whether the alert has been raised since the charge last fell
/// to the threshold. A new monitor has raised none.
#[derive(Clone, Debug, PartialEq, Eq)]
pub struct ThresholdMonitor {
    already_notified: bool,
}

/// Whether `percent` counts as low.
pub open spec fn is_low(percent: Percent) -> bool {
    percent.at_most(NOTIF_THRESHOLD as int)
}

/// One step of the monitor: from whether it has notified and whether the
/// observed charge is low, to whether it has notified afterwards and what
/// it reports.
pub open spec fn step(notified: bool, low: bool) -> (bool, AlertTransition) {
    if low && !notified {
        (true, AlertTransition::EnteredLow)
    } else if !low && notified {
        (false, AlertTransition::ExitedLow)
    } else {
        (notified, AlertTransition::Unchanged)
    }
}

/// Whether the monitor has notified after it has observed `percents` in
/// turn, having started from `notified`.
pub open spec fn state_after(notified: bool, percents: Seq<Percent>) -> bool
    decreases percents.len(),
{
    if percents.len() == 0 {
        notified
    } else {
        step(state_after(notified, percents.drop_last()), is_low(percents.last())).0
    }
}

/// The transitions other than `Unchanged` that the monitor reports while it
/// observes `percents` in turn, having started from `notified`.
pub open spec fn reported(notified: bool, percents: Seq<Percent>) -> Seq<AlertTransition>
    decreases percents.len(),
{
    if percents.len() == 0 {
        Seq::empty()
    } else {
        let earlier = reported(notified, percents.drop_last());
        let transition = step(state_after(notified, percents.drop_last()), is_low(percents.last())).1;
        if transition == AlertTransition::Unchanged {
            earlier
        } else {
            earlier.push(transition)
        }
    }
}

impl ThresholdMonitor {
    /// Whether the alert has been raised for the current spell of low charge.
    pub closed spec fn notified(&self) -> bool {
        self.already_notified
    }

    /// A monitor that has raised no alert yet.
    pub fn new() -> (monitor: ThresholdMonitor)
        ensures
            !monitor.notified(),
    {
        ThresholdMonitor { already_notified: false }
    }

    /// Whether the alert has been raised for the current spell of low charge.
    pub fn already_notified(&self) -> (notified: bool)
        ensures
            notified == self.notified(),
    {
        self.already_notified
    }

    /// Observes `percent`. Reports `EnteredLow` once when the charge is at
    /// or below the threshold, `ExitedLow` once when it is above it again,
    /// and `Unchanged` otherwise. Afterwards the monitor has notified exactly
    /// if `percent` is low.
    pub fn update(&mut self, percent: Percent) -> (transition: AlertTransition)
        ensures
            (final(self).notified(), transition) == step(old(self).notified(), is_low(percent)),
            final(self).notified() == is_low(percent),
    {
        let low = percent.is_at_most(NOTIF_THRESHOLD);
        if low && !self.already_notified {
            self.already_notified = true;
            AlertTransition::EnteredLow
        } else if !low && self.already_notified {
            self.already_notified = false;
            AlertTransition::ExitedLow
        } else {
            AlertTransition::Unchanged
        }
    }
}

/// Observing the same charge a second time reports `Unchanged` and leaves the
/// monitor as the first observation left it, whatever the first reported.
pub proof fn lemma_update_idempotent(notified: bool, percent: Percent)
    ensures
        step(step(notified, is_low(percent)).0, is_low(percent)) == (
            step(notified, is_low(percent)).0,
            AlertTransition::Unchanged,
        ),
{
}

/// After any observations the monitor has notified exactly if the last
/// observed charge is low.
pub proof fn lemma_notified_while_low(notified: bool, percents: Seq<Percent>)
    requires
        percents.len() > 0,
    ensures
        state_after(notified, percents) == is_low(percents.last()),
{
}

/// A new monitor that observes charges which are above the threshold up to
/// `down`, at or below it from `down` up to `up`, and above it from `up`
/// on, reports `EnteredLow` and then `ExitedLow`, and nothing else.
pub proof fn lemma_one_crossing(percents: Seq<Percent>, down: int, up: int)
    requires
        0 <= down < up < percents.len(),
        forall|i: int| 0 <= i < down ==> !is_low(#[trigger] percents[i]),
        forall|i: int| down <= i < up ==> is_low(#[trigger] percents[i]),
        forall|i: int| up <= i < percents.len() ==> !is_low(#[trigger] percents[i]),
    ensures
        reported(false, percents) == seq![AlertTransition::EnteredLow, AlertTransition::ExitedLow],
        !state_after(false, percents),
{
    lemma_crossing_prefix(percents, down, up, percents.len() as int);
    assert(percents.take(percents.len() as int) =~= percents);
}

/// What the monitor of `lemma_one_crossing` has reported after the first
/// `count` observations.
pub proof fn lemma_crossing_prefix(percents: Seq<Percent>, down: int, up: int, count: int)
    requires
        0 <= down < up < percents.len(),
        0 <= count <= percents.len(),
        forall|i: int| 0 <= i < down ==> !is_low(#[trigger] percents[i]),
        forall|i: int| down <= i < up ==> is_low(#[trigger] percents[i]),
        forall|i: int| up <= i < percents.len() ==> !is_low(#[trigger] percents[i]),
    ensures
        count <= down ==> reported(false, percents.take(count)) == Seq::<AlertTransition>::empty()
            && !state_after(false, percents.take(count)),
        down < count <= up ==> reported(false, percents.take(count)) == seq![
            AlertTransition::EnteredLow,
        ] && state_after(false, percents.take(count)),
        up < count ==> reported(false, percents.take(count)) == seq![
            AlertTransition::EnteredLow,
            AlertTransition::ExitedLow,
        ] && !state_after(false, percents.take(count)),
    decreases count,
{
    if count > 0 {
        lemma_crossing_prefix(percents, down, up, count - 1);
        let prefix = percents.take(count);
        assert(prefix.drop_last() =~= percents.take(count - 1));
        assert(prefix.last() == percents[count - 1]);
        let earlier = reported(false, percents.take(count - 1));
        if count <= down {
        } else if count == down + 1 {
            assert(earlier.push(AlertTransition::EnteredLow) =~= seq![AlertTransition::EnteredLow]);
        } else if count <= up {
        } else if count == up + 1 {
            assert(earlier.push(AlertTransition::ExitedLow) =~= seq![
                AlertTransition::EnteredLow,
                AlertTransition::ExitedLow,
            ]);
        } else {
        }
    }
}

} // verus!
