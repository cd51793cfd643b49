//! The charge of a power source as a percentage of its maximum capacity,
//! kept as an exact ratio of the two capacities and compared without
//! rounding.

use vstd::prelude::*;
use crate::record::ReadError;

verus! {

/// The charge `100 * current / max` of a power source, with `max` not zero.
#[derive(Clone, Copy, Debug, PartialEq, Eq)]
pub struct Percent {
    current: i64,
    max: i64,
}

/// Whether the ratio `100 * current / max` is at most `bound`, for `max` not
/// zero: the comparison is multiplied out, and turns with the sign of `max`.
pub open spec fn ratio_at_most(current: int, max: int, bound: int) -> bool {
    if max > 0 {
        100 * current <= bound * max
    } else {
        100 * current >= bound * max
    }
}

impl Percent {
    #[verifier::type_invariant]
    spec fn nonzero_max(self) -> bool {
        self.max != 0
    }

    /// The capacity that the source holds now.
    pub closed spec fn current(self) -> int {
        self.current as int
    }

    /// The capacity that the source can hold. Never zero.
    pub closed spec fn max(self) -> int {
        self.max as int
    }

    /// The percentage that `current` is of `max`.
    pub closed spec fn of(current: i64, max: i64) -> Percent {
        Percent { current, max }
    }

    /// Whether this percentage is at most `bound` percent.
    pub open spec fn at_most(self, bound: int) -> bool {
        ratio_at_most(self.current(), self.max(), bound)
    }

    /// Whether this percentage is at most `other`.
    pub open spec fn le(self, other: Percent) -> bool {
        if (self.max() > 0) == (other.max() > 0) {
            self.current() * other.max() <= other.current() * self.max()
        } else {
            self.current() * other.max() >= other.current() * self.max()
        }
    }

    /// The percentage that `current` is of `max`; `DivisionByZero` where
    /// `max` is zero, and only there.
    pub fn new(current: i64, max: i64) -> (made: Result<Percent, ReadError>)
        ensures
            max == 0 <==> made is Err,
            made matches Err(error) ==> error == ReadError::DivisionByZero,
            made matches Ok(percent) ==> percent == Percent::of(current, max) && percent.current()
                == current && percent.max() == max,
    {
        if max == 0 {
            Err(ReadError::DivisionByZero)
        } else {
            Ok(Percent { current, max })
        }
    }

    /// The capacity that the source holds now.
    pub fn current_capacity(&self) -> (current: i64)
        ensures
            current == self.current(),
    {
        self.current
    }

    /// The capacity that the source can hold.
    pub fn max_capacity(&self) -> (max: i64)
        ensures
            max == self.max(),
            max != 0,
    {
        proof {
            use_type_invariant(self);
        }
        self.max
    }

    /// Compares this percentage with `bound` percent, exactly.
    pub fn is_at_most(&self, bound: i64) -> (within: bool)
        ensures
            within == self.at_most(bound as int),
    {
        let scaled: i128 = 100 * (self.current as i128);
        assert(-0x4000_0000_0000_0000_0000_0000_0000_0000 <= (bound as int) * (self.max as int)
            <= 0x4000_0000_0000_0000_0000_0000_0000_0000) by (nonlinear_arith)
            requires
                -0x8000_0000_0000_0000 <= bound as int <= 0x8000_0000_0000_0000,
                -0x8000_0000_0000_0000 <= self.max as int <= 0x8000_0000_0000_0000,
        ;
        let limit: i128 = (bound as i128) * (self.max as i128);
        if self.max > 0 {
            scaled <= limit
        } else {
            scaled >= limit
        }
    }
}

/// The two capacities of a percentage are those it was made of.
pub proof fn lemma_percent_parts(current: i64, max: i64)
    ensures
        Percent::of(current, max).current() == current,
        Percent::of(current, max).max() == max,
{
}

/// With one positive maximum capacity, a larger current capacity never
/// gives a smaller percentage: neither as a ratio, nor against any bound.
pub proof fn lemma_percent_monotonic(lower: Percent, upper: Percent)
    requires
        lower.max() == upper.max(),
        lower.max() > 0,
        lower.current() <= upper.current(),
    ensures
        lower.le(upper),
        forall|bound: int| upper.at_most(bound) ==> lower.at_most(bound),
{
    let max = lower.max();
    let low = lower.current();
    let high = upper.current();
    assert(low * max <= high * max) by (nonlinear_arith)
        requires
            low <= high,
            max > 0,
    ;
}

} // verus!
