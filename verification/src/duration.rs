//! Durations as ISO 8601 writes them, designator by designator.

use vstd::prelude::*;

verus! {

/// A duration by its designators. Each is counted in thousandths, so that
/// "PT1.5H" is held as 1500 thousandths of an hour.
#[derive(Debug, Clone, Copy, PartialEq, Eq)]
pub struct Duration {
    pub year: u64,
    pub month: u64,
    pub day: u64,
    pub hour: u64,
    pub minute: u64,
    pub second: u64,
}

impl Duration {
    /// The length of what is not years or months, in thousandths of a
    /// second.
    pub open spec fn milliseconds(self) -> nat {
        (self.day * 86_400 + self.hour * 3_600 + self.minute * 60 + self.second) as nat
    }

    /// The length in minutes, a begun minute counting as a whole one, and
    /// held at the largest number of minutes that can be told. A duration
    /// with years or months has no length in minutes.
    pub open spec fn minutes(self) -> Option<u32> {
        if self.year > 0 || self.month > 0 {
            None
        } else if (self.milliseconds() + 59_999) / 60_000 > u32::MAX {
            Some(u32::MAX)
        } else {
            Some(((self.milliseconds() + 59_999) / 60_000) as u32)
        }
    }

    /// The length in minutes, rounded up.
    pub fn num_minutes(&self) -> (r: Option<u32>)
        ensures
            r == self.minutes(),
    {
        if self.year > 0 || self.month > 0 {
            return None;
        }
        let milliseconds: u128 = self.day as u128 * 86_400 + self.hour as u128 * 3_600
            + self.minute as u128 * 60 + self.second as u128;
        let minutes: u128 = (milliseconds + 59_999) / 60_000;
        if minutes > u32::MAX as u128 {
            Some(u32::MAX)
        } else {
            Some(minutes as u32)
        }
    }
}

/// The minutes of a duration are its length rounded up: they are never less
/// than the duration, they are less than a minute more, and a whole number
/// of minutes is told as it is. This holds of every duration without years
/// or months whose minutes can be told.
pub proof fn lemma_minutes_are_rounded_up(duration: Duration)
    requires
        duration.year == 0,
        duration.month == 0,
        duration.milliseconds() <= u32::MAX * 60_000,
    ensures
        duration.minutes() is Some,
        duration.minutes()->0 * 60_000 >= duration.milliseconds(),
        duration.minutes()->0 * 60_000 < duration.milliseconds() + 60_000,
        duration.milliseconds() % 60_000 == 0 ==> duration.minutes()->0 * 60_000
            == duration.milliseconds(),
{
}

} // verus!
