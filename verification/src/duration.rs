//! A span of time in whole seconds, as date and time arithmetic takes it.

use vstd::prelude::*;

verus! {

/// A signed span of time, in whole seconds.
#[derive(Debug, Copy, Clone, PartialEq, Eq, Structural, Hash)]
pub struct Duration {
    seconds: i64,
}

impl View for Duration {
    type V = int;

    /// The length of the span in seconds.
    closed spec fn view(&self) -> int {
        self.seconds as int
    }
}

impl Duration {
    /// A span of `seconds` seconds.
    pub fn seconds(seconds: i64) -> (duration: Duration)
        ensures
            duration@ == seconds,
    {
        Duration { seconds }
    }

    /// A span of `hours` hours. The number of seconds has to fit in 64 bits.
    pub fn hours(hours: i64) -> (duration: Duration)
        requires
            i64::MIN <= 3600 * hours <= i64::MAX,
        ensures
            duration@ == 3600 * hours,
    {
        Duration { seconds: hours * 3_600 }
    }

    /// The length of the span in seconds.
    pub fn whole_seconds(self) -> (seconds: i64)
        ensures
            seconds == self@,
    {
        self.seconds
    }

    /// Two spans of the same length are the same span, and a span's length
    /// fits in 64 bits.
    pub proof fn lemma_same_length(a: Duration, b: Duration)
        ensures
            a@ == b@ <==> a == b,
            i64::MIN <= a@ <= i64::MAX,
    {
    }
}

} // verus!
