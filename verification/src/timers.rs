//! A timer over the steady clock of the `time` crate.
//!
//! A timer keeps the moment at which it was started and counts everything
//! else from there: a reading of the timer is the number of nanoseconds from
//! its start to the moment the clock was read.

use time::SteadyTime;
use vstd::prelude::*;

verus! {

/// A moment on the steady clock. Nothing is known of a moment but what the
/// clock says when two of them are compared.
#[verifier::external_type_specification]
#[verifier::external_body]
pub struct ExSteadyTime(time::SteadyTime);

/// How many nanoseconds make a millisecond.
pub const NANOSECONDS_PER_MILLISECOND: i64 = 1_000_000;

/// Measures time from the moment it was made and from the last time it was
/// asked for a frame time.
pub struct Timer {
    start: SteadyTime,
    last_frame: i64,
}

/// Reads the steady clock.
///
/// Trusted: calls `time::SteadyTime::now`. Nothing is claimed of the moment
/// that comes back, not even that it is later than an earlier reading.
#[verifier::external_body]
fn steady_now() -> SteadyTime {
    SteadyTime::now()
}

/// The whole nanoseconds from `earlier` to `later`, negative if `later` is
/// the earlier one, or nothing if there are more of them than an `i64` can
/// count.
///
/// Trusted: subtracts one `time::SteadyTime` from another and calls
/// `time::Duration::num_nanoseconds` on the difference. Nothing is claimed
/// of what comes back. Both moments are readings of the clock: a timer
/// holds no others, and the difference of two readings is far from the
/// bounds of a `time::Duration`.
#[verifier::external_body]
fn nanoseconds_between(earlier: &SteadyTime, later: &SteadyTime) -> Option<i64> {
    (*later - *earlier).num_nanoseconds()
}

/// The whole milliseconds in a span of nanoseconds. A part of a millisecond
/// does not count, in a span forwards as in a span backwards.
pub open spec fn whole_milliseconds(nanoseconds: int) -> int {
    if nanoseconds >= 0 {
        nanoseconds / (NANOSECONDS_PER_MILLISECOND as int)
    } else {
        -((-nanoseconds) / (NANOSECONDS_PER_MILLISECOND as int))
    }
}

/// The whole milliseconds from one reading of a timer to another.
pub fn milliseconds_between(earlier: i64, later: i64) -> (milliseconds: i64)
    ensures
        milliseconds == whole_milliseconds(later - earlier),
{
    let span: i128 = later as i128 - earlier as i128;
    if span >= 0 {
        let whole: i128 = span / (NANOSECONDS_PER_MILLISECOND as i128);
        whole as i64
    } else {
        let whole: i128 = (-span) / (NANOSECONDS_PER_MILLISECOND as i128);
        -(whole as i64)
    }
}

/// Starts a timer now. It counts its first frame time from now on.
pub fn new() -> (timer: Box<Timer>) {
    let start = steady_now();
    let mut timer = Timer { start, last_frame: 0 };
    timer.last_frame = timer.reading();
    Box::new(timer)
}

impl Timer {
    /// The moment the timer was started.
    pub closed spec fn epoch(&self) -> SteadyTime {
        self.start
    }

    /// The reading at which the timer was last asked for a frame time, or at
    /// which it was started if it has not been asked yet.
    pub closed spec fn last_poll(&self) -> i64 {
        self.last_frame
    }

    /// Reads the timer: the nanoseconds since it was started. A span too
    /// long to count, some 292 years, reads as the longest one that can be
    /// counted.
    fn reading(&self) -> i64 {
        let now = steady_now();
        match nanoseconds_between(&self.start, &now) {
            Some(nanoseconds) => nanoseconds,
            None => i64::MAX,
        }
    }

    /// Milliseconds since the timer was started: the whole milliseconds in
    /// the reading that the clock gives at the call. The timer stays as it
    /// is.
    pub fn elapsed(&self) -> (milliseconds: i64)
        ensures
            exists|reading: i64| milliseconds == #[trigger] whole_milliseconds(reading as int),
    {
        let reading: i64 = self.reading();
        let milliseconds: i64 = milliseconds_between(0, reading);
        assert(milliseconds == whole_milliseconds(reading as int));
        milliseconds
    }

    /// The frame time when the timer reads `reading`: the whole milliseconds
    /// from the last reading at which a frame time was asked for to this one.
    /// The timer counts the next frame time from `reading` on; its start
    /// stays.
    pub fn frame_time_at(&mut self, reading: i64) -> (milliseconds: i64)
        ensures
            final(self).epoch() == old(self).epoch(),
            final(self).last_poll() == reading,
            milliseconds == whole_milliseconds(reading - old(self).last_poll()),
    {
        let origin: i64 = self.last_frame;
        self.last_frame = reading;
        milliseconds_between(origin, reading)
    }

    /// Milliseconds since the last call, or since the timer was started if
    /// this is the first call: the timer is read, and the frame time is the
    /// whole milliseconds by which its last reading moves. The timer counts
    /// the next frame time from now on; its start stays.
    pub fn frame_time(&mut self) -> (milliseconds: i64)
        ensures
            final(self).epoch() == old(self).epoch(),
            milliseconds == whole_milliseconds(final(self).last_poll() - old(self).last_poll()),
    {
        let reading: i64 = self.reading();
        self.frame_time_at(reading)
    }
}

} // verus!
