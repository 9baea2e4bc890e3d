//! Points in time, as seconds and nanoseconds since the Unix epoch.

use vstd::prelude::*;

verus! {

/// Nanoseconds in one second.
pub const NANOS_PER_SECOND: u32 = 1_000_000_000;

/// Seconds since the Unix epoch below which every reading of the clock
/// lies.
pub const CLOCK_LIMIT_SECONDS: i64 = 0x1_0000_0000_0000;

/// A point in time on the UTC time line: whole seconds since the Unix epoch
/// and the nanoseconds into that second.
#[derive(Clone, Copy, Debug, PartialEq, Eq, Structural)]
pub struct Timestamp {
    secs: i64,
    nanos: u32,
}

impl Timestamp {
    #[verifier::type_invariant]
    spec fn well_formed(self) -> bool {
        self.nanos < NANOS_PER_SECOND
    }

    /// Whole seconds since the Unix epoch.
    pub closed spec fn seconds(self) -> int {
        self.secs as int
    }

    /// Nanoseconds into the second.
    pub closed spec fn subsec_nanos(self) -> int {
        self.nanos as int
    }

    /// Whether the timestamp can be a reading of the clock: it lies in 1970
    /// or later and below the limit of clock readings.
    pub open spec fn is_clock_reading(self) -> bool {
        0 <= self.seconds() < CLOCK_LIMIT_SECONDS
    }

    /// Whether `self` lies strictly before `other`.
    pub open spec fn is_before(self, other: Timestamp) -> bool {
        self.seconds() < other.seconds() || (self.seconds() == other.seconds()
            && self.subsec_nanos() < other.subsec_nanos())
    }

    /// The earlier of two points in time; `self` where neither is.
    pub open spec fn earlier_of(self, other: Timestamp) -> Timestamp {
        if other.is_before(self) {
            other
        } else {
            self
        }
    }

    /// Whether the timestamp can be moved by `delta` seconds without its
    /// second count leaving the range of `i64`.
    pub open spec fn can_add_seconds(self, delta: int) -> bool {
        i64::MIN <= self.seconds() + delta <= i64::MAX
    }

    /// The timestamp `delta` seconds on (back, where `delta` is negative). It
    /// is meaningful only where `can_add_seconds(delta)` holds.
    pub closed spec fn plus_seconds(self, delta: int) -> Timestamp {
        Timestamp { secs: (self.secs + delta) as i64, nanos: self.nanos }
    }

    /// Moving a timestamp by whole seconds changes its second count by as
    /// much and keeps the nanoseconds.
    pub broadcast proof fn lemma_plus_seconds(self, delta: int)
        requires
            self.can_add_seconds(delta),
        ensures
            #[trigger] self.plus_seconds(delta).seconds() == self.seconds() + delta,
            self.plus_seconds(delta).subsec_nanos() == self.subsec_nanos(),
    {
    }

    /// The second count of a timestamp fits `i64`.
    pub proof fn lemma_seconds_fit(self)
        ensures
            i64::MIN <= self.seconds() <= i64::MAX,
            self.can_add_seconds(0),
            self.plus_seconds(0) == self,
    {
    }

    /// Two timestamps with the same seconds and nanoseconds are the same.
    pub proof fn lemma_same_instant(self, other: Timestamp)
        requires
            self.seconds() == other.seconds(),
            self.subsec_nanos() == other.subsec_nanos(),
        ensures
            self == other,
    {
    }

    /// Builds a timestamp; `None` when `nanos` is a whole second or more.
    pub fn new(secs: i64, nanos: u32) -> (r: Option<Timestamp>)
        ensures
            r is Some <==> nanos < NANOS_PER_SECOND,
            r matches Some(t) ==> t.seconds() == secs && t.subsec_nanos() == nanos,
    {
        if nanos < NANOS_PER_SECOND {
            Some(Timestamp { secs, nanos })
        } else {
            None
        }
    }

    /// The timestamp at a whole second.
    pub fn from_seconds(secs: i64) -> (r: Timestamp)
        ensures
            r.seconds() == secs,
            r.subsec_nanos() == 0,
    {
        Timestamp { secs, nanos: 0 }
    }

    /// Whole seconds since the Unix epoch.
    pub fn timestamp(&self) -> (r: i64)
        ensures
            r == self.seconds(),
    {
        self.secs
    }

    /// Nanoseconds into the second.
    pub fn timestamp_subsec_nanos(&self) -> (r: u32)
        ensures
            r == self.subsec_nanos(),
            r < NANOS_PER_SECOND,
    {
        proof {
            use_type_invariant(self);
        }
        self.nanos
    }

    /// Whether the timestamp can be a reading of the clock.
    pub fn reads_as_clock(&self) -> (r: bool)
        ensures
            r == self.is_clock_reading(),
    {
        0 <= self.secs && self.secs < CLOCK_LIMIT_SECONDS
    }

    /// Whether `self` lies strictly before `other`.
    pub fn before(&self, other: &Timestamp) -> (r: bool)
        ensures
            r == self.is_before(*other),
    {
        self.secs < other.secs || (self.secs == other.secs && self.nanos < other.nanos)
    }

    /// The earlier of two points in time.
    pub fn earlier(self, other: Timestamp) -> (r: Timestamp)
        ensures
            r == self.earlier_of(other),
    {
        if other.before(&self) {
            other
        } else {
            self
        }
    }

    /// Moves the timestamp by a signed number of whole seconds; `None` when
    /// the second count would leave the range of `i64`.
    pub fn checked_add_seconds(&self, delta: i64) -> (r: Option<Timestamp>)
        ensures
            r is Some <==> self.can_add_seconds(delta as int),
            r is Some ==> r == Some(self.plus_seconds(delta as int)),
    {
        proof {
            use_type_invariant(self);
        }
        match self.secs.checked_add(delta) {
            Some(secs) => Some(Timestamp { secs, nanos: self.nanos }),
            None => None,
        }
    }
}

/// Reads the clock through `chrono::Utc::now` and hands the reading out as
/// its whole seconds (`timestamp`) and the nanoseconds into the second
/// (`timestamp_subsec_nanos`), which a clock reading keeps below one second.
/// `chrono` takes the reading as a time since the Unix epoch, so it is not
/// negative, and holds it as a date whose day count fits 32 bits, so its
/// seconds stay below two to the power of 48. Nothing else is claimed of
/// the value: two calls may differ in any way. A system clock that is set
/// before 1970 or beyond the dates that `chrono` can hold makes it panic.
#[verifier::external_body]
pub(crate) fn now() -> (t: Timestamp)
    ensures
        t.is_clock_reading(),
{
    let t = chrono::Utc::now();
    Timestamp { secs: t.timestamp(), nanos: t.timestamp_subsec_nanos() }
}

/// A reading of the clock: a point in time from 1970 on and below the limit
/// of clock readings.
#[derive(Clone, Copy, Debug, PartialEq, Eq, Structural)]
pub struct ClockReading {
    at: Timestamp,
}

impl View for ClockReading {
    type V = Timestamp;

    closed spec fn view(&self) -> Timestamp {
        self.at
    }
}

impl ClockReading {
    #[verifier::type_invariant]
    spec fn in_range(self) -> bool {
        self.at.is_clock_reading()
    }

    /// The timestamp as a clock reading; nothing where it cannot be one.
    pub fn new(at: Timestamp) -> (reading: Option<ClockReading>)
        ensures
            reading is Some <==> at.is_clock_reading(),
            reading matches Some(r) ==> r@ == at,
    {
        if at.reads_as_clock() {
            Some(ClockReading { at })
        } else {
            None
        }
    }

    /// A reading of the clock, now.
    pub fn now() -> (reading: ClockReading)
        ensures
            reading@.is_clock_reading(),
    {
        ClockReading { at: now() }
    }

    /// The point in time that was read.
    pub fn timestamp(&self) -> (at: Timestamp)
        ensures
            at == self@,
            at.is_clock_reading(),
    {
        proof {
            use_type_invariant(self);
        }
        self.at
    }
}

} // verus!
