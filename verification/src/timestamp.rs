use vstd::prelude::*;
use vstd::arithmetic::div_mod::lemma_mod_multiples_vanish;

verus! {

/// An instant on the UTC time line: whole seconds since the Unix epoch and
/// the nanoseconds past that second. A nanosecond count of one thousand
/// million or more stands for a leap second, which can only follow the 59th
/// second of a minute.
#[derive(Clone, Copy, Debug, PartialEq, Eq, Structural)]
pub struct Timestamp {
    /// Seconds since 1970-01-01T00:00:00Z; negative before it.
    pub secs: i64,
    /// Nanoseconds since the last whole non-leap second.
    pub nanos: u32,
}

/// The earliest second an instant may name, the first of the year -262143.
pub const EARLIEST_SECOND: i64 = -8_334_601_228_800;

/// The latest second an instant may name, the last of the year 262142.
pub const LATEST_SECOND: i64 = 8_210_266_876_799;

/// Nanoseconds in one second.
pub open spec fn nanos_per_second() -> int {
    1_000_000_000
}

/// The second of its day, counted from midnight, in which `secs` falls.
pub open spec fn second_of_day(secs: int) -> int {
    secs % 86_400
}

/// A count of nanoseconds cut down to whole seconds, toward zero.
pub open spec fn whole_seconds(nanos: int) -> int {
    if nanos >= 0 {
        nanos / nanos_per_second()
    } else {
        -((-nanos) / nanos_per_second())
    }
}

impl Timestamp {
    /// Whether the instant lies within the supported years and its
    /// nanoseconds are consistent with its second.
    pub open spec fn is_valid(self) -> bool {
        &&& EARLIEST_SECOND <= self.secs <= LATEST_SECOND
        &&& self.nanos < 2_000_000_000
        &&& (self.nanos >= 1_000_000_000 ==> self.secs % 60 == 59)
    }

    /// Whether the instant is a leap second.
    pub open spec fn is_leap(self) -> bool {
        self.nanos >= 1_000_000_000
    }

    /// The extra second counted when a leap second lies between two clock
    /// times: the earlier instant's leap second is added when the later
    /// clock time is later in its day, the later instant's is taken off when
    /// its clock time is earlier in its day.
    pub open spec fn leap_adjustment(self, earlier: Timestamp) -> int {
        if second_of_day(self.secs as int) > second_of_day(earlier.secs as int) && earlier.is_leap() {
            1
        } else if second_of_day(self.secs as int) < second_of_day(earlier.secs as int)
            && self.is_leap() {
            -1
        } else {
            0
        }
    }

    /// Nanoseconds from `earlier` to `self`; negative when `self` is first.
    pub open spec fn nanos_since(self, earlier: Timestamp) -> int {
        (self.secs - earlier.secs + self.leap_adjustment(earlier)) * nanos_per_second() + (
        self.nanos - earlier.nanos)
    }

    /// Whole seconds from `earlier` to `self`, cut toward zero; negative
    /// when `self` is first.
    pub open spec fn elapsed_since(self, earlier: Timestamp) -> int {
        whole_seconds(self.nanos_since(earlier))
    }

    /// Checks an instant, handing it back only when it is valid.
    pub fn new(secs: i64, nanos: u32) -> (made: Option<Timestamp>)
        ensures
            made == if (Timestamp { secs, nanos }).is_valid() {
                Some(Timestamp { secs, nanos })
            } else {
                None
            },
    {
        let t = Timestamp { secs, nanos };
        if t.valid() {
            Some(t)
        } else {
            None
        }
    }

    /// Whether the instant is valid.
    pub fn valid(&self) -> (yes: bool)
        ensures
            yes == self.is_valid(),
    {
        if self.secs < EARLIEST_SECOND || self.secs > LATEST_SECOND || self.nanos >= 2_000_000_000 {
            return false;
        }
        if self.nanos < 1_000_000_000 {
            return true;
        }
        let shifted: i64 = self.secs + 8_334_601_228_800;
        proof {
            lemma_mod_multiples_vanish(138_910_020_480, self.secs as int, 60);
        }
        shifted % 60 == 59
    }

    /// Whole seconds from `earlier` to `self`, cut toward zero.
    pub fn seconds_since(&self, earlier: &Timestamp) -> (seconds: i64)
        requires
            self.is_valid(),
            earlier.is_valid(),
        ensures
            seconds == self.elapsed_since(*earlier),
    {
        seconds_between(*self, *earlier)
    }

    /// Whole seconds from `earlier` to `self`, cut toward zero, when both
    /// are valid instants; `None` when one of them is not.
    pub fn checked_seconds_since(&self, earlier: &Timestamp) -> (seconds: Option<i64>)
        ensures
            match seconds {
                Some(n) => self.is_valid() && earlier.is_valid() && n == self.elapsed_since(
                    *earlier,
                ),
                None => !(self.is_valid() && earlier.is_valid()),
            },
    {
        if self.valid() && earlier.valid() {
            Some(self.seconds_since(earlier))
        } else {
            None
        }
    }
}

/// Subtracts two `chrono::DateTime<Utc>` values built with
/// `DateTime::from_timestamp` and reads the difference with
/// `TimeDelta::num_seconds`. Valid instants are exactly those
/// `from_timestamp` accepts. The difference counts the seconds between the two
/// timestamps, one more or less where a leap second lies between the clock
/// times, plus the difference of the nanoseconds; `num_seconds` drops the
/// fraction toward zero.
#[verifier::external_body]
fn seconds_between(later: Timestamp, earlier: Timestamp) -> (seconds: i64)
    requires
        later.is_valid(),
        earlier.is_valid(),
    ensures
        seconds == later.elapsed_since(earlier),
{
    let later = chrono::DateTime::from_timestamp(later.secs, later.nanos).unwrap();
    let earlier = chrono::DateTime::from_timestamp(earlier.secs, earlier.nanos).unwrap();
    (later - earlier).num_seconds()
}

/// Between two instants on whole seconds the elapsed time is the plain
/// difference of their seconds.
pub proof fn lemma_elapsed_on_whole_seconds(later: Timestamp, earlier: Timestamp)
    requires
        later.nanos == 0,
        earlier.nanos == 0,
    ensures
        later.elapsed_since(earlier) == later.secs - earlier.secs,
{
    let d = later.secs - earlier.secs;
    assert(later.nanos_since(earlier) == d * 1_000_000_000);
    if d >= 0 {
        assert((d * 1_000_000_000) / 1_000_000_000 == d) by (nonlinear_arith);
    } else {
        assert(((-d) * 1_000_000_000) / 1_000_000_000 == -d) by (nonlinear_arith);
        assert(-(d * 1_000_000_000) == (-d) * 1_000_000_000) by (nonlinear_arith);
    }
}

/// Measuring backwards negates the result: nothing is clamped.
pub proof fn lemma_elapsed_is_antisymmetric(a: Timestamp, b: Timestamp)
    ensures
        a.elapsed_since(b) == -b.elapsed_since(a),
{
    assert(a.leap_adjustment(b) == -b.leap_adjustment(a));
    assert(a.nanos_since(b) == -b.nanos_since(a)) by (nonlinear_arith)
        requires
            a.leap_adjustment(b) == -b.leap_adjustment(a),
            a.nanos_since(b) == (a.secs - b.secs + a.leap_adjustment(b)) * 1_000_000_000 + (a.nanos
                - b.nanos),
            b.nanos_since(a) == (b.secs - a.secs + b.leap_adjustment(a)) * 1_000_000_000 + (b.nanos
                - a.nanos),
    ;
    if a.nanos_since(b) == 0 {
        assert(0int / 1_000_000_000 == 0);
    }
}

} // verus!
