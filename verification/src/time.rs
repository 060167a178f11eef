//! Spans of time, points in time, and where the current time comes from.
use vstd::prelude::*;

verus! {

/// Nanoseconds in a second.
pub const NANOS_PER_SEC: u32 = 1_000_000_000;

/// A span of time in whole seconds and nanoseconds.
#[derive(Clone, Copy, Debug)]
pub struct Duration {
    secs: u64,
    nanos: u32,
}

impl View for Duration {
    type V = nat;

    /// The length of the span in nanoseconds.
    closed spec fn view(&self) -> nat {
        (self.secs * NANOS_PER_SEC + self.nanos) as nat
    }
}

impl Duration {
    /// The nanoseconds never amount to a whole second.
    #[verifier::type_invariant]
    spec fn normalized(self) -> bool {
        self.nanos < NANOS_PER_SEC
    }

    /// The span of `secs` seconds and `nanos` nanoseconds; nanoseconds that amount to
    /// whole seconds are carried over.
    pub fn new(secs: u64, nanos: u32) -> (span: Duration)
        requires
            secs + nanos / NANOS_PER_SEC <= u64::MAX,
        ensures
            span@ == secs * NANOS_PER_SEC + nanos,
    {
        Duration { secs: secs + (nanos / NANOS_PER_SEC) as u64, nanos: nanos % NANOS_PER_SEC }
    }

    /// The span of `secs` seconds.
    pub fn from_secs(secs: u64) -> (span: Duration)
        ensures
            span@ == secs * NANOS_PER_SEC,
    {
        Duration { secs, nanos: 0 }
    }

    /// The whole seconds of the span.
    pub fn as_secs(&self) -> (secs: u64)
        ensures
            secs == self@ / (NANOS_PER_SEC as nat),
    {
        proof {
            use_type_invariant(self);
        }
        self.secs
    }

    /// Whether the span has no length.
    pub fn is_zero(&self) -> (zero: bool)
        ensures
            zero == (self@ == 0),
    {
        self.secs == 0 && self.nanos == 0
    }

    /// Whether the span is longer than `other`.
    pub fn exceeds(&self, other: &Duration) -> (longer: bool)
        ensures
            longer == (self@ > other@),
    {
        proof {
            use_type_invariant(self);
            use_type_invariant(other);
        }
        self.secs > other.secs || (self.secs == other.secs && self.nanos > other.nanos)
    }
}

/// A point in time, in whole seconds since the Unix epoch.
#[derive(Clone, Copy, Debug)]
pub struct UnixTime {
    secs: u64,
}

impl View for UnixTime {
    type V = u64;

    closed spec fn view(&self) -> u64 {
        self.secs
    }
}

impl UnixTime {
    /// The point that lies `span` after the Unix epoch, to the second.
    pub fn since_unix_epoch(span: Duration) -> (time: UnixTime)
        ensures
            time@ == span@ / (NANOS_PER_SEC as nat),
    {
        UnixTime { secs: span.as_secs() }
    }

    /// Whole seconds since the Unix epoch.
    pub fn as_secs(&self) -> (secs: u64)
        ensures
            secs == self@,
    {
        self.secs
    }
}

/// Where the current time comes from.
pub trait TimeProvider: Send + Sync {
    /// The current time, or `None` where it cannot be told.
    fn current_time(&self) -> Option<UnixTime>;
}

/// Whether `secs` is a reading that the machine's wall clock may give.
pub closed spec fn wall_clock_reading(secs: u64) -> bool {
    call_ensures(wall_clock_secs, (), secs)
}

/// The wall clock of the machine.
#[derive(Clone, Copy, Debug)]
pub struct DefaultTimeProvider;

impl TimeProvider for DefaultTimeProvider {
    /// The wall clock always tells a time, and the time told is a reading of it.
    fn current_time(&self) -> (now: Option<UnixTime>)
        ensures
            now matches Some(time) && wall_clock_reading(time@),
    {
        Some(UnixTime { secs: wall_clock_secs() })
    }
}

/// The time that the wall clock tells is, to the second, what the machine's clock read.
proof fn law_wall_clock_tells_what_was_read(now: Option<UnixTime>)
    requires
        call_ensures(DefaultTimeProvider::current_time, (&DefaultTimeProvider,), now),
    ensures
        now matches Some(time) && call_ensures(wall_clock_secs, (), time@),
{
}

/// Whole seconds since the Unix epoch by `rustls_pki_types::UnixTime::now` and
/// `UnixTime::as_secs`.
///
/// Nothing is claimed of the result, which is the machine's clock. `now` panics where that
/// clock stands before 1970; no argument tells such a machine apart.
#[verifier::external_body]
fn wall_clock_secs() -> (secs: u64) {
    rustls_pki_types::UnixTime::now().as_secs()
}

} // verus!
