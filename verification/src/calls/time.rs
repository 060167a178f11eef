//! Calls on spans and points in time.
use vstd::prelude::*;

use crate::time::{DefaultTimeProvider, Duration, TimeProvider, UnixTime};

#[allow(unused_imports)]
use crate::time::wall_clock_reading;

verus! {

/// A span is as many nanoseconds long as the seconds and nanoseconds it is made of.
pub proof fn law_span_is_what_it_is_made_of(secs: u64, nanos: u32, span: Duration, whole: Duration)
    requires
        call_ensures(Duration::new, (secs, nanos), span),
        call_ensures(Duration::from_secs, (secs,), whole),
    ensures
        span@ == secs * 1000000000 + nanos,
        whole@ == secs * 1000000000,
{
}

/// The whole seconds of a span are those it is made of, with those that its nanoseconds amount
/// to.
pub proof fn law_whole_seconds_come_back(secs: u64, nanos: u32, span: Duration, out: u64)
    requires
        call_ensures(Duration::new, (secs, nanos), span),
        call_ensures(Duration::as_secs, (&span,), out),
    ensures
        out == secs + nanos as int / 1000000000,
{
}

/// One span exceeds another exactly if it is longer, and is zero exactly if it has no length.
pub proof fn law_spans_compare_by_length(a: Duration, b: Duration, longer: bool, zero: bool)
    requires
        call_ensures(Duration::exceeds, (&a, &b), longer),
        call_ensures(Duration::is_zero, (&a,), zero),
    ensures
        longer <==> a@ > b@,
        zero <==> a@ == 0,
{
}

/// A point in time tells the whole seconds of the span it was made from.
pub proof fn law_points_in_time_tell_their_seconds(
    secs: u64,
    nanos: u32,
    span: Duration,
    time: UnixTime,
    out: u64,
)
    requires
        call_ensures(Duration::new, (secs, nanos), span),
        call_ensures(UnixTime::since_unix_epoch, (span,), time),
        call_ensures(UnixTime::as_secs, (&time,), out),
    ensures
        out == secs + nanos as int / 1000000000,
        time@ == out,
{
}

/// The wall clock always tells a time, and it is a reading of the machine's clock.
pub proof fn law_wall_clock_tells_a_reading(now: Option<UnixTime>)
    requires
        call_ensures(DefaultTimeProvider::current_time, (&DefaultTimeProvider,), now),
    ensures
        now matches Some(time) && wall_clock_reading(time@),
{
}

} // verus!
