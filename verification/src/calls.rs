//! Laws on calls: what the arguments and results of a call have to do with each other.
//!
//! Each law speaks of executable functions by `call_ensures` and says the rest in bytes, numbers
//! and sets, so that a reader need not look up how a contract is phrased.
use vstd::prelude::*;

#[allow(unused_imports)]
use crate::config::RealityServerConfig;
#[allow(unused_imports)]
use crate::time::{TimeProvider, UnixTime};

pub mod auth;
pub mod cert;
pub mod config;
pub mod error;
pub mod hello;
pub mod resolver;
pub mod session;
pub mod time;

verus! {

/// `item` is on `list`, or nothing is.
pub open spec fn listed_or_unlisted<A>(list: Set<A>, item: A) -> bool {
    (exists|entry: A| list.contains(entry)) ==> list.contains(item)
}

/// `long` is `short` with zeros behind it, eight bytes in all.
pub open spec fn zero_filled(long: Seq<u8>, short: Seq<u8>) -> bool {
    &&& long.len() == 8
    &&& forall|j: int|
        0 <= j < 8 ==> #[trigger] long[j] == if j < short.len() {
            short[j]
        } else {
            0u8
        }
}

/// Version `a` is not after version `b`: the first byte in which they differ is smaller in `a`.
pub open spec fn not_after(a: Seq<u8>, b: Seq<u8>) -> bool {
    ||| a[0] < b[0]
    ||| a[0] == b[0] && a[1] < b[1]
    ||| a[0] == b[0] && a[1] == b[1] && a[2] <= b[2]
}

/// A clock reading, cut to 32 bits, and a client's time differ by at most `max` nanoseconds,
/// whichever is ahead.
pub open spec fn within(now: u64, client_time: u32, max: nat) -> bool {
    let cut = now as int % 4294967296;
    &&& (cut - client_time) * 1000000000 <= max
    &&& (client_time - cut) * 1000000000 <= max
}

/// The clock of a configuration may tell `now`; `None` is that it tells no time.
pub open spec fn tells<T: TimeProvider>(
    config: RealityServerConfig<T>,
    now: Option<UnixTime>,
) -> bool {
    call_ensures(T::current_time, (&config.provider(),), now)
}

/// A client's time is within the bound on clock skew, if there is one, by some time that the
/// clock may tell.
pub open spec fn in_time<T: TimeProvider>(
    config: RealityServerConfig<T>,
    client_time: u32,
) -> bool {
    config@.max_time_diff matches Some(max) ==> exists|now: UnixTime| #[trigger]
        tells(config, Some(now)) && within(now@, client_time, max)
}

} // verus!
