//! Calls that judge an opened session ID.
use vstd::prelude::*;

use crate::config::RealityServerConfig;
use crate::error::RealityServerError;
use crate::session::{check_session, check_timestamp, version_value, RealityAuthResult};
use crate::time::{Duration, TimeProvider, UnixTime};

#[allow(unused_imports)]
use super::config::lemma_listed_or_unlisted;
#[allow(unused_imports)]
use super::{listed_or_unlisted, not_after, within};
#[allow(unused_imports)]
use crate::config::ConfigView;

verus! {

/// A version respects each configured bound, whether or not the other is configured.
pub open spec fn version_fits(config: ConfigView, version: Seq<u8>) -> bool {
    &&& config.min_client_ver matches Some(min) ==> not_after(min, version)
    &&& config.max_client_ver matches Some(max) ==> not_after(version, max)
}

/// `auth` holds `auth_key` and what stands in the 16 bytes of a plaintext: version in the first
/// three, time in the fifth to eighth, short ID in the last eight.
pub open spec fn spells_out(
    auth: RealityAuthResult,
    auth_key: Seq<u8>,
    plaintext: Seq<u8>,
) -> bool {
    let time = plaintext.subrange(4, 8);
    &&& auth.auth_key@ == auth_key
    &&& auth.client_version@ == plaintext.subrange(0, 3)
    &&& auth.client_time == time[0] * 16777216 + time[1] * 65536 + time[2] * 256 + time[3]
    &&& auth.short_id@ == plaintext.subrange(8, 16)
}

/// Two authentications say the same in every field.
pub open spec fn same_auth(a: RealityAuthResult, b: RealityAuthResult) -> bool {
    &&& a.auth_key@ == b.auth_key@
    &&& a.client_version@ == b.client_version@
    &&& a.client_time == b.client_time
    &&& a.short_id@ == b.short_id@
}

/// Version numbers are ordered as the versions are, and tell versions apart.
pub proof fn law_version_numbers_order_versions(a: [u8; 3], b: [u8; 3], m: u32, n: u32)
    requires
        call_ensures(version_value, (a,), m),
        call_ensures(version_value, (b,), n),
    ensures
        m <= n <==> not_after(a@, b@),
        m == n <==> a@ == b@,
{
    if m == n {
        assert(a@ =~= b@);
    }
}

/// A version number is below 2^24, and its three digits to the base 256 are the version.
pub proof fn law_version_number_has_the_version_for_digits(version: [u8; 3], number: u32)
    requires
        call_ensures(version_value, (version,), number),
    ensures
        number as int / 65536 == version@[0],
        number as int / 256 % 256 == version@[1],
        number as int % 256 == version@[2],
{
}

/// A session that did not open fails as such. One that opened is let pass exactly if its version
/// fits and its short ID is listed or none is; the version is looked at first. What passes is
/// what the plaintext spells out.
pub proof fn law_session_passes_exactly_within_bounds<T: TimeProvider>(
    config: RealityServerConfig<T>,
    auth_key: [u8; 32],
    opened: Option<[u8; 16]>,
    res: Result<RealityAuthResult, RealityServerError>,
)
    requires
        call_ensures(check_session::<T>, (&config, auth_key, opened), res),
    ensures
        opened is None ==> (res matches Err(e) && e is AuthDecryptFailed),
        opened matches Some(plaintext) ==> {
            let version = plaintext@.subrange(0, 3);
            let short_id = plaintext@.subrange(8, 16);
            &&& res is Ok <==> version_fits(config@, version) && listed_or_unlisted(
                config@.short_ids,
                short_id,
            )
            &&& !version_fits(config@, version) ==> (res matches Err(e)
                && e is ClientVersionRejected)
            &&& version_fits(config@, version) && !listed_or_unlisted(config@.short_ids, short_id)
                ==> (res matches Err(e) && e is ShortIdRejected)
            &&& res matches Ok(auth) ==> spells_out(auth, auth_key@, plaintext@)
        },
{
    lemma_listed_or_unlisted(config@.short_ids);
}

/// Without a bound on clock skew every client passes. With one, a client passes exactly if the
/// time is known and neither clock is ahead of the other by more than the bound; who passes,
/// passes unchanged.
pub proof fn law_timestamp_passes_exactly_within_skew<T: TimeProvider>(
    config: RealityServerConfig<T>,
    auth: RealityAuthResult,
    now: Option<UnixTime>,
    res: Result<RealityAuthResult, RealityServerError>,
)
    requires
        call_ensures(check_timestamp::<T>, (&config, auth, now), res),
    ensures
        res matches Ok(passed) ==> same_auth(passed, auth),
        config@.max_time_diff is None ==> res is Ok,
        config@.max_time_diff is Some && now is None ==> {
            &&& res matches Err(RealityServerError::Crypto(text))
            &&& text@ == "time provider failed"@
        },
        config@.max_time_diff matches Some(max) ==> now matches Some(time) ==> {
            &&& res is Ok <==> within(time@, auth.client_time, max)
            &&& res matches Err(e) ==> e is TimestampRejected
        },
{
}

/// Under a bound of `secs` seconds a client passes exactly if its time and the server's, cut to
/// 32 bits, are at most `secs` apart.
pub proof fn law_skew_bound_counts_seconds<T: TimeProvider>(
    config: RealityServerConfig<T>,
    secs: u64,
    span: Duration,
    bounded: RealityServerConfig<T>,
    auth: RealityAuthResult,
    now: UnixTime,
    res: Result<RealityAuthResult, RealityServerError>,
)
    requires
        secs > 0,
        call_ensures(Duration::from_secs, (secs,), span),
        call_ensures(RealityServerConfig::<T>::with_max_time_diff, (config, Some(span)), bounded),
        call_ensures(check_timestamp::<T>, (&bounded, auth, Some(now)), res),
    ensures
        res is Ok <==> -secs <= now@ as int % 4294967296 - auth.client_time <= secs,
{
    law_timestamp_passes_exactly_within_skew(bounded, auth, Some(now), res);
}

/// Under a range of versions a session passes exactly if its version is in the range, whichever
/// ends the range has, and its short ID is listed or none is.
pub proof fn law_version_range_decides<T: TimeProvider>(
    config: RealityServerConfig<T>,
    min: Option<[u8; 3]>,
    max: Option<[u8; 3]>,
    bounded: RealityServerConfig<T>,
    auth_key: [u8; 32],
    plaintext: [u8; 16],
    res: Result<RealityAuthResult, RealityServerError>,
)
    requires
        call_ensures(RealityServerConfig::<T>::with_client_ver_range, (config, min, max), bounded),
        call_ensures(check_session::<T>, (&bounded, auth_key, Some(plaintext)), res),
    ensures
        ({
            let version = plaintext@.subrange(0, 3);
            let below = min matches Some(m) && !not_after(m@, version);
            let above = max matches Some(m) && !not_after(version, m@);
            &&& below || above <==> (res matches Err(e) && e is ClientVersionRejected)
            &&& res is Ok <==> !below && !above && listed_or_unlisted(
                config@.short_ids,
                plaintext@.subrange(8, 16),
            )
        }),
{
    law_session_passes_exactly_within_bounds(bounded, auth_key, Some(plaintext), res);
}

} // verus!
