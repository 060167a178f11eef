//! What a client seals into its session ID, and the policy applied to it.
use vstd::prelude::*;

use crate::bytes::bytes_at;
use crate::config::RealityServerConfig;
use crate::error::RealityServerError;
use crate::time::{Duration, TimeProvider, UnixTime};

#[allow(unused_imports)]
use crate::config::{allows, ConfigView};
#[allow(unused_imports)]
use crate::error::ErrorView;
#[allow(unused_imports)]
use crate::time::NANOS_PER_SEC;

verus! {

/// Successful REALITY authentication of a ClientHello.
#[derive(Clone, Copy, Debug)]
pub struct RealityAuthResult {
    /// Derived AuthKey used for HMAC certificate minting.
    pub auth_key: [u8; 32],
    /// Client version from the decrypted session_id plaintext.
    pub client_version: [u8; 3],
    /// Client short ID from the decrypted session_id plaintext.
    pub short_id: [u8; 8],
    /// Client Unix timestamp from the decrypted session_id plaintext.
    pub client_time: u32,
}

/// [`RealityAuthResult`] over sequences.
#[verifier::ext_equal]
pub struct AuthView {
    pub auth_key: Seq<u8>,
    pub client_version: Seq<u8>,
    pub short_id: Seq<u8>,
    pub client_time: u32,
}

impl View for RealityAuthResult {
    type V = AuthView;

    open spec fn view(&self) -> AuthView {
        AuthView {
            auth_key: self.auth_key@,
            client_version: self.client_version@,
            short_id: self.short_id@,
            client_time: self.client_time,
        }
    }
}

/// What an authentication came to.
pub open spec fn outcome(res: Result<RealityAuthResult, RealityServerError>) -> Result<
    AuthView,
    ErrorView,
> {
    match res {
        Ok(auth) => Ok(auth@),
        Err(e) => Err(e@),
    }
}

/// The number that orders client versions: the three bytes, most significant first.
pub open spec fn version_number(version: Seq<u8>) -> int {
    version[0] * 0x1_0000 + version[1] * 0x100 + version[2]
}

/// Four bytes as a number, most significant first.
pub open spec fn be_number(bytes: Seq<u8>) -> int {
    bytes[0] * 0x100_0000 + bytes[1] * 0x1_0000 + bytes[2] * 0x100 + bytes[3]
}

/// What the plaintext of a session ID says of a client, beside the key it was sealed with. Its
/// layout is version(3), reserved(1), time(4), short ID(8).
pub open spec fn read_plaintext(auth_key: Seq<u8>, plaintext: Seq<u8>) -> AuthView {
    AuthView {
        auth_key,
        client_version: plaintext.subrange(0, 3),
        short_id: plaintext.subrange(8, 16),
        client_time: be_number(plaintext.subrange(4, 8)) as u32,
    }
}

/// Whether a client version lies within the configured bounds.
pub open spec fn version_accepted(config: ConfigView, version: Seq<u8>) -> bool {
    &&& config.min_client_ver matches Some(min) ==> version_number(min) <= version_number(version)
    &&& config.max_client_ver matches Some(max) ==> version_number(version) <= version_number(max)
}

/// The decision on an opened session ID, before its timestamp is looked at; `opened` is `None`
/// where the session ID did not open.
pub open spec fn judge_session(
    config: ConfigView,
    auth_key: Seq<u8>,
    opened: Option<Seq<u8>>,
) -> Result<AuthView, ErrorView> {
    match opened {
        None => Err(ErrorView::AuthDecryptFailed),
        Some(plaintext) => {
            let auth = read_plaintext(auth_key, plaintext);
            if !version_accepted(config, auth.client_version) {
                Err(ErrorView::ClientVersionRejected)
            } else if !allows(config.short_ids, auth.short_id) {
                Err(ErrorView::ShortIdRejected)
            } else {
                Ok(auth)
            }
        },
    }
}

/// Seconds between the server's clock, cut to 32 bits, and a client's timestamp.
pub open spec fn skew_secs(now: u64, client_time: u32) -> nat {
    let now = now % 0x1_0000_0000;
    if now < client_time {
        (client_time - now) as nat
    } else {
        (now - client_time) as nat
    }
}

/// The decision on the timestamp of a client; `now` is `None` where no time could be had.
pub open spec fn judge_time(config: ConfigView, auth: AuthView, now: Option<u64>) -> Result<
    AuthView,
    ErrorView,
> {
    match (config.max_time_diff, now) {
        (None, _) => Ok(auth),
        (Some(max), None) => Err(ErrorView::Crypto("time provider failed"@)),
        (Some(max), Some(now)) => if skew_secs(now, auth.client_time) * NANOS_PER_SEC > max {
            Err(ErrorView::TimestampRejected)
        } else {
            Ok(auth)
        },
    }
}

/// Seconds since the Unix epoch of an optional point in time.
pub open spec fn time_view(time: Option<UnixTime>) -> Option<u64> {
    match time {
        Some(t) => Some(t@),
        None => None,
    }
}

/// The number that orders client versions.
pub fn version_value(v: [u8; 3]) -> (number: u32)
    ensures
        number == version_number(v@),
{
    (v[0] as u32) * 0x1_0000 + (v[1] as u32) * 0x100 + (v[2] as u32)
}

/// Four bytes as a number, most significant first.
fn be_value(bytes: [u8; 4]) -> (number: u32)
    ensures
        number == be_number(bytes@),
{
    (bytes[0] as u32) * 0x100_0000 + (bytes[1] as u32) * 0x1_0000 + (bytes[2] as u32) * 0x100 + (
    bytes[3] as u32)
}

/// Read the plaintext of a session ID and apply the bounds on client version and short ID.
///
/// `opened` is `None` where the session ID did not open.
pub fn check_session<T: TimeProvider>(
    config: &RealityServerConfig<T>,
    auth_key: [u8; 32],
    opened: Option<[u8; 16]>,
) -> (res: Result<RealityAuthResult, RealityServerError>)
    ensures
        outcome(res) == judge_session(
            config@,
            auth_key@,
            match opened {
                Some(plaintext) => Some(plaintext@),
                None => None,
            },
        ),
{
    let plaintext = match opened {
        Some(plaintext) => plaintext,
        None => return Err(RealityServerError::AuthDecryptFailed),
    };
    let client_version = bytes_at::<3>(&plaintext, 0);
    let client_time = be_value(bytes_at::<4>(&plaintext, 4));
    let short_id = bytes_at::<8>(&plaintext, 8);

    if let Some(min) = config.min_client_ver() {
        if version_value(client_version) < version_value(min) {
            return Err(RealityServerError::ClientVersionRejected);
        }
    }
    if let Some(max) = config.max_client_ver() {
        if version_value(client_version) > version_value(max) {
            return Err(RealityServerError::ClientVersionRejected);
        }
    }
    if !config.allows_short_id(&short_id) {
        return Err(RealityServerError::ShortIdRejected);
    }
    Ok(RealityAuthResult { auth_key, client_version, short_id, client_time })
}

/// Apply the bound on clock skew to a client's timestamp.
///
/// `now` is `None` where no time could be had.
pub fn check_timestamp<T: TimeProvider>(
    config: &RealityServerConfig<T>,
    auth: RealityAuthResult,
    now: Option<UnixTime>,
) -> (res: Result<RealityAuthResult, RealityServerError>)
    ensures
        outcome(res) == judge_time(config@, auth@, time_view(now)),
{
    let max = match config.max_time_diff() {
        Some(max) => max,
        None => return Ok(auth),
    };
    let now = match now {
        Some(now) => now.as_secs() % 0x1_0000_0000,
        None => return Err(RealityServerError::Crypto("time provider failed".to_string())),
    };
    let client_time = auth.client_time as u64;
    let delta = if now < client_time {
        client_time - now
    } else {
        now - client_time
    };
    if Duration::from_secs(delta).exceeds(&max) {
        return Err(RealityServerError::TimestampRejected);
    }
    Ok(auth)
}

} // verus!
