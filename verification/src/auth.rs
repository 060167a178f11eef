//! Authentication of a ClientHello.
use vstd::prelude::*;

use crate::bytes::bytes_at;
use crate::config::RealityServerConfig;
use crate::crypto::{aes_256_gcm_decrypt, hkdf_sha256_derive, x25519_ecdh};
use crate::error::RealityServerError;
use crate::hello::{reality_aad_from_raw, ClientHello};
use crate::session::{check_session, check_timestamp, RealityAuthResult};
use crate::time::{TimeProvider, UnixTime};

#[allow(unused_imports)]
use crate::config::{allows, ConfigView};
#[allow(unused_imports)]
use crate::crypto::{aes_256_gcm_open, hkdf_sha256, x25519_shared_secret};
#[allow(unused_imports)]
use crate::error::ErrorView;
#[allow(unused_imports)]
use crate::hello::{aad_of, HelloView};
#[allow(unused_imports)]
use crate::session::{judge_session, judge_time, outcome, time_view, AuthView};

verus! {

/// Length of the session ID of a REALITY client.
pub const SESSION_ID_LEN: usize = 32;

/// Length of the leading part of the client random that salts the key derivation; the rest is
/// the nonce.
pub const SALT_LEN: usize = 20;

/// The info string of the key derivation: the ASCII codes of `REALITY`.
pub const KEY_INFO: [u8; 7] = [0x52, 0x45, 0x41, 0x4c, 0x49, 0x54, 0x59];

/// What authentication takes from a ClientHello that is fit for it.
#[derive(Debug)]
pub struct Admission {
    /// The client's X25519 public key.
    pub peer_public_key: [u8; 32],
    /// The additional data that the session ID was sealed with.
    pub aad: Vec<u8>,
}

/// [`Admission`] over sequences.
pub struct AdmissionView {
    pub peer_public_key: Seq<u8>,
    pub aad: Seq<u8>,
}

impl View for Admission {
    type V = AdmissionView;

    open spec fn view(&self) -> AdmissionView {
        AdmissionView { peer_public_key: self.peer_public_key@, aad: self.aad@ }
    }
}

/// What a ClientHello offers to authentication, or why it is turned away at once.
pub open spec fn judge_hello(config: ConfigView, hello: HelloView) -> Result<
    AdmissionView,
    ErrorView,
> {
    if !(hello.server_name matches Some(name) && allows(config.server_names, name)) {
        Err(ErrorView::ServerNameRejected)
    } else if hello.session_id.len() != SESSION_ID_LEN {
        Err(ErrorView::InvalidSessionId)
    } else {
        match (hello.x25519_public_key(), hello.raw_handshake_message) {
            (None, _) => Err(ErrorView::MissingX25519KeyShare),
            (Some(_), None) => Err(ErrorView::InvalidClientHelloEncoding),
            (Some(peer_public_key), Some(raw)) => match aad_of(raw, hello.session_id) {
                None => Err(ErrorView::InvalidClientHelloEncoding),
                Some(aad) => Ok(AdmissionView { peer_public_key, aad }),
            },
        }
    }
}

/// The key that a session ID is sealed with, from what the key derivation came to.
pub open spec fn judge_derivation(derived: Option<Seq<u8>>) -> Result<Seq<u8>, ErrorView> {
    match derived {
        None => Err(ErrorView::Crypto("HKDF expand failed"@)),
        Some(key) => Ok(key),
    }
}

/// The key that a session ID is sealed with, from what the key agreement came to.
pub open spec fn judge_agreement(shared: Option<Seq<u8>>, random: Seq<u8>) -> Result<
    Seq<u8>,
    ErrorView,
> {
    match shared {
        None => Err(ErrorView::Crypto("X25519 key agreement failed"@)),
        Some(secret) => judge_derivation(
            hkdf_sha256(random.take(SALT_LEN as int), secret, KEY_INFO@),
        ),
    }
}

/// The key that a client with the given public key and random seals its session ID with.
pub open spec fn auth_key_for(
    private_key: Seq<u8>,
    peer_public_key: Seq<u8>,
    random: Seq<u8>,
) -> Result<Seq<u8>, ErrorView> {
    judge_agreement(x25519_shared_secret(private_key, peer_public_key), random)
}

/// A key, or the reason why there is none.
pub open spec fn key_outcome(res: Result<[u8; 32], RealityServerError>) -> Result<
    Seq<u8>,
    ErrorView,
> {
    match res {
        Ok(key) => Ok(key@),
        Err(e) => Err(e@),
    }
}

/// The decision on a ClientHello, before its timestamp is looked at.
pub open spec fn judge_client(config: ConfigView, hello: HelloView) -> Result<AuthView, ErrorView> {
    match judge_hello(config, hello) {
        Err(e) => Err(e),
        Ok(admission) => match auth_key_for(
            config.private_key,
            admission.peer_public_key,
            hello.random,
        ) {
            Err(e) => Err(e),
            Ok(auth_key) => judge_session(
                config,
                auth_key,
                aes_256_gcm_open(
                    auth_key,
                    hello.random.skip(SALT_LEN as int),
                    admission.aad,
                    hello.session_id,
                ),
            ),
        },
    }
}

/// Whether authenticating `hello` may come to `decision`.
///
/// Only a configured bound on clock skew leaves room for more than one decision. The decision
/// is then the one for some time that the provider may tell.
pub open spec fn may_come_to<T: TimeProvider>(
    config: RealityServerConfig<T>,
    hello: HelloView,
    decision: Result<AuthView, ErrorView>,
) -> bool {
    match judge_client(config@, hello) {
        Err(e) => decision == Err::<AuthView, ErrorView>(e),
        Ok(auth) => if config@.max_time_diff is None {
            decision == Ok::<AuthView, ErrorView>(auth)
        } else {
            exists|now: Option<UnixTime>|
                #![trigger time_view(now)]
                call_ensures(T::current_time, (&config.provider(),), now) && decision == judge_time(
                    config@,
                    auth,
                    time_view(now),
                )
        },
    }
}

/// Check server name, session ID, key share and encoding of a ClientHello, in this order.
pub fn admit_client_hello<T: TimeProvider>(
    config: &RealityServerConfig<T>,
    client_hello: &ClientHello<'_>,
) -> (res: Result<Admission, RealityServerError>)
    ensures
        match res {
            Ok(admission) => judge_hello(config@, client_hello@) == Ok::<AdmissionView, ErrorView>(
                admission@,
            ),
            Err(e) => judge_hello(config@, client_hello@) == Err::<AdmissionView, ErrorView>(e@),
        },
{
    let server_name = match client_hello.server_name {
        Some(server_name) => server_name,
        None => return Err(RealityServerError::ServerNameRejected),
    };
    if !config.allows_server_name(server_name) {
        return Err(RealityServerError::ServerNameRejected);
    }
    if client_hello.session_id.len() != SESSION_ID_LEN {
        return Err(RealityServerError::InvalidSessionId);
    }
    let peer_public_key = match client_hello.reality_x25519_public_key() {
        Some(key) => key,
        None => return Err(RealityServerError::MissingX25519KeyShare),
    };
    let raw = match client_hello.raw_handshake_message {
        Some(raw) => raw,
        None => return Err(RealityServerError::InvalidClientHelloEncoding),
    };
    match reality_aad_from_raw(raw, client_hello.session_id) {
        Ok(aad) => Ok(Admission { peer_public_key, aad }),
        Err(e) => Err(e),
    }
}

/// The key that a session ID is sealed with, from what the key derivation came to.
pub fn conclude_derivation(derived: Option<[u8; 32]>) -> (res: Result<[u8; 32], RealityServerError>)
    ensures
        key_outcome(res) == judge_derivation(
            match derived {
                Some(key) => Some(key@),
                None => None,
            },
        ),
{
    match derived {
        Some(key) => Ok(key),
        None => Err(RealityServerError::Crypto("HKDF expand failed".to_string())),
    }
}

/// The key that a session ID is sealed with, from what the key agreement came to.
pub fn conclude_agreement(shared: Option<Vec<u8>>, random: &[u8; 32]) -> (res: Result<
    [u8; 32],
    RealityServerError,
>)
    ensures
        key_outcome(res) == judge_agreement(
            match shared {
                Some(secret) => Some(secret@),
                None => None,
            },
            random@,
        ),
{
    let secret = match shared {
        Some(secret) => secret,
        None => return Err(RealityServerError::Crypto("X25519 key agreement failed".to_string())),
    };
    let salt = bytes_at::<20>(random, 0);
    proof {
        assert(salt@ =~= random@.take(SALT_LEN as int));
    }
    let derived = match hkdf_sha256_derive(&salt, &secret, &KEY_INFO) {
        Ok(key) => Some(key),
        Err(_) => None,
    };
    conclude_derivation(derived)
}

/// The key that a client with the given public key and random seals its session ID with.
pub fn derive_auth_key(
    private_key: &[u8; 32],
    peer_public_key: &[u8; 32],
    random: &[u8; 32],
) -> (res: Result<[u8; 32], RealityServerError>)
    ensures
        key_outcome(res) == auth_key_for(private_key@, peer_public_key@, random@),
{
    let shared = match x25519_ecdh(private_key, peer_public_key) {
        Ok(secret) => Some(secret),
        Err(_) => None,
    };
    conclude_agreement(shared, random)
}

/// Authenticate a REALITY ClientHello.
///
/// 1. ECDH(server_private, client_x25519_share)
/// 2. HKDF-SHA256(salt=client_random[:20], info="REALITY") gives the auth_key
/// 3. AES-256-GCM open of the 32-byte session_id with nonce=client_random[20..32] and
///    AAD = raw handshake bytes with session_id zeroed
/// 4. bounds on client version, short ID and timestamp
pub fn authenticate_reality_client_hello<T: TimeProvider>(
    config: &RealityServerConfig<T>,
    client_hello: &ClientHello<'_>,
) -> (res: Result<RealityAuthResult, RealityServerError>)
    ensures
        may_come_to(*config, client_hello@, outcome(res)),
{
    let admission = match admit_client_hello(config, client_hello) {
        Ok(admission) => admission,
        Err(e) => return Err(e),
    };
    let auth_key = match derive_auth_key(
        config.private_key(),
        &admission.peer_public_key,
        client_hello.random,
    ) {
        Ok(key) => key,
        Err(e) => return Err(e),
    };
    let nonce = bytes_at::<12>(client_hello.random, SALT_LEN);
    proof {
        assert(nonce@ =~= client_hello.random@.skip(SALT_LEN as int));
    }
    let opened = match aes_256_gcm_decrypt(
        &auth_key,
        &nonce,
        &admission.aad,
        client_hello.session_id,
    ) {
        Ok(plaintext) => {
            let plaintext_bytes = bytes_at::<16>(&plaintext, 0);
            proof {
                assert(plaintext_bytes@ =~= plaintext@);
            }
            Some(plaintext_bytes)
        },
        Err(_) => None,
    };
    let auth = match check_session(config, auth_key, opened) {
        Ok(auth) => auth,
        Err(e) => return Err(e),
    };
    if config.max_time_diff().is_none() {
        return Ok(auth);
    }
    let now = config.current_time();
    let ghost seen = time_view(now);
    check_timestamp(config, auth, now)
}

} // verus!
