//! Calls that authenticate a ClientHello.
use vstd::prelude::*;

use crate::auth::{
    admit_client_hello, authenticate_reality_client_hello, conclude_agreement, conclude_derivation,
    derive_auth_key, Admission,
};
use crate::config::RealityServerConfig;
use crate::error::RealityServerError;
use crate::hello::ClientHello;
use crate::session::RealityAuthResult;
use crate::time::{TimeProvider, UnixTime};

#[allow(unused_imports)]
use super::config::lemma_listed_or_unlisted;
#[allow(unused_imports)]
use super::hello::{blanked, carries, first_key_at, lemma_aad, lemma_first_key, no_key};
#[allow(unused_imports)]
use super::session::{spells_out, version_fits};
#[allow(unused_imports)]
use super::{in_time, listed_or_unlisted, tells, within};
#[allow(unused_imports)]
use crate::auth::{judge_client, judge_hello, may_come_to, KEY_INFO};
#[allow(unused_imports)]
use crate::config::ConfigView;
#[allow(unused_imports)]
use crate::crypto::{aes_256_gcm_open, hkdf_sha256, x25519_shared_secret};
#[allow(unused_imports)]
use crate::error::ErrorView;
#[allow(unused_imports)]
use crate::session::{judge_session, judge_time, outcome, time_view, AuthView};

verus! {

/// The ClientHello names a server, and one that the configuration lets through.
pub open spec fn name_fits(config: ConfigView, hello: ClientHello<'_>) -> bool {
    hello.server_name matches Some(name) && listed_or_unlisted(config.server_names, name@)
}

/// Some key share holds an X25519 key.
pub open spec fn shares_a_key(hello: ClientHello<'_>) -> bool {
    hello.key_shares matches Some(shares) && !no_key(shares@)
}

/// The handshake message is there and carries the session ID.
pub open spec fn carries_its_session_id(hello: ClientHello<'_>) -> bool {
    hello.raw_handshake_message matches Some(raw) && carries(raw@, hello.session_id@)
}

/// The ClientHello has a session ID of 32 bytes, `peer` for its first X25519 key, and a message
/// that is `aad` once the session ID in it is blanked.
pub open spec fn offers(hello: ClientHello<'_>, peer: Seq<u8>, aad: Seq<u8>) -> bool {
    &&& hello.session_id@.len() == 32
    &&& hello.key_shares matches Some(shares) && exists|i: int| first_key_at(shares@, i, peer)
    &&& carries_its_session_id(hello)
    &&& blanked(hello.raw_handshake_message->Some_0@, 32, aad)
}

/// The ASCII codes of `REALITY`.
pub open spec fn info() -> Seq<u8> {
    seq![0x52u8, 0x45, 0x41, 0x4c, 0x49, 0x54, 0x59]
}

/// `key` is derived from the secret that the two keys agree on, salted with the first 20 bytes
/// of the client random.
pub open spec fn agrees_on(
    private_key: Seq<u8>,
    peer: Seq<u8>,
    random: Seq<u8>,
    key: Seq<u8>,
) -> bool {
    &&& x25519_shared_secret(private_key, peer) matches Some(secret)
    &&& hkdf_sha256(random.subrange(0, 20), secret, info()) == Some(key)
}

/// The session ID opens to `plaintext` under `key`, the key that the server and this client
/// agree on, with the last twelve bytes of the client random for the nonce and the blanked
/// message for additional data.
pub open spec fn opens_to(
    config: ConfigView,
    hello: ClientHello<'_>,
    key: Seq<u8>,
    plaintext: Seq<u8>,
) -> bool {
    exists|peer: Seq<u8>, aad: Seq<u8>| #[trigger]
        offers(hello, peer, aad) && agrees_on(config.private_key, peer, hello.random@, key)
            && aes_256_gcm_open(key, hello.random@.subrange(20, 32), aad, hello.session_id@)
            == Some(plaintext)
}

/// Server name, session ID, key share and encoding are checked in this order, each failure with
/// its own error. What is admitted is the first X25519 key and the message with the session ID
/// blanked.
pub proof fn law_hello_is_admitted_in_order<T: TimeProvider>(
    config: RealityServerConfig<T>,
    hello: ClientHello<'_>,
    res: Result<Admission, RealityServerError>,
)
    requires
        call_ensures(admit_client_hello::<T>, (&config, &hello), res),
    ensures
        !name_fits(config@, hello) ==> (res matches Err(e) && e is ServerNameRejected),
        name_fits(config@, hello) && hello.session_id@.len() != 32 ==> (res matches Err(e)
            && e is InvalidSessionId),
        name_fits(config@, hello) && hello.session_id@.len() == 32 && !shares_a_key(hello) ==> (
        res matches Err(e) && e is MissingX25519KeyShare),
        name_fits(config@, hello) && hello.session_id@.len() == 32 && shares_a_key(hello)
            && !carries_its_session_id(hello) ==> (res matches Err(e)
            && e is InvalidClientHelloEncoding),
        name_fits(config@, hello) && hello.session_id@.len() == 32 && shares_a_key(hello)
            && carries_its_session_id(hello) ==> (res matches Ok(admission) && offers(
            hello,
            admission.peer_public_key@,
            admission.aad@,
        )),
{
    lemma_judge_hello(config@, hello);
}

/// A derived key is handed on as it is; a failed derivation is reported as such.
pub proof fn law_derived_key_is_handed_on(
    derived: Option<[u8; 32]>,
    res: Result<[u8; 32], RealityServerError>,
)
    requires
        call_ensures(conclude_derivation, (derived,), res),
    ensures
        derived matches Some(key) ==> (res matches Ok(k) && k@ == key@),
        derived is None ==> {
            &&& res matches Err(RealityServerError::Crypto(text))
            &&& text@ == "HKDF expand failed"@
        },
{
}

/// From an agreed secret the key is derived with the first 20 bytes of the client random for the
/// salt and `REALITY` for the info; a failed agreement is reported as such.
pub proof fn law_agreed_secret_gives_the_key(
    shared: Option<Vec<u8>>,
    random: &[u8; 32],
    res: Result<[u8; 32], RealityServerError>,
)
    requires
        call_ensures(conclude_agreement, (shared, random), res),
    ensures
        shared is None ==> {
            &&& res matches Err(RealityServerError::Crypto(text))
            &&& text@ == "X25519 key agreement failed"@
        },
        shared matches Some(secret) ==> {
            let derived = hkdf_sha256(random@.subrange(0, 20), secret@, info());
            &&& derived is None ==> {
                &&& res matches Err(RealityServerError::Crypto(text))
                &&& text@ == "HKDF expand failed"@
            }
            &&& derived matches Some(key) ==> (res matches Ok(k) && k@ == key)
        },
{
    lemma_key_material(random@);
}

/// The key is the one that the two public values and the random agree on; there is none exactly
/// if the agreement or the derivation fails.
pub proof fn law_auth_key_is_the_agreed_one(
    private_key: &[u8; 32],
    peer: &[u8; 32],
    random: &[u8; 32],
    res: Result<[u8; 32], RealityServerError>,
)
    requires
        call_ensures(derive_auth_key, (private_key, peer, random), res),
    ensures
        res matches Ok(key) ==> agrees_on(private_key@, peer@, random@, key@),
        forall|key: Seq<u8>| #[trigger]
            agrees_on(private_key@, peer@, random@, key) ==> (res matches Ok(k) && k@ == key),
        res matches Err(e) ==> {
            &&& e matches RealityServerError::Crypto(text)
            &&& text@ == if x25519_shared_secret(private_key@, peer@) is None {
                "X25519 key agreement failed"@
            } else {
                "HKDF expand failed"@
            }
        },
{
    lemma_key_material(random@);
}

/// A ClientHello that is unfit for authentication is turned away before any key is looked at:
/// for its server name first, then for its session ID, its key shares and its encoding.
pub proof fn law_unfit_hello_is_turned_away_in_order<T: TimeProvider>(
    config: RealityServerConfig<T>,
    hello: ClientHello<'_>,
    res: Result<RealityAuthResult, RealityServerError>,
)
    requires
        call_ensures(authenticate_reality_client_hello::<T>, (&config, &hello), res),
    ensures
        !name_fits(config@, hello) ==> (res matches Err(e) && e is ServerNameRejected),
        name_fits(config@, hello) && hello.session_id@.len() != 32 ==> (res matches Err(e)
            && e is InvalidSessionId),
        name_fits(config@, hello) && hello.session_id@.len() == 32 && !shares_a_key(hello) ==> (
        res matches Err(e) && e is MissingX25519KeyShare),
        name_fits(config@, hello) && hello.session_id@.len() == 32 && shares_a_key(hello)
            && !carries_its_session_id(hello) ==> (res matches Err(e)
            && e is InvalidClientHelloEncoding),
{
    lemma_judge_hello(config@, hello);
}

/// A client that the server comes to no key with, or whose session ID does not open under that
/// key, is turned away for just that.
pub proof fn law_unsealed_hello_is_turned_away<T: TimeProvider>(
    config: RealityServerConfig<T>,
    hello: ClientHello<'_>,
    peer: Seq<u8>,
    aad: Seq<u8>,
    res: Result<RealityAuthResult, RealityServerError>,
)
    requires
        call_ensures(authenticate_reality_client_hello::<T>, (&config, &hello), res),
        name_fits(config@, hello),
        offers(hello, peer, aad),
    ensures
        x25519_shared_secret(config@.private_key, peer) is None ==> {
            &&& res matches Err(RealityServerError::Crypto(text))
            &&& text@ == "X25519 key agreement failed"@
        },
        x25519_shared_secret(config@.private_key, peer) matches Some(secret) ==> hkdf_sha256(
            hello.random@.subrange(0, 20),
            secret,
            info(),
        ) is None ==> {
            &&& res matches Err(RealityServerError::Crypto(text))
            &&& text@ == "HKDF expand failed"@
        },
        forall|key: Seq<u8>| #[trigger]
            agrees_on(config@.private_key, peer, hello.random@, key) && aes_256_gcm_open(
                key,
                hello.random@.subrange(20, 32),
                aad,
                hello.session_id@,
            ) is None ==> (res matches Err(e) && e is AuthDecryptFailed),
{
    lemma_judge_hello(config@, hello);
    lemma_key_material(hello.random@);
}

/// A client whose session ID opens is judged by what it opens to: the version against each
/// configured bound, then the short ID, then the time.
///
/// Without a bound on clock skew no clock is asked. With one, the decision is the one for a time
/// that the clock may tell.
pub proof fn law_opened_hello_is_judged_by_its_plaintext<T: TimeProvider>(
    config: RealityServerConfig<T>,
    hello: ClientHello<'_>,
    key: Seq<u8>,
    plaintext: Seq<u8>,
    res: Result<RealityAuthResult, RealityServerError>,
)
    requires
        call_ensures(authenticate_reality_client_hello::<T>, (&config, &hello), res),
        name_fits(config@, hello),
        opens_to(config@, hello, key, plaintext),
    ensures
        ({
            let version = plaintext.subrange(0, 3);
            let short_id = plaintext.subrange(8, 16);
            &&& !version_fits(config@, version) ==> (res matches Err(e)
                && e is ClientVersionRejected)
            &&& version_fits(config@, version) && !listed_or_unlisted(config@.short_ids, short_id)
                ==> (res matches Err(e) && e is ShortIdRejected)
            &&& version_fits(config@, version) && listed_or_unlisted(config@.short_ids, short_id)
                ==> {
                &&& config@.max_time_diff is None ==> res is Ok
                &&& config@.max_time_diff matches Some(max) ==> exists|now: Option<UnixTime>|
                    #[trigger]
                    tells(config, now) && clock_decides(now, plaintext, max, res)
            }
        }),
        res matches Ok(auth) ==> spells_out(auth, key, plaintext),
{
    lemma_opens_to(config@, hello, key, plaintext);
    lemma_listed_or_unlisted(config@.short_ids);
    let judged = judge_session(config@, key, Some(plaintext));
    if judged is Ok && config@.max_time_diff is Some {
        let now = choose|now: Option<UnixTime>|
            #![trigger time_view(now)]
            call_ensures(T::current_time, (&config.provider(),), now) && outcome(res) == judge_time(
                config@,
                judged->Ok_0,
                time_view(now),
            );
        assert(tells(config, now));
        assert(clock_decides(now, plaintext, config@.max_time_diff->Some_0, res));
    }
}

/// What a clock that tells `now` makes of a client that meets every other bound.
pub open spec fn clock_decides(
    now: Option<UnixTime>,
    plaintext: Seq<u8>,
    max: nat,
    res: Result<RealityAuthResult, RealityServerError>,
) -> bool {
    let time = plaintext.subrange(4, 8);
    let client_time = time[0] * 16777216 + time[1] * 65536 + time[2] * 256 + time[3];
    match now {
        None => {
            &&& res matches Err(RealityServerError::Crypto(text))
            &&& text@ == "time provider failed"@
        },
        Some(now) => if within(now@, client_time as u32, max) {
            res is Ok
        } else {
            res matches Err(e) && e is TimestampRejected
        },
    }
}

/// Whoever is let in named a server that is let through, sealed its session ID to this server,
/// and met the bounds on version, short ID and clock skew; it is let in as what it sealed.
pub proof fn law_let_in_only_within_every_bound<T: TimeProvider>(
    config: RealityServerConfig<T>,
    hello: ClientHello<'_>,
    auth: RealityAuthResult,
)
    requires
        call_ensures(
            authenticate_reality_client_hello::<T>,
            (&config, &hello),
            Ok::<RealityAuthResult, RealityServerError>(auth),
        ),
    ensures
        name_fits(config@, hello),
        exists|plaintext: Seq<u8>| #[trigger]
            opens_to(config@, hello, auth.auth_key@, plaintext) && spells_out(
                auth,
                auth.auth_key@,
                plaintext,
            ),
        version_fits(config@, auth.client_version@),
        listed_or_unlisted(config@.short_ids, auth.short_id@),
        in_time(config, auth.client_time),
{
    lemma_let_in(config, hello, auth);
}

/// `judge_hello` in terms of what the ClientHello holds.
pub(crate) proof fn lemma_judge_hello(config: ConfigView, hello: ClientHello<'_>)
    ensures
        ({
            let judged = judge_hello(config, hello@);
            let fit = name_fits(config, hello) && hello.session_id@.len() == 32 && shares_a_key(
                hello,
            ) && carries_its_session_id(hello);
            &&& judged is Ok <==> fit
            &&& judged matches Ok(admission) ==> offers(
                hello,
                admission.peer_public_key,
                admission.aad,
            )
            &&& forall|peer: Seq<u8>, aad: Seq<u8>|
                judged is Ok && #[trigger] offers(hello, peer, aad) ==> judged->Ok_0.peer_public_key
                    == peer && judged->Ok_0.aad == aad
            &&& !name_fits(config, hello) ==> judged->Err_0 is ServerNameRejected
            &&& name_fits(config, hello) && hello.session_id@.len() != 32
                ==> judged->Err_0 is InvalidSessionId
            &&& name_fits(config, hello) && hello.session_id@.len() == 32 && !shares_a_key(hello)
                ==> judged->Err_0 is MissingX25519KeyShare
            &&& name_fits(config, hello) && hello.session_id@.len() == 32 && shares_a_key(hello)
                && !carries_its_session_id(hello) ==> judged->Err_0 is InvalidClientHelloEncoding
            &&& forall|peer: Seq<u8>, aad: Seq<u8>| #[trigger]
                offers(hello, peer, aad) ==> shares_a_key(hello)
        }),
{
    lemma_listed_or_unlisted(config.server_names);
    if hello.key_shares is Some {
        lemma_first_key(hello.key_shares->Some_0@);
    }
    if hello.raw_handshake_message is Some {
        lemma_aad(hello.raw_handshake_message->Some_0@, hello.session_id@);
    }
}

/// The parts of a client random, and the info string.
pub(crate) proof fn lemma_key_material(random: Seq<u8>)
    requires
        random.len() == 32,
    ensures
        random.take(20) == random.subrange(0, 20),
        random.skip(20) == random.subrange(20, 32),
        KEY_INFO@ == info(),
{
    assert(KEY_INFO@ =~= info());
}

/// What a session ID opens to decides on the client, up to its timestamp.
pub(crate) proof fn lemma_opens_to(
    config: ConfigView,
    hello: ClientHello<'_>,
    key: Seq<u8>,
    plaintext: Seq<u8>,
)
    requires
        name_fits(config, hello),
        opens_to(config, hello, key, plaintext),
    ensures
        judge_client(config, hello@) == judge_session(config, key, Some(plaintext)),
{
    lemma_judge_hello(config, hello);
    lemma_key_material(hello.random@);
}

/// What is true of a client that may be let in.
pub(crate) proof fn lemma_let_in<T: TimeProvider>(
    config: RealityServerConfig<T>,
    hello: ClientHello<'_>,
    auth: RealityAuthResult,
)
    requires
        may_come_to(config, hello@, Ok(auth@)),
    ensures
        name_fits(config@, hello),
        exists|plaintext: Seq<u8>| #[trigger]
            opens_to(config@, hello, auth.auth_key@, plaintext) && spells_out(
                auth,
                auth.auth_key@,
                plaintext,
            ),
        version_fits(config@, auth.client_version@),
        listed_or_unlisted(config@.short_ids, auth.short_id@),
        in_time(config, auth.client_time),
{
    lemma_judge_hello(config@, hello);
    lemma_key_material(hello.random@);
    lemma_listed_or_unlisted(config@.short_ids);
    let admission = judge_hello(config@, hello@)->Ok_0;
    let key = auth.auth_key@;
    let nonce = hello.random@.subrange(20, 32);
    assert(offers(hello, admission.peer_public_key, admission.aad));
    assert(judge_client(config@, hello@) == Ok::<AuthView, ErrorView>(auth@));
    assert(agrees_on(config@.private_key, admission.peer_public_key, hello.random@, key));
    let plaintext = aes_256_gcm_open(key, nonce, admission.aad, hello.session_id@)->Some_0;
    assert(opens_to(config@, hello, key, plaintext));
    assert(spells_out(auth, key, plaintext));
    if config@.max_time_diff is Some {
        let now = choose|now: Option<UnixTime>|
            #![trigger time_view(now)]
            call_ensures(T::current_time, (&config.provider(),), now) && Ok::<
                AuthView,
                ErrorView,
            >(auth@) == judge_time(config@, auth@, time_view(now));
        assert(tells(config, Some(now->Some_0)));
    }
}

} // verus!
