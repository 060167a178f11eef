//! Laws of the library: what holds of it as a whole.
use vstd::prelude::*;

#[allow(unused_imports)]
use crate::auth::{auth_key_for, judge_client, judge_hello, may_come_to, SALT_LEN, SESSION_ID_LEN};
#[allow(unused_imports)]
use crate::cert::{
    certificate, public_key_in, reality_certificate, CertifiedView, REALITY_CERT_TEMPLATE,
};
#[allow(unused_imports)]
use crate::config::{allows, padded, padded_set, ConfigView, RealityServerConfig, SHORT_ID_LEN};
#[allow(unused_imports)]
use crate::crypto::aes_256_gcm_open;
#[allow(unused_imports)]
use crate::error::ErrorView;
#[allow(unused_imports)]
use crate::hello::{
    aad_of, first_x25519, HelloView, KeyShareView, NamedGroup, SESSION_ID_LEN_OFFSET,
    SESSION_ID_OFFSET, X25519_KEY_LEN,
};
#[allow(unused_imports)]
use crate::resolver::may_answer;
#[allow(unused_imports)]
use crate::session::{
    be_number, judge_session, judge_time, read_plaintext, skew_secs, time_view, version_accepted,
    version_number, AuthView,
};
#[allow(unused_imports)]
use crate::time::{TimeProvider, UnixTime, NANOS_PER_SEC};

verus! {

/// An encoded ClientHello with `session_id` written where its session ID belongs.
pub open spec fn with_session_id(message: Seq<u8>, session_id: Seq<u8>) -> Seq<u8> {
    message.take(SESSION_ID_OFFSET as int) + session_id + message.skip(
        SESSION_ID_OFFSET + session_id.len(),
    )
}

/// An encoded ClientHello whose session ID has the given length and is still zero.
pub open spec fn unsealed_message(message: Seq<u8>, len: nat) -> bool {
    &&& message.len() >= SESSION_ID_OFFSET + len
    &&& message[SESSION_ID_LEN_OFFSET as int] == len
    &&& forall|i: int| SESSION_ID_OFFSET <= i < SESSION_ID_OFFSET + len ==> message[i] == 0
}

/// The four bytes of a number, most significant first.
pub open spec fn be_bytes(number: u32) -> Seq<u8> {
    seq![
        (number / 0x100_0000) as u8,
        (number / 0x1_0000 % 0x100) as u8,
        (number / 0x100 % 0x100) as u8,
        (number % 0x100) as u8,
    ]
}

/// The plaintext that a client seals: version, a reserved byte, time, short ID.
pub open spec fn session_plaintext(
    version: Seq<u8>,
    reserved: u8,
    time: u32,
    short_id: Seq<u8>,
) -> Seq<u8> {
    version + seq![reserved] + be_bytes(time) + short_id
}

/// The additional data is the message with the session ID zeroed and nothing else changed.
pub proof fn law_aad_zeroes_only_the_session_id(raw: Seq<u8>, session_id: Seq<u8>)
    requires
        aad_of(raw, session_id) is Some,
    ensures
        ({
            let aad = aad_of(raw, session_id)->Some_0;
            let end = SESSION_ID_OFFSET + session_id.len();
            &&& aad.len() == raw.len()
            &&& forall|i: int| SESSION_ID_OFFSET <= i < end ==> aad[i] == 0
            &&& forall|i: int|
                0 <= i < SESSION_ID_OFFSET || end <= i < raw.len() ==> aad[i] == raw[i]
        }),
{
}

/// A client seals its session ID over the message with the session ID still zero. Whatever
/// session ID it then writes into the message, the server finds that same message again.
pub proof fn law_aad_is_the_unsealed_message(message: Seq<u8>, session_id: Seq<u8>)
    requires
        unsealed_message(message, session_id.len()),
    ensures
        aad_of(with_session_id(message, session_id), session_id) == Some(message),
{
    let raw = with_session_id(message, session_id);
    assert(raw.subrange(SESSION_ID_OFFSET as int, SESSION_ID_OFFSET + session_id.len())
        =~= session_id);
    assert(aad_of(raw, session_id)->Some_0 =~= message);
}

/// Client versions are ordered by their first byte, then the second, then the third; versions
/// with the same number are the same.
pub proof fn law_versions_are_ordered_bytewise(a: Seq<u8>, b: Seq<u8>)
    requires
        a.len() == 3,
        b.len() == 3,
    ensures
        version_number(a) < version_number(b) <==> {
            ||| a[0] < b[0]
            ||| a[0] == b[0] && a[1] < b[1]
            ||| a[0] == b[0] && a[1] == b[1] && a[2] < b[2]
        },
        version_number(a) == version_number(b) <==> a == b,
{
    if version_number(a) == version_number(b) {
        assert(a =~= b);
    }
}

/// The server reads out of a plaintext what the client put into it; the reserved byte is not
/// looked at.
pub proof fn law_plaintext_is_read_back(
    auth_key: Seq<u8>,
    version: Seq<u8>,
    reserved: u8,
    time: u32,
    short_id: Seq<u8>,
)
    requires
        version.len() == 3,
        short_id.len() == SHORT_ID_LEN,
    ensures
        read_plaintext(auth_key, session_plaintext(version, reserved, time, short_id)) == (AuthView {
            auth_key,
            client_version: version,
            short_id,
            client_time: time,
        }),
{
    let plaintext = session_plaintext(version, reserved, time, short_id);
    assert(plaintext.subrange(0, 3) =~= version);
    assert(plaintext.subrange(4, 8) =~= be_bytes(time));
    assert(plaintext.subrange(8, 16) =~= short_id);
    assert(be_number(be_bytes(time)) == time);
}

/// A client that holds up its end is let in, and what it sealed comes back.
///
/// Its end is: an allowed server name, an X25519 key share, and a session ID that opens, under
/// the key both sides agree on and over the message as it was before the session ID was
/// written, to a version and a short ID within the server's bounds. Only the timestamp is
/// left to judge.
pub proof fn law_sealed_client_is_let_in(
    config: ConfigView,
    hello: HelloView,
    auth_key: Seq<u8>,
    message: Seq<u8>,
    version: Seq<u8>,
    reserved: u8,
    time: u32,
    short_id: Seq<u8>,
)
    requires
        hello.server_name matches Some(name) && allows(config.server_names, name),
        hello.session_id.len() == SESSION_ID_LEN,
        unsealed_message(message, SESSION_ID_LEN as nat),
        hello.raw_handshake_message == Some(with_session_id(message, hello.session_id)),
        hello.x25519_public_key() matches Some(peer) && auth_key_for(
            config.private_key,
            peer,
            hello.random,
        ) == Ok::<Seq<u8>, ErrorView>(auth_key),
        version.len() == 3,
        short_id.len() == SHORT_ID_LEN,
        aes_256_gcm_open(auth_key, hello.random.skip(SALT_LEN as int), message, hello.session_id)
            == Some(session_plaintext(version, reserved, time, short_id)),
        version_accepted(config, version),
        allows(config.short_ids, short_id),
    ensures
        judge_client(config, hello) == Ok::<AuthView, ErrorView>(
            AuthView { auth_key, client_version: version, short_id, client_time: time },
        ),
{
    law_aad_is_the_unsealed_message(message, hello.session_id);
    law_plaintext_is_read_back(auth_key, version, reserved, time, short_id);
}

/// Whoever is let in has met every bound of the configuration.
pub proof fn law_accepted_client_met_every_bound<T: TimeProvider>(
    config: RealityServerConfig<T>,
    hello: HelloView,
    auth: AuthView,
)
    requires
        may_come_to(config, hello, Ok(auth)),
    ensures
        hello.server_name matches Some(name) && allows(config@.server_names, name),
        hello.session_id.len() == SESSION_ID_LEN,
        hello.x25519_public_key() matches Some(peer) && auth_key_for(
            config@.private_key,
            peer,
            hello.random,
        ) == Ok::<Seq<u8>, ErrorView>(auth.auth_key),
        ({
            &&& hello.raw_handshake_message matches Some(raw)
            &&& aad_of(raw, hello.session_id) matches Some(aad)
            &&& aes_256_gcm_open(
                auth.auth_key,
                hello.random.skip(SALT_LEN as int),
                aad,
                hello.session_id,
            ) matches Some(plaintext)
            &&& auth == read_plaintext(auth.auth_key, plaintext)
        }),
        version_accepted(config@, auth.client_version),
        allows(config@.short_ids, auth.short_id),
        config@.max_time_diff matches Some(max) ==> exists|now: Option<UnixTime>|
            #![trigger time_view(now)]
            {
                &&& call_ensures(T::current_time, (&config.provider(),), now)
                &&& time_view(now) matches Some(secs)
                &&& skew_secs(secs, auth.client_time) * NANOS_PER_SEC <= max
            },
{
    if config@.max_time_diff is Some {
        let client = judge_client(config@, hello)->Ok_0;
        let now = choose|now: Option<UnixTime>|
            #![trigger time_view(now)]
            call_ensures(T::current_time, (&config.provider(),), now) && Ok::<AuthView, ErrorView>(
                auth,
            ) == judge_time(config@, client, time_view(now));
        assert(time_view(now) is Some);
    }
}

/// A session ID that does not open is turned away as such, whatever the clock says.
pub proof fn law_unsealed_client_is_turned_away<T: TimeProvider>(
    config: RealityServerConfig<T>,
    hello: HelloView,
    auth_key: Seq<u8>,
    decision: Result<AuthView, ErrorView>,
)
    requires
        may_come_to(config, hello, decision),
        ({
            &&& judge_hello(config@, hello) matches Ok(admission)
            &&& auth_key_for(config@.private_key, admission.peer_public_key, hello.random) == Ok::<
                Seq<u8>,
                ErrorView,
            >(auth_key)
            &&& aes_256_gcm_open(
                auth_key,
                hello.random.skip(SALT_LEN as int),
                admission.aad,
                hello.session_id,
            ) is None
        }),
    ensures
        decision == Err::<AuthView, ErrorView>(ErrorView::AuthDecryptFailed),
{
}

/// A client that fails a bound other than the clock's gets no certificate.
pub proof fn law_refused_client_gets_no_certificate<T: TimeProvider>(
    config: RealityServerConfig<T>,
    hello: HelloView,
    answer: Option<(CertifiedView, AuthView)>,
)
    requires
        judge_client(config@, hello) is Err,
        may_answer(config, hello, answer),
    ensures
        answer is None,
{
}

/// A certificate is given only to a client that was let in, for the key of its session.
pub proof fn law_certificate_is_for_an_accepted_session<T: TimeProvider>(
    config: RealityServerConfig<T>,
    hello: HelloView,
    certified: CertifiedView,
    auth: AuthView,
)
    requires
        may_answer(config, hello, Some((certified, auth))),
    ensures
        judge_client(config@, hello) == Ok::<AuthView, ErrorView>(auth),
        certified.cert == seq![reality_certificate(auth.auth_key, certified.public_key)],
{
}

/// Without a bound on clock skew the clock plays no part: a ClientHello can come to one
/// decision only.
pub proof fn law_decision_is_unique_without_skew_bound<T: TimeProvider, U: TimeProvider>(
    config: RealityServerConfig<T>,
    other: RealityServerConfig<U>,
    hello: HelloView,
    first: Result<AuthView, ErrorView>,
    second: Result<AuthView, ErrorView>,
)
    requires
        config@ == other@,
        config@.max_time_diff is None,
        may_come_to(config, hello, first),
        may_come_to(other, hello, second),
    ensures
        first == second,
{
}

/// The clock can turn a client away; it never changes what a client is let in as, and it
/// never lets in a client that fails another bound.
pub proof fn law_clock_only_turns_away<T: TimeProvider>(
    config: RealityServerConfig<T>,
    hello: HelloView,
    decision: Result<AuthView, ErrorView>,
)
    requires
        may_come_to(config, hello, decision),
    ensures
        decision == judge_client(config@, hello) || (judge_client(config@, hello) is Ok
            && config@.max_time_diff is Some && (decision == Err::<AuthView, ErrorView>(
            ErrorView::TimestampRejected,
        ) || decision == Err::<AuthView, ErrorView>(ErrorView::Crypto("time provider failed"@)))),
{
}

/// By the wall clock a client can be turned away for its timestamp, but never for want of a
/// time.
pub proof fn law_wall_clock_always_tells_a_time(
    config: RealityServerConfig,
    hello: HelloView,
    decision: Result<AuthView, ErrorView>,
)
    requires
        may_come_to(config, hello, decision),
    ensures
        decision == judge_client(config@, hello) || decision == Err::<AuthView, ErrorView>(
            ErrorView::TimestampRejected,
        ),
{
}

/// A ClientHello without a server name is turned away, also where every name is allowed.
pub proof fn law_missing_server_name_is_rejected(config: ConfigView, hello: HelloView)
    requires
        hello.server_name is None,
    ensures
        judge_client(config, hello) == Err::<AuthView, ErrorView>(ErrorView::ServerNameRejected),
{
}

/// A hybrid share counts for the X25519 key that it ends in.
pub proof fn law_hybrid_share_counts_for_its_x25519_key(
    config: ConfigView,
    hello: HelloView,
    prefix: Seq<u8>,
    key: Seq<u8>,
)
    requires
        key.len() == X25519_KEY_LEN,
    ensures
        ({
            let plain = KeyShareView { group: NamedGroup::X25519, payload: key };
            let hybrid = KeyShareView { group: NamedGroup::X25519MLKEM768, payload: prefix + key };
            judge_client(config, HelloView { key_shares: Some(seq![hybrid]), ..hello })
                == judge_client(config, HelloView { key_shares: Some(seq![plain]), ..hello })
        }),
{
    let plain = KeyShareView { group: NamedGroup::X25519, payload: key };
    let hybrid = KeyShareView { group: NamedGroup::X25519MLKEM768, payload: prefix + key };
    assert((prefix + key).skip(prefix.len() as int) =~= key);
    assert(first_x25519(seq![plain]) == Some(key));
    assert(first_x25519(seq![hybrid]) == Some(key));
}

/// A configuration without bounds lets in every client whose session ID opens.
pub proof fn law_unbounded_config_accepts_every_sealed_client(
    config: ConfigView,
    auth_key: Seq<u8>,
    plaintext: Seq<u8>,
    now: Option<u64>,
)
    requires
        config.short_ids.is_empty(),
        config.min_client_ver is None,
        config.max_client_ver is None,
        config.max_time_diff is None,
    ensures
        judge_session(config, auth_key, Some(plaintext)) == Ok::<AuthView, ErrorView>(
            read_plaintext(auth_key, plaintext),
        ),
        judge_time(config, read_plaintext(auth_key, plaintext), now) == Ok::<AuthView, ErrorView>(
            read_plaintext(auth_key, plaintext),
        ),
{
}

/// Zeros at the end of a short ID do not matter.
pub proof fn law_short_id_padding_is_zeros(id: Seq<u8>, zeros: nat)
    requires
        id.len() + zeros <= SHORT_ID_LEN,
    ensures
        padded(id + Seq::new(zeros, |i: int| 0u8)) == padded(id),
        id.len() == SHORT_ID_LEN ==> padded(id) == id,
{
    assert(padded(id + Seq::new(zeros, |i: int| 0u8)) =~= padded(id));
    if id.len() == SHORT_ID_LEN {
        assert(padded(id) =~= id);
    }
}

/// Listing one more short ID is the same as adding it, so neither order nor repetition
/// matters.
pub proof fn law_listing_is_adding(ids: Seq<Seq<u8>>, id: Seq<u8>, other: Seq<u8>)
    ensures
        padded_set(Seq::empty()) == Set::<Seq<u8>>::empty(),
        padded_set(ids.push(id)) == padded_set(ids).insert(padded(id)),
        padded_set(ids.push(id).push(other)) == padded_set(ids.push(other).push(id)),
        padded_set(ids.push(id).push(id)) == padded_set(ids.push(id)),
{
    let f = |id: Seq<u8>| padded(id);
    assert forall|list: Seq<Seq<u8>>, one: Seq<u8>| #[trigger]
        padded_set(list.push(one)) == padded_set(list).insert(padded(one)) by {
        assert(list.push(one).map_values(f) =~= list.map_values(f).push(padded(one)));
        crate::config::lemma_push_new(list.map_values(f), padded(one));
    }
    assert(padded_set(Seq::empty()) =~= Set::<Seq<u8>>::empty());
    assert(padded_set(ids).insert(padded(id)).insert(padded(other)) =~= padded_set(ids).insert(
        padded(other),
    ).insert(padded(id)));
    assert(padded_set(ids).insert(padded(id)).insert(padded(id)) =~= padded_set(ids).insert(
        padded(id),
    ));
}

/// A client whose clock agrees with the server's to the second is never turned away for its
/// timestamp.
pub proof fn law_exact_clock_is_accepted(config: ConfigView, auth: AuthView, now: u64)
    requires
        now % 0x1_0000_0000 == auth.client_time,
    ensures
        judge_time(config, auth, Some(now)) == Ok::<AuthView, ErrorView>(auth),
{
}

/// A wider bound on clock skew turns nobody away whom a narrower one lets in.
pub proof fn law_wider_skew_bound_accepts_more(
    narrow: ConfigView,
    wide: ConfigView,
    auth: AuthView,
    now: Option<u64>,
)
    requires
        wide.max_time_diff is None || (narrow.max_time_diff is Some
            && narrow.max_time_diff->Some_0 <= wide.max_time_diff->Some_0),
        judge_time(narrow, auth, now) is Ok,
    ensures
        judge_time(wide, auth, now) == Ok::<AuthView, ErrorView>(auth),
{
}

/// Whether `loose` lets through whatever `strict` does, under the same key.
pub open spec fn loosens(strict: ConfigView, loose: ConfigView) -> bool {
    &&& loose.private_key == strict.private_key
    &&& forall|name: Seq<char>| #[trigger]
        allows(strict.server_names, name) ==> allows(loose.server_names, name)
    &&& forall|id: Seq<u8>| #[trigger]
        allows(strict.short_ids, id) ==> allows(loose.short_ids, id)
    &&& forall|version: Seq<u8>| #[trigger]
        version_accepted(strict, version) ==> version_accepted(loose, version)
    &&& loose.max_time_diff matches Some(max) ==> {
        &&& strict.max_time_diff matches Some(strict_max)
        &&& strict_max <= max
    }
}

/// Lifting any one restriction loosens a configuration.
pub proof fn law_lifting_a_restriction_loosens(config: ConfigView)
    ensures
        loosens(config, ConfigView { server_names: Set::empty(), ..config }),
        loosens(config, ConfigView { short_ids: Set::empty(), ..config }),
        loosens(config, ConfigView { min_client_ver: None, ..config }),
        loosens(config, ConfigView { max_client_ver: None, ..config }),
        loosens(config, ConfigView { max_time_diff: None, ..config }),
{
}

/// Loosening never turns an acceptance into a rejection, and never changes what a client is
/// let in as; `now` is the one reading of the clock that both decisions are made by.
pub proof fn law_loosening_keeps_acceptance(
    strict: ConfigView,
    loose: ConfigView,
    hello: HelloView,
    now: Option<u64>,
)
    requires
        loosens(strict, loose),
        judge_client(strict, hello) is Ok,
    ensures
        judge_client(loose, hello) == judge_client(strict, hello),
        judge_time(strict, judge_client(strict, hello)->Ok_0, now) is Ok ==> judge_time(
            loose,
            judge_client(loose, hello)->Ok_0,
            now,
        ) == judge_time(strict, judge_client(strict, hello)->Ok_0, now),
{
}

/// The certificate differs from the template in the public key and the signature field only.
pub proof fn law_certificate_keeps_the_template(public_key: Seq<u8>, signature: Seq<u8>)
    requires
        public_key.len() == 32,
        signature.len() == 64,
    ensures
        certificate(public_key, signature).len() == REALITY_CERT_TEMPLATE@.len(),
        forall|i: int|
            0 <= i < 70 || 102 <= i < 111 ==> certificate(public_key, signature)[i]
                == REALITY_CERT_TEMPLATE@[i],
        public_key_in(certificate(public_key, signature)) == public_key,
        certificate(public_key, signature).skip(111) == signature,
{
    crate::cert::lemma_certificate_fields(public_key, signature);
}

} // verus!
