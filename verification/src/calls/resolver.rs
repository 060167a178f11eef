//! Calls on a resolver.
use std::sync::Arc;

use vstd::prelude::*;

use crate::cert::CertifiedKey;
use crate::config::RealityServerConfig;
use crate::error::RealityServerError;
use crate::hello::ClientHello;
use crate::resolver::{settle, RealityServerCertResolver};
use crate::session::RealityAuthResult;
use crate::time::{TimeProvider, UnixTime};

#[allow(unused_imports)]
use super::auth::{lemma_judge_hello, lemma_let_in, lemma_opens_to, name_fits, opens_to};
#[allow(unused_imports)]
use super::cert::{certified_for, lemma_certified_for, lemma_no_generated_key, minting_fails};
#[allow(unused_imports)]
use super::config::lemma_listed_or_unlisted;
#[allow(unused_imports)]
use super::session::{same_auth, spells_out, version_fits};
#[allow(unused_imports)]
use super::{in_time, listed_or_unlisted, tells, within};
#[allow(unused_imports)]
use crate::auth::may_come_to;
#[allow(unused_imports)]
use crate::cert::{genuine, judge_generated, judge_mint, CertifiedView};
#[allow(unused_imports)]
use crate::crypto::came_from_generator;
#[allow(unused_imports)]
use crate::error::ErrorView;
#[allow(unused_imports)]
use crate::resolver::may_answer;
#[allow(unused_imports)]
use crate::session::{judge_session, judge_time, time_view, AuthView};

verus! {

/// The client named a server that is let through, sealed `auth` to the server's key, and met the
/// bounds on version, short ID and clock skew.
pub open spec fn met_every_bound<T: TimeProvider>(
    config: RealityServerConfig<T>,
    hello: ClientHello<'_>,
    auth: RealityAuthResult,
) -> bool {
    &&& name_fits(config@, hello)
    &&& exists|plaintext: Seq<u8>| #[trigger]
        opens_to(config@, hello, auth.auth_key@, plaintext) && spells_out(
            auth,
            auth.auth_key@,
            plaintext,
        )
    &&& version_fits(config@, auth.client_version@)
    &&& listed_or_unlisted(config@.short_ids, auth.short_id@)
    &&& in_time(config, auth.client_time)
}

/// A plaintext that meets the bounds on version and short ID.
pub open spec fn plaintext_fits<T: TimeProvider>(
    config: RealityServerConfig<T>,
    plaintext: Seq<u8>,
) -> bool {
    &&& version_fits(config@, plaintext.subrange(0, 3))
    &&& listed_or_unlisted(config@.short_ids, plaintext.subrange(8, 16))
}

/// `client_time` stands in a plaintext.
pub open spec fn holds_time(plaintext: Seq<u8>, client_time: u32) -> bool {
    let time = plaintext.subrange(4, 8);
    client_time == time[0] * 16777216 + time[1] * 65536 + time[2] * 256 + time[3]
}

/// No time that the clock may tell is within the bound on clock skew.
pub open spec fn never_in_time<T: TimeProvider>(
    config: RealityServerConfig<T>,
    client_time: u32,
) -> bool {
    &&& config@.max_time_diff matches Some(max)
    &&& forall|now: UnixTime| #[trigger]
        tells(config, Some(now)) ==> !within(now@, client_time, max)
}

/// There is no bound on clock skew, or whatever the clock tells is a time within it.
pub open spec fn always_in_time<T: TimeProvider>(
    config: RealityServerConfig<T>,
    client_time: u32,
) -> bool {
    config@.max_time_diff matches Some(max) ==> forall|now: Option<UnixTime>| #[trigger]
        tells(config, now) ==> (now matches Some(time) && within(time@, client_time, max))
}

/// A new resolver goes by the configuration it was given and has authenticated nobody.
pub proof fn law_new_resolver_has_its_config<T: TimeProvider>(
    config: RealityServerConfig<T>,
    resolver: RealityServerCertResolver<T>,
    told: Option<RealityAuthResult>,
)
    requires
        call_ensures(RealityServerCertResolver::<T>::new, (config,), resolver),
        call_ensures(RealityServerCertResolver::<T>::last_auth, (&resolver,), told),
    ensures
        resolver.config() == config,
        told is None,
{
}

/// What was recorded is what is told from then on; the configuration stays.
pub proof fn law_recorded_auth_is_told<T: TimeProvider>(
    resolver: &mut RealityServerCertResolver<T>,
    auth: RealityAuthResult,
    told: Option<RealityAuthResult>,
)
    requires
        call_ensures(RealityServerCertResolver::<T>::record, (resolver, auth), ()),
    ensures
        final(resolver).config() == old(resolver).config(),
        call_ensures(RealityServerCertResolver::<T>::last_auth, (&*final(resolver),), told) ==> (
        told matches Some(a) && same_auth(a, auth)),
{
}

/// An authenticated client is answered with what was minted for it, or not at all.
pub proof fn law_settling_hands_on_what_was_minted(
    auth: RealityAuthResult,
    minting: Result<Arc<CertifiedKey>, RealityServerError>,
    answer: Option<(Arc<CertifiedKey>, RealityAuthResult)>,
)
    requires
        call_ensures(settle, (auth, minting), answer),
    ensures
        minting is Ok <==> answer is Some,
        answer matches Some(pair) ==> minting == Ok::<Arc<CertifiedKey>, RealityServerError>(pair.0)
            && same_auth(pair.1, auth),
{
}

/// A certificate is given only to a client that met every bound, that on clock skew among them,
/// and it is one that this client takes for genuine.
pub proof fn law_certificate_only_within_every_bound<T: TimeProvider>(
    resolver: RealityServerCertResolver<T>,
    hello: ClientHello<'_>,
    answer: Option<(Arc<CertifiedKey>, RealityAuthResult)>,
)
    requires
        call_ensures(RealityServerCertResolver::<T>::certify, (&resolver, hello), answer),
    ensures
        answer matches Some((certified, auth)) ==> met_every_bound(resolver.config(), hello, auth)
            && certified_for(auth.auth_key@, *certified),
{
    if answer is Some {
        let certified = *answer->Some_0.0;
        let auth = answer->Some_0.1;
        lemma_answered(resolver.config(), hello, certified, auth);
    }
}

/// A client whose time is out of the bound on clock skew by every time that the clock may tell
/// gets no certificate.
pub proof fn law_no_certificate_out_of_time<T: TimeProvider>(
    resolver: RealityServerCertResolver<T>,
    hello: ClientHello<'_>,
    key: Seq<u8>,
    plaintext: Seq<u8>,
    client_time: u32,
    answer: Option<(Arc<CertifiedKey>, RealityAuthResult)>,
)
    requires
        call_ensures(RealityServerCertResolver::<T>::certify, (&resolver, hello), answer),
        opens_to(resolver.config()@, hello, key, plaintext),
        holds_time(plaintext, client_time),
        never_in_time(resolver.config(), client_time),
    ensures
        answer is None,
{
    lemma_never_let_in(resolver.config(), hello, key, plaintext, client_time);
}

/// A client that meets every bound, whatever the clock tells, is answered, as what it sealed;
/// only a failure of the key generator keeps its certificate from it.
pub proof fn law_client_within_every_bound_is_answered<T: TimeProvider>(
    resolver: RealityServerCertResolver<T>,
    hello: ClientHello<'_>,
    key: Seq<u8>,
    plaintext: Seq<u8>,
    client_time: u32,
    answer: Option<(Arc<CertifiedKey>, RealityAuthResult)>,
)
    requires
        call_ensures(RealityServerCertResolver::<T>::certify, (&resolver, hello), answer),
        name_fits(resolver.config()@, hello),
        opens_to(resolver.config()@, hello, key, plaintext),
        plaintext_fits(resolver.config(), plaintext),
        holds_time(plaintext, client_time),
        always_in_time(resolver.config(), client_time),
    ensures
        answer is None ==> exists|text: Seq<char>| minting_fails(text),
        answer matches Some((certified, auth)) ==> spells_out(auth, key, plaintext),
{
    lemma_opens_to(resolver.config()@, hello, key, plaintext);
    if answer is None {
        lemma_unanswered(resolver.config(), hello, key, plaintext, client_time);
    }
}

/// Whoever is answered met every bound, and is the client that is told of from then on; the
/// certificate is one that this client takes for genuine. The configuration stays.
pub proof fn law_resolved_client_met_every_bound<T: TimeProvider>(
    resolver: &mut RealityServerCertResolver<T>,
    hello: ClientHello<'_>,
    certified: Arc<CertifiedKey>,
    told: Option<RealityAuthResult>,
)
    requires
        call_ensures(
            RealityServerCertResolver::<T>::resolve,
            (resolver, hello),
            Some::<Arc<CertifiedKey>>(certified),
        ),
    ensures
        final(resolver).config() == old(resolver).config(),
        call_ensures(RealityServerCertResolver::<T>::last_auth, (&*final(resolver),), told) ==> {
            &&& told matches Some(auth)
            &&& met_every_bound(old(resolver).config(), hello, auth)
            &&& certified_for(auth.auth_key@, *certified)
        },
{
    if call_ensures(RealityServerCertResolver::<T>::last_auth, (&*final(resolver),), told) {
        let key = *certified;
        lemma_answered(old(resolver).config(), hello, key, told->Some_0);
    }
}

/// A client that is not answered leaves the configuration, and what is told, as they were.
pub proof fn law_unresolved_client_changes_nothing<T: TimeProvider>(
    resolver: &mut RealityServerCertResolver<T>,
    hello: ClientHello<'_>,
    before: Option<RealityAuthResult>,
    told: Option<RealityAuthResult>,
)
    requires
        call_ensures(
            RealityServerCertResolver::<T>::resolve,
            (resolver, hello),
            None::<Arc<CertifiedKey>>,
        ),
        call_ensures(RealityServerCertResolver::<T>::last_auth, (&*old(resolver),), before),
    ensures
        final(resolver).config() == old(resolver).config(),
        call_ensures(RealityServerCertResolver::<T>::last_auth, (&*final(resolver),), told) ==> {
            &&& told is None <==> before is None
            &&& told matches Some(a) ==> same_auth(a, before->Some_0)
        },
{
}

/// A client whose time is out of the bound on clock skew by every time that the clock may tell
/// is not answered.
pub proof fn law_not_resolved_out_of_time<T: TimeProvider>(
    resolver: &mut RealityServerCertResolver<T>,
    hello: ClientHello<'_>,
    key: Seq<u8>,
    plaintext: Seq<u8>,
    client_time: u32,
    res: Option<Arc<CertifiedKey>>,
)
    requires
        call_ensures(RealityServerCertResolver::<T>::resolve, (resolver, hello), res),
        opens_to(old(resolver).config()@, hello, key, plaintext),
        holds_time(plaintext, client_time),
        never_in_time(old(resolver).config(), client_time),
    ensures
        res is None,
{
    lemma_never_let_in(old(resolver).config(), hello, key, plaintext, client_time);
}

/// A client that meets every bound, whatever the clock tells, is answered, and told of as what
/// it sealed; only a failure of the key generator keeps its certificate from it.
pub proof fn law_client_within_every_bound_is_resolved<T: TimeProvider>(
    resolver: &mut RealityServerCertResolver<T>,
    hello: ClientHello<'_>,
    key: Seq<u8>,
    plaintext: Seq<u8>,
    client_time: u32,
    res: Option<Arc<CertifiedKey>>,
    told: Option<RealityAuthResult>,
)
    requires
        call_ensures(RealityServerCertResolver::<T>::resolve, (resolver, hello), res),
        name_fits(old(resolver).config()@, hello),
        opens_to(old(resolver).config()@, hello, key, plaintext),
        plaintext_fits(old(resolver).config(), plaintext),
        holds_time(plaintext, client_time),
        always_in_time(old(resolver).config(), client_time),
    ensures
        res is None ==> exists|text: Seq<char>| minting_fails(text),
        res is Some && call_ensures(
            RealityServerCertResolver::<T>::last_auth,
            (&*final(resolver),),
            told,
        ) ==> (told matches Some(auth) && spells_out(auth, key, plaintext)),
{
    lemma_opens_to(old(resolver).config()@, hello, key, plaintext);
    if res is None {
        lemma_unanswered(old(resolver).config(), hello, key, plaintext, client_time);
    }
}

/// What is true of a client that may be answered with a certificate.
proof fn lemma_answered<T: TimeProvider>(
    config: RealityServerConfig<T>,
    hello: ClientHello<'_>,
    certified: CertifiedKey,
    auth: RealityAuthResult,
)
    requires
        may_answer(config, hello@, Some((certified@, auth@))),
        genuine(auth.auth_key@, certified@),
    ensures
        met_every_bound(config, hello, auth),
        certified_for(auth.auth_key@, certified),
{
    lemma_let_in(config, hello, auth);
    let generated = choose|generated: Option<Seq<u8>>| #[trigger]
        came_from_generator(generated) && judge_mint(auth@.auth_key, generated) == Ok::<
            CertifiedView,
            ErrorView,
        >(certified@);
    lemma_certified_for(auth.auth_key@, certified, generated);
}

/// A client whose time is always out of the bound is never let in.
proof fn lemma_never_let_in<T: TimeProvider>(
    config: RealityServerConfig<T>,
    hello: ClientHello<'_>,
    key: Seq<u8>,
    plaintext: Seq<u8>,
    client_time: u32,
)
    requires
        opens_to(config@, hello, key, plaintext),
        holds_time(plaintext, client_time),
        never_in_time(config, client_time),
    ensures
        forall|auth: AuthView| !may_come_to(config, hello@, Ok(auth)),
{
    lemma_judge_hello(config@, hello);
    if name_fits(config@, hello) {
        lemma_opens_to(config@, hello, key, plaintext);
    }
    assert forall|auth: AuthView| !may_come_to(config, hello@, Ok(auth)) by {
        if may_come_to(config, hello@, Ok(auth)) {
            let judged = judge_session(config@, key, Some(plaintext))->Ok_0;
            let now = choose|now: Option<UnixTime>|
                #![trigger time_view(now)]
                call_ensures(T::current_time, (&config.provider(),), now) && Ok::<
                    AuthView,
                    ErrorView,
                >(auth) == judge_time(config@, judged, time_view(now));
            assert(tells(config, Some(now->Some_0)));
        }
    }
}

/// Why a client that meets every bound may go without an answer.
proof fn lemma_unanswered<T: TimeProvider>(
    config: RealityServerConfig<T>,
    hello: ClientHello<'_>,
    key: Seq<u8>,
    plaintext: Seq<u8>,
    client_time: u32,
)
    requires
        may_answer(config, hello@, None),
        name_fits(config@, hello),
        opens_to(config@, hello, key, plaintext),
        plaintext_fits(config, plaintext),
        holds_time(plaintext, client_time),
        always_in_time(config, client_time),
    ensures
        exists|text: Seq<char>| minting_fails(text),
{
    lemma_opens_to(config@, hello, key, plaintext);
    lemma_listed_or_unlisted(config@.short_ids);
    let judged = judge_session(config@, key, Some(plaintext));
    assert(judged is Ok);
    let auth = judged->Ok_0;
    assert(auth.client_time == client_time);
    assert forall|e: ErrorView| !may_come_to(config, hello@, Err(e)) by {
        if may_come_to(config, hello@, Err(e)) {
            let now = choose|now: Option<UnixTime>|
                #![trigger time_view(now)]
                call_ensures(T::current_time, (&config.provider(),), now) && Err::<
                    AuthView,
                    ErrorView,
                >(e) == judge_time(config@, auth, time_view(now));
            assert(tells(config, now));
        }
    }
    let (auth, generated) = choose|auth: AuthView, generated: Option<Seq<u8>>|
        may_come_to(config, hello@, Ok(auth)) && came_from_generator(generated)
            && #[trigger] judge_mint(auth.auth_key, generated) is Err;
    let text = judge_generated(generated)->Err_0;
    lemma_no_generated_key(text);
}

} // verus!
