//! Answering ClientHellos.
use std::sync::Arc;

use vstd::prelude::*;

use crate::auth::authenticate_reality_client_hello;
use crate::cert::{mint_reality_certified_key, CertifiedKey};
use crate::config::RealityServerConfig;
use crate::error::RealityServerError;
use crate::hello::ClientHello;
use crate::session::RealityAuthResult;
use crate::time::{DefaultTimeProvider, TimeProvider};

#[allow(unused_imports)]
use crate::auth::may_come_to;
#[allow(unused_imports)]
use crate::cert::{genuine, judge_mint, minted, CertifiedView};
#[allow(unused_imports)]
use crate::crypto::came_from_generator;
#[allow(unused_imports)]
use crate::error::ErrorView;
#[allow(unused_imports)]
use crate::hello::HelloView;
#[allow(unused_imports)]
use crate::session::{outcome, AuthView};

verus! {

/// Authenticates REALITY ClientHellos and mints per-connection HMAC certificates.
///
/// On auth failure it gives no certificate, so the caller can fall back (for example dial the
/// camouflage destination).
#[derive(Debug)]
pub struct RealityServerCertResolver<T: TimeProvider = DefaultTimeProvider> {
    config: RealityServerConfig<T>,
    last_auth: Option<RealityAuthResult>,
}

/// An optional authentication over sequences.
pub open spec fn auth_view(auth: Option<RealityAuthResult>) -> Option<AuthView> {
    match auth {
        Some(a) => Some(a@),
        None => None,
    }
}

/// Whether `hello` may be answered with `answer`: a certificate minted for the session that
/// was authenticated, or nothing where authentication or minting failed.
pub open spec fn may_answer<T: TimeProvider>(
    config: RealityServerConfig<T>,
    hello: HelloView,
    answer: Option<(CertifiedView, AuthView)>,
) -> bool {
    match answer {
        Some((certified, auth)) => {
            &&& may_come_to(config, hello, Ok(auth))
            &&& exists|generated: Option<Seq<u8>>| #[trigger]
                came_from_generator(generated) && judge_mint(auth.auth_key, generated) == Ok::<
                    CertifiedView,
                    ErrorView,
                >(certified)
        },
        None => {
            ||| exists|e: ErrorView| may_come_to(config, hello, Err(e))
            ||| exists|auth: AuthView, generated: Option<Seq<u8>>|
                may_come_to(config, hello, Ok(auth)) && came_from_generator(generated)
                    && #[trigger] judge_mint(auth.auth_key, generated) is Err
        },
    }
}

/// The answer to an authenticated client, from what minting came to.
pub fn settle(
    auth: RealityAuthResult,
    minting: Result<Arc<CertifiedKey>, RealityServerError>,
) -> (answer: Option<(Arc<CertifiedKey>, RealityAuthResult)>)
    ensures
        answer == (match minting {
            Ok(certified) => Some((certified, auth)),
            Err(_) => None,
        }),
{
    match minting {
        Ok(certified) => Some((certified, auth)),
        Err(_) => None,
    }
}

impl<T: TimeProvider> RealityServerCertResolver<T> {
    /// The configuration that decides who is answered.
    pub closed spec fn config(&self) -> RealityServerConfig<T> {
        self.config
    }

    /// The last successful authentication.
    pub closed spec fn last(&self) -> Option<AuthView> {
        auth_view(self.last_auth)
    }

    /// Create a resolver from a REALITY server config.
    pub fn new(config: RealityServerConfig<T>) -> (resolver: Self)
        ensures
            resolver.config() == config,
            resolver.last() is None,
    {
        RealityServerCertResolver { config, last_auth: None }
    }

    /// Last successful authentication metadata (if any).
    pub fn last_auth(&self) -> (auth: Option<RealityAuthResult>)
        ensures
            auth_view(auth) == self.last(),
    {
        self.last_auth
    }

    /// Keep `auth` as the last successful authentication.
    pub fn record(&mut self, auth: RealityAuthResult)
        ensures
            final(self).config() == old(self).config(),
            final(self).last() == Some(auth@),
    {
        self.last_auth = Some(auth);
    }

    /// Authenticate a ClientHello and mint a certificate for it, without keeping the
    /// authentication.
    pub fn certify(&self, client_hello: ClientHello<'_>) -> (answer: Option<
        (Arc<CertifiedKey>, RealityAuthResult),
    >)
        ensures
            may_answer(
                self.config(),
                client_hello@,
                match answer {
                    Some((certified, auth)) => Some(((*certified)@, auth@)),
                    None => None,
                },
            ),
            answer matches Some((certified, auth)) ==> genuine(auth.auth_key@, (*certified)@),
    {
        let res = authenticate_reality_client_hello(&self.config, &client_hello);
        let auth = match res {
            Ok(auth) => auth,
            Err(e) => {
                assert(may_come_to(self.config, client_hello@, Err(e@)));
                return None;
            },
        };
        let minting = mint_reality_certified_key(&auth.auth_key);
        let ghost generated = choose|generated: Option<Seq<u8>>|
            #[trigger] came_from_generator(generated) && minted(minting) == judge_mint(
                auth.auth_key@,
                generated,
            );
        assert(minted(minting) == judge_mint(auth@.auth_key, generated));
        settle(auth, minting)
    }

    /// Answer a ClientHello with a certificate, and keep the authentication; where there is
    /// no answer, what was kept before stays.
    pub fn resolve(&mut self, client_hello: ClientHello<'_>) -> (res: Option<Arc<CertifiedKey>>)
        ensures
            final(self).config() == old(self).config(),
            match res {
                Some(certified) => {
                    &&& final(self).last() matches Some(auth)
                    &&& may_answer(
                        old(self).config(),
                        client_hello@,
                        Some(((*certified)@, auth)),
                    )
                    &&& genuine(auth.auth_key, (*certified)@)
                },
                None => final(self).last() == old(self).last() && may_answer(
                    old(self).config(),
                    client_hello@,
                    None,
                ),
            },
    {
        match self.certify(client_hello) {
            Some((certified, auth)) => {
                self.record(auth);
                Some(certified)
            },
            None => None,
        }
    }
}

} // verus!
