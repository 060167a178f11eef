//! The certificate that answers an authenticated client.
use std::sync::Arc;

use vstd::prelude::*;

use crate::bytes::overwrite;
use crate::crypto::{ed25519_from_pkcs8, generate_document, hmac_sha512, SigningKey};
use crate::error::{labelled, RealityServerError};

#[allow(unused_imports)]
use crate::crypto::{came_from_generator, ed25519_public_key, hmac_sha512_tag};
#[allow(unused_imports)]
use crate::error::ErrorView;

verus! {

/// Zeroed Ed25519 self-signed cert template (175 bytes; pubkey @ 70, signature @ end-64).
pub const REALITY_CERT_TEMPLATE: [u8; 175] = [
    0x30, 0x81, 0xad, 0x30, 0x61, 0xa0, 0x03, 0x02, 0x01, 0x02, 0x02, 0x01, 0x01, 0x30, 0x05, 0x06,
    0x03, 0x2b, 0x65, 0x70, 0x30, 0x00, 0x30, 0x20, 0x17, 0x0d, 0x37, 0x30, 0x30, 0x31, 0x30, 0x31,
    0x30, 0x30, 0x30, 0x30, 0x30, 0x30, 0x5a, 0x18, 0x0f, 0x39, 0x39, 0x39, 0x39, 0x31, 0x32, 0x33,
    0x31, 0x30, 0x30, 0x30, 0x30, 0x30, 0x30, 0x5a, 0x30, 0x00, 0x30, 0x2a, 0x30, 0x05, 0x06, 0x03,
    0x2b, 0x65, 0x70, 0x03, 0x21, 0x00, 0x00, 0x00, 0x00, 0x00, 0x00, 0x00, 0x00, 0x00, 0x00, 0x00,
    0x00, 0x00, 0x00, 0x00, 0x00, 0x00, 0x00, 0x00, 0x00, 0x00, 0x00, 0x00, 0x00, 0x00, 0x00, 0x00,
    0x00, 0x00, 0x00, 0x00, 0x00, 0x00, 0x00, 0x30, 0x05, 0x06, 0x03, 0x2b, 0x65, 0x70, 0x03, 0x41,
    0x00, 0x00, 0x00, 0x00, 0x00, 0x00, 0x00, 0x00, 0x00, 0x00, 0x00, 0x00, 0x00, 0x00, 0x00, 0x00,
    0x00, 0x00, 0x00, 0x00, 0x00, 0x00, 0x00, 0x00, 0x00, 0x00, 0x00, 0x00, 0x00, 0x00, 0x00, 0x00,
    0x00, 0x00, 0x00, 0x00, 0x00, 0x00, 0x00, 0x00, 0x00, 0x00, 0x00, 0x00, 0x00, 0x00, 0x00, 0x00,
    0x00, 0x00, 0x00, 0x00, 0x00, 0x00, 0x00, 0x00, 0x00, 0x00, 0x00, 0x00, 0x00, 0x00, 0x00,
];

/// Offset of the public key in the certificate.
pub const REALITY_CERT_PUBKEY_OFFSET: usize = 70;

/// Offset of the signature field in the certificate.
pub const REALITY_CERT_SIGNATURE_OFFSET: usize = 111;

/// The certificate with the given public key and signature field.
pub open spec fn certificate(public_key: Seq<u8>, signature: Seq<u8>) -> Seq<u8> {
    REALITY_CERT_TEMPLATE@.take(REALITY_CERT_PUBKEY_OFFSET as int) + public_key
        + REALITY_CERT_TEMPLATE@.subrange(
        REALITY_CERT_PUBKEY_OFFSET + 32,
        REALITY_CERT_SIGNATURE_OFFSET as int,
    ) + signature
}

/// The template with a public key and a signature field filled in.
pub fn build_certificate(public_key: &[u8; 32], signature: &[u8; 64]) -> (cert: Vec<u8>)
    ensures
        cert@ == certificate(public_key@, signature@),
{
    let template = vstd::slice::slice_to_vec(&REALITY_CERT_TEMPLATE);
    let keyed = overwrite(template, REALITY_CERT_PUBKEY_OFFSET, public_key);
    let cert = overwrite(keyed, REALITY_CERT_SIGNATURE_OFFSET, signature);
    proof {
        assert(cert@ =~= certificate(public_key@, signature@));
    }
    cert
}

/// Where the public key and the signature field stand in a certificate.
pub(crate) proof fn lemma_certificate_fields(public_key: Seq<u8>, signature: Seq<u8>)
    requires
        public_key.len() == 32,
        signature.len() == 64,
    ensures
        certificate(public_key, signature).len() == REALITY_CERT_TEMPLATE@.len(),
        public_key_in(certificate(public_key, signature)) == public_key,
        certificate(public_key, signature).skip(REALITY_CERT_SIGNATURE_OFFSET as int) == signature,
{
    let der = certificate(public_key, signature);
    assert(public_key_in(der) =~= public_key);
    assert(der.skip(REALITY_CERT_SIGNATURE_OFFSET as int) =~= signature);
}

/// A certificate chain and the key that signs for it.
#[derive(Debug)]
pub struct CertifiedKey {
    /// The chain, each certificate in DER.
    pub cert: Vec<Vec<u8>>,
    /// The key of the first certificate.
    pub key: SigningKey,
}

/// [`CertifiedKey`] over sequences, with the public key for the key.
#[verifier::ext_equal]
pub struct CertifiedView {
    pub cert: Seq<Seq<u8>>,
    pub public_key: Seq<u8>,
}

impl View for CertifiedKey {
    type V = CertifiedView;

    open spec fn view(&self) -> CertifiedView {
        CertifiedView {
            cert: self.cert@.map_values(|der: Vec<u8>| der@),
            public_key: self.key.public(),
        }
    }
}

/// A certified key, or the reason why there is none.
pub open spec fn minted(res: Result<Arc<CertifiedKey>, RealityServerError>) -> Result<
    CertifiedView,
    ErrorView,
> {
    match res {
        Ok(certified) => Ok((*certified)@),
        Err(e) => Err(e@),
    }
}

/// The certificate for `public_key` that a client with `auth_key` takes for genuine.
pub open spec fn reality_certificate(auth_key: Seq<u8>, public_key: Seq<u8>) -> Seq<u8> {
    certificate(public_key, hmac_sha512_tag(auth_key, public_key))
}

/// Whether a client with `auth_key` takes a certificate for genuine: its signature field is the
/// HMAC of the public key in it.
pub open spec fn client_accepts(auth_key: Seq<u8>, der: Seq<u8>) -> bool {
    &&& der.len() == REALITY_CERT_TEMPLATE@.len()
    &&& der.skip(REALITY_CERT_SIGNATURE_OFFSET as int) == hmac_sha512_tag(
        auth_key,
        public_key_in(der),
    )
}

/// The public key in a certificate.
pub open spec fn public_key_in(der: Seq<u8>) -> Seq<u8> {
    der.subrange(REALITY_CERT_PUBKEY_OFFSET as int, REALITY_CERT_PUBKEY_OFFSET + 32)
}

/// Whether a client with `auth_key` takes a certified key for genuine, and the key is the one
/// that the certificate is for.
pub open spec fn genuine(auth_key: Seq<u8>, certified: CertifiedView) -> bool {
    &&& certified.cert.len() == 1
    &&& client_accepts(auth_key, certified.cert[0])
    &&& public_key_in(certified.cert[0]) == certified.public_key
}

/// The public key in a generated PKCS#8 document, or the text that says why there is none;
/// `generated` is `None` where no key was generated.
pub open spec fn judge_generated(generated: Option<Seq<u8>>) -> Result<Seq<u8>, Seq<char>> {
    match generated {
        None => Err("Ed25519 generate_pkcs8 failed: Unspecified"@),
        Some(pkcs8) => match ed25519_public_key(pkcs8) {
            Ok(public_key) => Ok(public_key),
            Err(reason) => Err("Ed25519 from_pkcs8 failed: "@ + reason),
        },
    }
}

/// The certificate for `public_key` together with the key in `pkcs8`.
pub open spec fn judge_key(auth_key: Seq<u8>, pkcs8: Seq<u8>, public_key: Seq<u8>) -> Result<
    CertifiedView,
    ErrorView,
> {
    match ed25519_public_key(pkcs8) {
        Ok(signing) => Ok(
            CertifiedView {
                cert: seq![reality_certificate(auth_key, public_key)],
                public_key: signing,
            },
        ),
        Err(reason) => Err(ErrorView::Crypto("load Ed25519 signing key: "@ + reason)),
    }
}

/// What minting comes to with a generated PKCS#8 document.
pub open spec fn judge_mint(auth_key: Seq<u8>, generated: Option<Seq<u8>>) -> Result<
    CertifiedView,
    ErrorView,
> {
    match judge_generated(generated) {
        Ok(public_key) => Ok(
            CertifiedView { cert: seq![reality_certificate(auth_key, public_key)], public_key },
        ),
        Err(text) => Err(ErrorView::Crypto(text)),
    }
}

/// The byte string of an optional vector.
pub open spec fn bytes_view(bytes: Option<Vec<u8>>) -> Option<Seq<u8>> {
    match bytes {
        Some(b) => Some(b@),
        None => None,
    }
}

/// Read the public key out of a generated PKCS#8 document.
///
/// `generated` is `None` where no key was generated.
pub fn read_generated(generated: Option<Vec<u8>>) -> (res: Result<(Vec<u8>, [u8; 32]), String>)
    ensures
        match res {
            Ok(key) => bytes_view(generated) == Some(key.0@) && judge_generated(
                bytes_view(generated),
            ) == Ok::<Seq<u8>, Seq<char>>(key.1@),
            Err(text) => judge_generated(bytes_view(generated)) == Err::<Seq<u8>, Seq<char>>(text@),
        },
{
    let pkcs8 = match generated {
        Some(pkcs8) => pkcs8,
        None => return Err("Ed25519 generate_pkcs8 failed: Unspecified".to_string()),
    };
    match ed25519_from_pkcs8(&pkcs8) {
        Ok(key) => {
            let public_key = *key.public_key();
            Ok((pkcs8, public_key))
        },
        Err(reason) => Err(labelled("Ed25519 from_pkcs8 failed: ", reason.as_str())),
    }
}

/// Generate an Ed25519 key pair: its PKCS#8 document and its public key.
pub fn generate_ed25519_pkcs8_and_public() -> (res: Result<(Vec<u8>, [u8; 32]), String>)
    ensures
        match res {
            Ok(key) => {
                &&& came_from_generator(Some(key.0@))
                &&& ed25519_public_key(key.0@) == Ok::<Seq<u8>, Seq<char>>(key.1@)
            },
            Err(text) => exists|generated: Option<Seq<u8>>| #[trigger]
                came_from_generator(generated) && judge_generated(generated) == Err::<
                    Seq<u8>,
                    Seq<char>,
                >(text@),
        },
{
    let generated = generate_document();
    assert(came_from_generator(bytes_view(generated)));
    read_generated(generated)
}

/// Load the Ed25519 key in a PKCS#8 document.
pub fn load_ed25519_signing_key(pkcs8: &[u8]) -> (res: Result<SigningKey, String>)
    ensures
        match res {
            Ok(key) => ed25519_public_key(pkcs8@) == Ok::<Seq<u8>, Seq<char>>(key.public()),
            Err(text) => ed25519_public_key(pkcs8@) matches Err(reason) && text@
                == "load Ed25519 signing key: "@ + reason,
        },
{
    match ed25519_from_pkcs8(pkcs8) {
        Ok(key) => Ok(key),
        Err(reason) => Err(labelled("load Ed25519 signing key: ", reason.as_str())),
    }
}

/// Certify `public_key` for a client with `auth_key`, and load the key that signs for it.
pub fn certify_key(auth_key: &[u8; 32], pkcs8: &[u8], public_key: &[u8; 32]) -> (res: Result<
    Arc<CertifiedKey>,
    RealityServerError,
>)
    ensures
        minted(res) == judge_key(auth_key@, pkcs8@, public_key@),
        res is Ok ==> client_accepts(auth_key@, reality_certificate(auth_key@, public_key@)),
        res is Ok ==> public_key_in(reality_certificate(auth_key@, public_key@)) == public_key@,
{
    let hmac = hmac_sha512(auth_key, public_key);
    let cert = build_certificate(public_key, &hmac);
    let key = match load_ed25519_signing_key(pkcs8) {
        Ok(key) => key,
        Err(text) => return Err(RealityServerError::Crypto(text)),
    };
    let mut chain: Vec<Vec<u8>> = Vec::new();
    chain.push(cert);
    let certified = CertifiedKey { cert: chain, key };
    proof {
        assert(certified@.cert =~= seq![reality_certificate(auth_key@, public_key@)]);
        lemma_certificate_fields(public_key@, hmac@);
    }
    Ok(Arc::new(certified))
}

/// Mint a REALITY HMAC-Ed25519 [`CertifiedKey`] for an authenticated session.
///
/// The key comes from a call of the key generator. The HMAC stands where an X.509 signature would, so
/// the certificate does not verify as one.
pub fn mint_reality_certified_key(auth_key: &[u8; 32]) -> (res: Result<
    Arc<CertifiedKey>,
    RealityServerError,
>)
    ensures
        exists|generated: Option<Seq<u8>>| #[trigger]
            came_from_generator(generated) && minted(res) == judge_mint(auth_key@, generated),
        res matches Ok(certified) ==> genuine(auth_key@, (*certified)@),
{
    match generate_ed25519_pkcs8_and_public() {
        Ok((pkcs8, public_key)) => {
            assert(came_from_generator(Some(pkcs8@)));
            certify_key(auth_key, &pkcs8, &public_key)
        },
        Err(text) => Err(RealityServerError::Crypto(text)),
    }
}

} // verus!
