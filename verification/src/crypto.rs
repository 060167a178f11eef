//! The cryptographic primitives, taken from `aws_lc_rs`.
//!
//! The functions marked `external_body` hand their arguments to that crate and are believed, not
//! proved, to do what their contracts say; all others are verified. The results that take a
//! standard to define have a name each; a name stands for the same value wherever its arguments
//! are the same.
use aws_lc_rs::aead::{Aad, LessSafeKey, Nonce, UnboundKey, AES_256_GCM};
use aws_lc_rs::agreement::{agree, PrivateKey, UnparsedPublicKey, X25519};
use aws_lc_rs::error::Unspecified;
use aws_lc_rs::hkdf::{Salt, HKDF_SHA256};
use aws_lc_rs::hmac::{self, HMAC_SHA512};
use aws_lc_rs::rand::SystemRandom;
use aws_lc_rs::signature::{Ed25519KeyPair, KeyPair};
use rustls_pki_types::PrivatePkcs8KeyDer;
use vstd::prelude::*;

verus! {

/// Length of the tag that AES-256-GCM puts behind a ciphertext.
pub const GCM_TAG_LEN: usize = 16;

/// The error of `aws_lc_rs` that says no more than that something failed.
#[verifier::external_type_specification]
#[verifier::external_body]
pub struct ExUnspecified(aws_lc_rs::error::Unspecified);

/// An Ed25519 key pair of `aws_lc_rs`, ready to sign.
#[verifier::external_type_specification]
#[verifier::external_body]
pub struct ExEd25519KeyPair(aws_lc_rs::signature::Ed25519KeyPair);

/// An Ed25519 key pair, ready to sign, and its public key.
///
/// Only [`ed25519_from_pkcs8`] makes one, so the two always belong together.
#[derive(Debug)]
pub struct SigningKey {
    pair: Ed25519KeyPair,
    public_key: [u8; 32],
}

impl SigningKey {
    /// The public key.
    pub closed spec fn public(&self) -> Seq<u8> {
        self.public_key@
    }

    /// The key pair of `aws_lc_rs`.
    pub closed spec fn pair(&self) -> Ed25519KeyPair {
        self.pair
    }

    /// The public key.
    pub fn public_key(&self) -> (key: &[u8; 32])
        ensures
            key@ == self.public(),
    {
        &self.public_key
    }

    /// The key pair to sign with.
    pub fn key_pair(&self) -> (pair: &Ed25519KeyPair)
        ensures
            *pair == self.pair(),
    {
        &self.pair
    }
}

/// The X25519 shared secret of a private and a public key; `None` where the key agreement is
/// refused.
pub uninterp spec fn x25519_shared_secret(private_key: Seq<u8>, public_key: Seq<u8>) -> Option<
    Seq<u8>,
>;

/// HKDF-SHA256: the first 32 bytes of output for a salt, a secret and an info string.
pub uninterp spec fn hkdf_sha256(salt: Seq<u8>, secret: Seq<u8>, info: Seq<u8>) -> Option<Seq<u8>>;

/// What AES-256-GCM opens a sealed message to; `None` where the message is not authentic.
pub uninterp spec fn aes_256_gcm_open(
    key: Seq<u8>,
    nonce: Seq<u8>,
    aad: Seq<u8>,
    sealed: Seq<u8>,
) -> Option<Seq<u8>>;

/// The HMAC-SHA512 tag of a message.
pub uninterp spec fn hmac_sha512_tag(key: Seq<u8>, message: Seq<u8>) -> Seq<u8>;

/// The public key of the Ed25519 private key in a PKCS#8 document, or the reason why the
/// document is rejected.
pub uninterp spec fn ed25519_public_key(pkcs8: Seq<u8>) -> Result<Seq<u8>, Seq<char>>;

/// `agreement::PrivateKey::from_private_key` and `agreement::agree` for X25519.
///
/// Claimed: whether the agreement succeeds, and the secret it yields, depend on the two keys
/// alone.
#[verifier::external_body]
pub(crate) fn x25519_ecdh(private_key: &[u8; 32], public_key: &[u8; 32]) -> (res: Result<
    Vec<u8>,
    Unspecified,
>)
    ensures
        match res {
            Ok(secret) => x25519_shared_secret(private_key@, public_key@) == Some(secret@),
            Err(_) => x25519_shared_secret(private_key@, public_key@) is None,
        },
{
    let private_key = PrivateKey::from_private_key(&X25519, private_key)?;
    let public_key = UnparsedPublicKey::new(&X25519, public_key);
    agree(&private_key, public_key, Unspecified, |secret| Ok(secret.to_vec()))
}

/// `hkdf::Salt::extract`, `hkdf::Prk::expand` and `hkdf::Okm::fill` with HMAC-SHA256, for as
/// many bytes as the hash has.
///
/// Claimed: whether the derivation succeeds, and the 32 bytes it yields, depend on salt,
/// secret and info alone.
#[verifier::external_body]
pub(crate) fn hkdf_sha256_derive(salt: &[u8], secret: &[u8], info: &[u8]) -> (res: Result<
    [u8; 32],
    Unspecified,
>)
    ensures
        match res {
            Ok(key) => hkdf_sha256(salt@, secret@, info@) == Some(key@),
            Err(_) => hkdf_sha256(salt@, secret@, info@) is None,
        },
{
    let mut key = [0u8; 32];
    let prk = Salt::new(HKDF_SHA256, salt).extract(secret);
    prk.expand(&[info], HKDF_SHA256)?.fill(&mut key)?;
    Ok(key)
}

/// `aead::LessSafeKey::open_in_place` with AES-256-GCM.
///
/// Claimed: whether the message opens, and what it opens to, depend on key, nonce, additional
/// data and message alone; the plaintext is shorter than the message by the length of the
/// tag.
#[verifier::external_body]
pub(crate) fn aes_256_gcm_decrypt(
    key: &[u8; 32],
    nonce: &[u8; 12],
    aad: &[u8],
    sealed: &[u8],
) -> (res: Result<Vec<u8>, Unspecified>)
    ensures
        match res {
            Ok(plain) => {
                &&& aes_256_gcm_open(key@, nonce@, aad@, sealed@) == Some(plain@)
                &&& plain@.len() + GCM_TAG_LEN == sealed@.len()
            },
            Err(_) => aes_256_gcm_open(key@, nonce@, aad@, sealed@) is None,
        },
{
    let key = LessSafeKey::new(UnboundKey::new(&AES_256_GCM, key)?);
    let nonce = Nonce::assume_unique_for_key(*nonce);
    let mut buffer = sealed.to_vec();
    let plain = key.open_in_place(nonce, Aad::from(aad), &mut buffer)?;
    Ok(plain.to_vec())
}

/// `hmac::sign` with HMAC-SHA512.
///
/// Claimed: the 64 bytes of the tag depend on key and message alone. The calls panic where the
/// HMAC context cannot be set up or run, which no key and no message brings about.
#[verifier::external_body]
pub(crate) fn hmac_sha512(key: &[u8], message: &[u8]) -> (tag: [u8; 64])
    ensures
        tag@ == hmac_sha512_tag(key@, message@),
{
    let mut tag = [0u8; 64];
    tag.copy_from_slice(hmac::sign(&hmac::Key::new(HMAC_SHA512, key), message).as_ref());
    tag
}

/// `signature::Ed25519KeyPair::generate_pkcs8`: a fresh key pair as a PKCS#8 document.
///
/// Nothing is claimed of the result, which is random.
#[verifier::external_body]
fn ed25519_generate_pkcs8() -> (res: Result<Vec<u8>, Unspecified>) {
    Ok(Ed25519KeyPair::generate_pkcs8(&SystemRandom::new())?.as_ref().to_vec())
}

/// Whether `generated` is what a call of the key generator may give: a document, or `None`
/// where it fails.
pub closed spec fn came_from_generator(generated: Option<Seq<u8>>) -> bool {
    exists|res: Result<Vec<u8>, Unspecified>| #[trigger]
        call_ensures(ed25519_generate_pkcs8, (), res) && generated == (match res {
            Ok(pkcs8) => Some(pkcs8@),
            Err(_) => None,
        })
}

/// What comes from the generator is what a call of it gave, byte for byte, or `None` where that
/// call failed.
proof fn law_generator_output_is_unchanged(generated: Option<Seq<u8>>)
    requires
        came_from_generator(generated),
    ensures
        generated matches Some(document) ==> exists|pkcs8: Vec<u8>|
            pkcs8@ == document && #[trigger] call_ensures(
                ed25519_generate_pkcs8,
                (),
                Ok::<Vec<u8>, Unspecified>(pkcs8),
            ),
        generated is None ==> exists|e: Unspecified| #[trigger]
            call_ensures(ed25519_generate_pkcs8, (), Err::<Vec<u8>, Unspecified>(e)),
{
    let res = choose|res: Result<Vec<u8>, Unspecified>| #[trigger]
        call_ensures(ed25519_generate_pkcs8, (), res) && generated == (match res {
            Ok(pkcs8) => Some(pkcs8@),
            Err(_) => None,
        });
    if res is Ok {
        assert(call_ensures(ed25519_generate_pkcs8, (), Ok::<Vec<u8>, Unspecified>(res->Ok_0)));
    } else {
        assert(call_ensures(ed25519_generate_pkcs8, (), Err::<Vec<u8>, Unspecified>(res->Err_0)));
    }
}

/// A PKCS#8 document from the key generator, or `None` where it fails.
pub(crate) fn generate_document() -> (generated: Option<Vec<u8>>)
    ensures
        came_from_generator(
            match generated {
                Some(pkcs8) => Some(pkcs8@),
                None => None,
            },
        ),
{
    match ed25519_generate_pkcs8() {
        Ok(pkcs8) => Some(pkcs8),
        Err(_) => None,
    }
}

/// `signature::Ed25519KeyPair::from_pkcs8` and `KeyPair::public_key`, on the bytes of a
/// `rustls_pki_types::PrivatePkcs8KeyDer`: the key pair in a PKCS#8 document.
///
/// Claimed: whether the document is accepted, its public key, and the text of the error where
/// it is rejected depend on the document alone. How the pair signs is left unsaid: no
/// signature is made here.
#[verifier::external_body]
pub(crate) fn ed25519_from_pkcs8(pkcs8: &[u8]) -> (res: Result<SigningKey, String>)
    ensures
        match res {
            Ok(key) => ed25519_public_key(pkcs8@) == Ok::<Seq<u8>, Seq<char>>(key.public()),
            Err(reason) => ed25519_public_key(pkcs8@) == Err::<Seq<u8>, Seq<char>>(reason@),
        },
{
    let der = PrivatePkcs8KeyDer::from(pkcs8);
    let pair = Ed25519KeyPair::from_pkcs8(der.secret_pkcs8_der()).map_err(|e| e.to_string())?;
    let mut public_key = [0u8; 32];
    public_key.copy_from_slice(pair.public_key().as_ref());
    Ok(SigningKey { pair, public_key })
}

} // verus!
