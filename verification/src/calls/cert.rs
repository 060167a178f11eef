//! Calls that make certificates.
use std::sync::Arc;

use vstd::prelude::*;

use crate::cert::{
    build_certificate, certify_key, generate_ed25519_pkcs8_and_public, load_ed25519_signing_key,
    mint_reality_certified_key, read_generated, CertifiedKey,
};
use crate::crypto::SigningKey;
use crate::error::RealityServerError;

#[allow(unused_imports)]
use crate::cert::{
    certificate, genuine, judge_generated, judge_mint, minted, public_key_in, CertifiedView,
    REALITY_CERT_TEMPLATE,
};
#[allow(unused_imports)]
use crate::crypto::{came_from_generator, ed25519_public_key, hmac_sha512_tag};
#[allow(unused_imports)]
use crate::error::ErrorView;

verus! {

/// What a certificate holds before the public key: version, serial number, algorithm, empty
/// names, validity, and the head of the key field.
pub open spec fn head() -> Seq<u8> {
    seq![
        0x30u8, 0x81, 0xad, 0x30, 0x61, 0xa0, 0x03, 0x02, 0x01, 0x02, 0x02, 0x01, 0x01, 0x30, 0x05,
        0x06, 0x03, 0x2b, 0x65, 0x70, 0x30, 0x00, 0x30, 0x20, 0x17, 0x0d, 0x37, 0x30, 0x30, 0x31,
        0x30, 0x31, 0x30, 0x30, 0x30, 0x30, 0x30, 0x30, 0x5a, 0x18, 0x0f, 0x39, 0x39, 0x39, 0x39,
        0x31, 0x32, 0x33, 0x31, 0x30, 0x30, 0x30, 0x30, 0x30, 0x30, 0x5a, 0x30, 0x00, 0x30, 0x2a,
        0x30, 0x05, 0x06, 0x03, 0x2b, 0x65, 0x70, 0x03, 0x21, 0x00,
    ]
}

/// What a certificate holds between the public key and the signature field.
pub open spec fn middle() -> Seq<u8> {
    seq![0x00u8, 0x30, 0x05, 0x06, 0x03, 0x2b, 0x65, 0x70, 0x03]
}

/// `der` is head, public key, middle and signature field, one behind the other.
pub open spec fn is_certificate(der: Seq<u8>, public_key: Seq<u8>, signature: Seq<u8>) -> bool {
    &&& der.len() == 175
    &&& der.subrange(0, 70) == head()
    &&& der.subrange(70, 102) == public_key
    &&& der.subrange(102, 111) == middle()
    &&& der.subrange(111, 175) == signature
}

/// The certificate that is built holds the public key and the signature field where they belong.
pub proof fn law_built_certificate_holds_both_fields(
    public_key: &[u8; 32],
    signature: &[u8; 64],
    der: Vec<u8>,
)
    requires
        call_ensures(build_certificate, (public_key, signature), der),
    ensures
        is_certificate(der@, public_key@, signature@),
{
    lemma_certificate(public_key@, signature@);
}

/// A signing key tells the public key that it was loaded with.
pub proof fn law_loaded_key_tells_its_public_key(
    pkcs8: &[u8],
    key: SigningKey,
    public_key: &[u8; 32],
)
    requires
        call_ensures(load_ed25519_signing_key, (pkcs8,), Ok::<SigningKey, String>(key)),
        call_ensures(SigningKey::public_key, (&key,), public_key),
    ensures
        ed25519_public_key(pkcs8@) == Ok::<Seq<u8>, Seq<char>>(public_key@),
        key.public() == public_key@,
{
}

/// A document is loaded exactly if it holds an Ed25519 key; else the reason is passed on, with
/// a label before it.
pub proof fn law_loading_depends_on_the_document(pkcs8: &[u8], res: Result<SigningKey, String>)
    requires
        call_ensures(load_ed25519_signing_key, (pkcs8,), res),
    ensures
        ed25519_public_key(pkcs8@) matches Ok(public_key) ==> (res matches Ok(key) && key.public()
            == public_key),
        ed25519_public_key(pkcs8@) matches Err(reason) ==> (res matches Err(text) && text@
            == "load Ed25519 signing key: "@ + reason),
{
}

/// Reading a generated document gives the document back with the public key in it; no document,
/// and one that holds no key, are told apart by the text.
pub proof fn law_generated_document_is_read(
    generated: Option<Vec<u8>>,
    res: Result<(Vec<u8>, [u8; 32]), String>,
)
    requires
        call_ensures(read_generated, (generated,), res),
    ensures
        generated is None ==> (res matches Err(text) && text@
            == "Ed25519 generate_pkcs8 failed: Unspecified"@),
        generated matches Some(pkcs8) ==> {
            &&& ed25519_public_key(pkcs8@) matches Ok(public_key) ==> (res matches Ok(key)
                && key.0@ == pkcs8@ && key.1@ == public_key)
            &&& ed25519_public_key(pkcs8@) matches Err(reason) ==> (res matches Err(text) && text@
                == "Ed25519 from_pkcs8 failed: "@ + reason)
        },
{
}

/// A generated key is a document of the generator with the public key in it. There is none only
/// where the generator fails or gives a document without a key.
pub proof fn law_generated_key_is_the_generators(res: Result<(Vec<u8>, [u8; 32]), String>)
    requires
        call_ensures(generate_ed25519_pkcs8_and_public, (), res),
    ensures
        res matches Ok(key) ==> came_from_generator(Some(key.0@)) && ed25519_public_key(key.0@)
            == Ok::<Seq<u8>, Seq<char>>(key.1@),
        res matches Err(text) ==> minting_fails(text@),
{
    if res is Err {
        lemma_no_generated_key(res->Err_0@);
    }
}

/// The generator may fail, or may give a document without a key, and `text` says which.
pub open spec fn minting_fails(text: Seq<char>) -> bool {
    ||| came_from_generator(None) && text == "Ed25519 generate_pkcs8 failed: Unspecified"@
    ||| exists|pkcs8: Seq<u8>| #[trigger]
        came_from_generator(Some(pkcs8)) && rejected_with(pkcs8, text)
}

/// The document holds no key, and `text` says why.
pub open spec fn rejected_with(pkcs8: Seq<u8>, text: Seq<char>) -> bool {
    ed25519_public_key(pkcs8) matches Err(reason) && text == "Ed25519 from_pkcs8 failed: "@ + reason
}

/// A key is certified by one certificate, for the given public key, with the HMAC of that key
/// under the client's key for its signature; it comes with the key of the document. There is
/// none exactly if the document holds no key.
pub proof fn law_key_is_certified_by_hmac(
    auth_key: &[u8; 32],
    pkcs8: &[u8],
    public_key: &[u8; 32],
    res: Result<Arc<CertifiedKey>, RealityServerError>,
)
    requires
        call_ensures(certify_key, (auth_key, pkcs8, public_key), res),
    ensures
        ed25519_public_key(pkcs8@) matches Ok(signing) ==> {
            &&& res matches Ok(certified)
            &&& certified.cert@.len() == 1
            &&& is_certificate(
                certified.cert@[0]@,
                public_key@,
                hmac_sha512_tag(auth_key@, public_key@),
            )
            &&& certified.key.public() == signing
        },
        ed25519_public_key(pkcs8@) matches Err(reason) ==> {
            &&& res matches Err(RealityServerError::Crypto(text))
            &&& text@ == "load Ed25519 signing key: "@ + reason
        },
{
    if res is Ok {
        let certified = *res->Ok_0;
        let tag = hmac_sha512_tag(auth_key@, public_key@);
        assert(certified@.cert.len() == 1);
        assert(certified@.cert[0] == certified.cert@[0]@);
        lemma_tag_len(public_key@, tag);
        lemma_certificate(public_key@, tag);
    }
}

/// A client with `auth_key` takes the certificate for genuine, and the server holds its key: the
/// one certificate carries the public key of the signing key, and the HMAC of it under
/// `auth_key` for its signature.
pub open spec fn certified_for(auth_key: Seq<u8>, certified: CertifiedKey) -> bool {
    &&& certified.cert@.len() == 1
    &&& is_certificate(
        certified.cert@[0]@,
        certified.key.public(),
        hmac_sha512_tag(auth_key, certified.key.public()),
    )
    &&& exists|pkcs8: Seq<u8>| #[trigger]
        came_from_generator(Some(pkcs8)) && ed25519_public_key(pkcs8) == Ok::<Seq<u8>, Seq<char>>(
            certified.key.public(),
        )
}

/// A minted key is a key of the generator, certified for the client. There is none only where
/// the generator fails or gives a document without a key.
pub proof fn law_minted_key_is_certified_for_the_client(
    auth_key: &[u8; 32],
    res: Result<Arc<CertifiedKey>, RealityServerError>,
)
    requires
        call_ensures(mint_reality_certified_key, (auth_key,), res),
    ensures
        res matches Ok(certified) ==> certified_for(auth_key@, *certified),
        res matches Err(e) ==> (e matches RealityServerError::Crypto(text) && minting_fails(text@)),
{
    let generated = choose|generated: Option<Seq<u8>>| #[trigger]
        came_from_generator(generated) && minted(res) == judge_mint(auth_key@, generated);
    if res is Ok {
        let certified = *res->Ok_0;
        lemma_certified_for(auth_key@, certified, generated);
    } else {
        lemma_no_generated_key(judge_generated(generated)->Err_0);
    }
}

/// A minted certificate is one that the client takes for genuine.
pub(crate) proof fn lemma_certified_for(
    auth_key: Seq<u8>,
    certified: CertifiedKey,
    generated: Option<Seq<u8>>,
)
    requires
        came_from_generator(generated),
        judge_mint(auth_key, generated) == Ok::<CertifiedView, ErrorView>(certified@),
        genuine(auth_key, certified@),
    ensures
        certified_for(auth_key, certified),
{
    let public_key = certified.key.public();
    let tag = hmac_sha512_tag(auth_key, public_key);
    assert(certified@.cert.len() == 1);
    assert(certified@.cert[0] == certified.cert@[0]@);
    assert(public_key_in(certified@.cert[0]).len() == 32);
    assert(public_key == certified@.public_key);
    lemma_tag_len(public_key, tag);
    lemma_certificate(public_key, tag);
    assert(generated is Some);
    assert(came_from_generator(Some(generated->Some_0)));
}

/// Where minting says why it failed, the generator is to blame.
pub(crate) proof fn lemma_no_generated_key(text: Seq<char>)
    requires
        exists|generated: Option<Seq<u8>>| #[trigger]
            came_from_generator(generated) && judge_generated(generated) == Err::<
                Seq<u8>,
                Seq<char>,
            >(text),
    ensures
        minting_fails(text),
{
    let generated = choose|generated: Option<Seq<u8>>| #[trigger]
        came_from_generator(generated) && judge_generated(generated) == Err::<Seq<u8>, Seq<char>>(
            text,
        );
    if generated is Some {
        assert(came_from_generator(Some(generated->Some_0)));
    }
}

/// A certificate as long as the template leaves 64 bytes for the signature field.
proof fn lemma_tag_len(public_key: Seq<u8>, signature: Seq<u8>)
    requires
        public_key.len() == 32,
        certificate(public_key, signature).len() == 175,
    ensures
        signature.len() == 64,
{
}

/// The bytes of a certificate.
pub(crate) proof fn lemma_certificate(public_key: Seq<u8>, signature: Seq<u8>)
    requires
        public_key.len() == 32,
        signature.len() == 64,
    ensures
        is_certificate(certificate(public_key, signature), public_key, signature),
{
    let der = certificate(public_key, signature);
    let template = REALITY_CERT_TEMPLATE@;
    assert(template.subrange(0, 70) =~= head());
    assert(template.subrange(102, 111) =~= middle());
    assert(der.subrange(0, 70) =~= template.subrange(0, 70));
    assert(der.subrange(70, 102) =~= public_key);
    assert(der.subrange(102, 111) =~= template.subrange(102, 111));
    assert(der.subrange(111, 175) =~= signature);
}

} // verus!
