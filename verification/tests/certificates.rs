use aws_lc_rs::agreement::{agree, PrivateKey, UnparsedPublicKey, X25519};
use aws_lc_rs::aead::{Aad, LessSafeKey, Nonce, UnboundKey, AES_256_GCM};
use aws_lc_rs::error::Unspecified;
use aws_lc_rs::hkdf::{Salt, HKDF_SHA256};
use aws_lc_rs::hmac;
use aws_lc_rs::signature::{UnparsedPublicKey as VerifyingKey, ED25519};

use reality_server::cert::{
    build_certificate, certify_key, generate_ed25519_pkcs8_and_public, load_ed25519_signing_key,
    mint_reality_certified_key, read_generated, REALITY_CERT_PUBKEY_OFFSET, REALITY_CERT_TEMPLATE,
};
use reality_server::config::RealityServerConfig;
use reality_server::error::RealityServerError;
use reality_server::hello::{ClientHello, KeyShareEntry, NamedGroup};
use reality_server::resolver::{settle, RealityServerCertResolver};

/// The example key of RFC 8410.
const PKCS8: [u8; 48] = [
    0x30, 0x2e, 0x02, 0x01, 0x00, 0x30, 0x05, 0x06, 0x03, 0x2b, 0x65, 0x70, 0x04, 0x22, 0x04, 0x20,
    0xd4, 0xee, 0x72, 0xdb, 0xf9, 0x13, 0x58, 0x4a, 0xd5, 0xb6, 0xd8, 0xf1, 0xf7, 0x69, 0xf8, 0xad,
    0x3a, 0xfe, 0x7c, 0x28, 0xcb, 0xf1, 0xd4, 0xfb, 0xe0, 0x97, 0xa8, 0x8f, 0x44, 0x75, 0x58, 0x42,
];

/// Its public key.
const PUBLIC: [u8; 32] = [
    0x19, 0xbf, 0x44, 0x09, 0x69, 0x84, 0xcd, 0xfe, 0x85, 0x41, 0xba, 0xc1, 0x67, 0xdc, 0x3b, 0x96,
    0xc8, 0x50, 0x86, 0xaa, 0x30, 0xb6, 0xb6, 0xcb, 0x0c, 0x5c, 0x38, 0xad, 0x70, 0x31, 0x66, 0xe1,
];

fn hmac_sha512(key: &[u8], message: &[u8]) -> Vec<u8> {
    hmac::sign(&hmac::Key::new(hmac::HMAC_SHA512, key), message).as_ref().to_vec()
}

/// The client's way of finding the public key: behind OID, tag, length and padding byte.
fn extract_ed25519_pubkey_from_reality_cert(cert: &[u8]) -> Option<[u8; 32]> {
    let prefix = [0x06, 0x03, 0x2b, 0x65, 0x70, 0x03, 0x21, 0x00];
    let at = cert.windows(prefix.len()).position(|w| w == prefix)? + prefix.len();
    cert.get(at..at + 32)?.try_into().ok()
}

#[test]
fn mint_cert_passes_client_hmac_shape() {
    let auth_key = [0x42u8; 32];
    let certified = mint_reality_certified_key(&auth_key).expect("mint");
    let cert = certified.cert[0].as_slice();
    assert_eq!(cert.len(), REALITY_CERT_TEMPLATE.len());
    assert!(cert.len() >= 64);
    let pubkey = extract_ed25519_pubkey_from_reality_cert(cert).expect("pubkey");
    let expected = hmac_sha512(&auth_key, &pubkey);
    assert_eq!(&cert[cert.len() - 64..], &expected);
    assert_eq!(&cert[REALITY_CERT_PUBKEY_OFFSET..REALITY_CERT_PUBKEY_OFFSET + 32], &pubkey);
}

#[test]
fn cert_template_layout() {
    assert_eq!(REALITY_CERT_TEMPLATE.len(), 175);
    assert_eq!(&REALITY_CERT_TEMPLATE[0..4], &[0x30, 0x81, 0xad, 0x30]);
    assert_eq!(&REALITY_CERT_TEMPLATE[62..67], &[0x06, 0x03, 0x2b, 0x65, 0x70]);
    assert_eq!(&REALITY_CERT_TEMPLATE[67..70], &[0x03, 0x21, 0x00]);
}

#[test]
fn certificate_keeps_the_template() {
    let cert = build_certificate(&[0xaa; 32], &[0xbb; 64]);
    assert_eq!(cert.len(), 175);
    assert_eq!(&cert[..70], &REALITY_CERT_TEMPLATE[..70]);
    assert_eq!(&cert[70..102], &[0xaa; 32]);
    assert_eq!(&cert[102..111], &REALITY_CERT_TEMPLATE[102..111]);
    assert_eq!(&cert[111..], &[0xbb; 64]);
}

#[test]
fn known_key_is_certified() {
    let certified = certify_key(&[0x42; 32], &PKCS8, &PUBLIC).unwrap();
    let tag = [
        0xa5, 0x16, 0xfd, 0xed, 0x55, 0xc8, 0x46, 0x2b, 0xd8, 0xe7, 0xe7, 0xb7, 0xaf, 0x2e, 0x17,
        0x16, 0x30, 0xcc, 0x6c, 0x74, 0xa4, 0x67, 0xb4, 0xe1, 0x2c, 0x34, 0x64, 0x1e, 0x68, 0x05,
        0x7c, 0x1c, 0xe8, 0x06, 0x41, 0xbf, 0xa5, 0x9e, 0xd2, 0x87, 0x63, 0xa5, 0x6a, 0x30, 0x38,
        0xb5, 0xd6, 0x6f, 0x11, 0x3c, 0x29, 0x2a, 0x91, 0x05, 0x64, 0x04, 0x19, 0x55, 0xbc, 0x32,
        0xf9, 0x2e, 0x49, 0xe2,
    ];
    assert_eq!(certified.cert, vec![build_certificate(&PUBLIC, &tag)]);
    assert_eq!(certified.key.public_key(), &PUBLIC);
}

#[test]
fn minted_key_signs_for_its_certificate() {
    let certified = mint_reality_certified_key(&[1; 32]).unwrap();
    assert_eq!(&certified.cert[0][70..102], certified.key.public_key());
    let signature = certified.key.key_pair().sign(b"message");
    let verifying = VerifyingKey::new(&ED25519, certified.key.public_key());
    assert!(verifying.verify(b"message", signature.as_ref()).is_ok());
    let other = mint_reality_certified_key(&[1; 32]).unwrap();
    assert_ne!(certified.key.public_key(), other.key.public_key());
}

#[test]
fn documents_are_read() {
    assert_eq!(read_generated(Some(PKCS8.to_vec())), Ok((PKCS8.to_vec(), PUBLIC)));
    assert_eq!(load_ed25519_signing_key(&PKCS8).unwrap().public_key(), &PUBLIC);
    let (pkcs8, public) = generate_ed25519_pkcs8_and_public().unwrap();
    assert_eq!(load_ed25519_signing_key(&pkcs8).unwrap().public_key(), &public);
}

#[test]
fn failures_of_key_handling_have_texts() {
    assert_eq!(
        read_generated(None),
        Err("Ed25519 generate_pkcs8 failed: Unspecified".to_string())
    );
    assert_eq!(
        read_generated(Some(vec![1, 2, 3])),
        Err("Ed25519 from_pkcs8 failed: InvalidEncoding".to_string())
    );
    assert_eq!(
        load_ed25519_signing_key(&[]).err(),
        Some("load Ed25519 signing key: InvalidEncoding".to_string())
    );
    assert_eq!(
        certify_key(&[0; 32], &[1, 2, 3], &PUBLIC).err(),
        Some(RealityServerError::Crypto("load Ed25519 signing key: InvalidEncoding".to_string()))
    );
}

#[test]
fn resolver_keeps_the_last_success() {
    let server_private = [3u8; 32];
    let server_key = PrivateKey::from_private_key(&X25519, &server_private).unwrap();
    let server_public = server_key.compute_public_key().unwrap();
    let client_key = PrivateKey::from_private_key(&X25519, &[4u8; 32]).unwrap();
    let shares = [KeyShareEntry::new(
        NamedGroup::X25519,
        client_key.compute_public_key().unwrap().as_ref().to_vec(),
    )];
    let random: [u8; 32] = std::array::from_fn(|i| i as u8);
    let mut aad = vec![0u8; 80];
    aad[38] = 32;
    let peer = UnparsedPublicKey::new(&X25519, server_public.as_ref());
    let shared: Vec<u8> = agree(&client_key, peer, Unspecified, |s| Ok(s.to_vec())).unwrap();
    let mut key = [0u8; 32];
    Salt::new(HKDF_SHA256, &random[..20])
        .extract(&shared)
        .expand(&[b"REALITY"], HKDF_SHA256)
        .unwrap()
        .fill(&mut key)
        .unwrap();
    let seal = |time: u32| {
        let sealing = LessSafeKey::new(UnboundKey::new(&AES_256_GCM, &key).unwrap());
        let nonce = Nonce::try_assume_unique_for_key(&random[20..]).unwrap();
        let mut session_id = vec![0u8; 16];
        session_id[4..8].copy_from_slice(&time.to_be_bytes());
        sealing.seal_in_place_append_tag(nonce, Aad::from(&aad), &mut session_id).unwrap();
        let mut raw = aad.clone();
        raw[39..71].copy_from_slice(&session_id);
        (session_id, raw)
    };
    let (first_id, first_raw) = seal(1);
    let (second_id, second_raw) = seal(2);
    let first = ClientHello {
        server_name: Some("a.example"),
        session_id: &first_id,
        random: &random,
        key_shares: Some(&shares),
        raw_handshake_message: Some(&first_raw),
    };
    let second = ClientHello {
        session_id: &second_id,
        raw_handshake_message: Some(&second_raw),
        ..first
    };
    let forged = ClientHello { raw_handshake_message: Some(&first_raw), ..second };

    let mut resolver = RealityServerCertResolver::new(RealityServerConfig::new(server_private));
    assert!(resolver.last_auth().is_none());
    assert!(resolver.resolve(forged).is_none());
    assert!(resolver.last_auth().is_none());
    let certified = resolver.resolve(first).unwrap();
    assert_eq!(resolver.last_auth().unwrap().client_time, 1);
    assert_eq!(resolver.last_auth().unwrap().auth_key, key);
    assert_eq!(
        &certified.cert[0][111..],
        &hmac_sha512(&key, certified.key.public_key())
    );
    assert!(resolver.resolve(second).is_some());
    assert_eq!(resolver.last_auth().unwrap().client_time, 2);
    assert!(resolver.resolve(forged).is_none());
    assert_eq!(resolver.last_auth().unwrap().client_time, 2);
    let (_, auth) = resolver.certify(first).unwrap();
    assert!(settle(auth, Err(RealityServerError::Crypto("x".to_string()))).is_none());
    assert_eq!(settle(auth, Ok(certified)).unwrap().1.client_time, 1);
    assert_eq!(auth.client_time, 1);
    assert_eq!(resolver.last_auth().unwrap().client_time, 2);
    resolver.record(auth);
    assert_eq!(resolver.last_auth().unwrap().client_time, 1);
}
