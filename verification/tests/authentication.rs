use std::sync::Arc;

use aws_lc_rs::aead::{Aad, LessSafeKey, Nonce, UnboundKey, AES_256_GCM};
use aws_lc_rs::agreement::{agree, PrivateKey, UnparsedPublicKey, X25519};
use aws_lc_rs::error::Unspecified;
use aws_lc_rs::hkdf::{Salt, HKDF_SHA256};
use aws_lc_rs::hmac;
use aws_lc_rs::rand;
use rustls_pki_types::DnsName;

use reality_server::auth::{
    admit_client_hello, authenticate_reality_client_hello, conclude_agreement, conclude_derivation,
    derive_auth_key,
};
use reality_server::cert::mint_reality_certified_key;
use reality_server::config::RealityServerConfig;
use reality_server::error::RealityServerError;
use reality_server::hello::{reality_aad_from_raw, ClientHello, KeyShareEntry, NamedGroup};
use reality_server::session::{check_session, check_timestamp, version_value, RealityAuthResult};
use reality_server::time::{DefaultTimeProvider, Duration, TimeProvider, UnixTime};

#[derive(Debug)]
struct FixedTime;

impl TimeProvider for FixedTime {
    fn current_time(&self) -> Option<UnixTime> {
        Some(UnixTime::since_unix_epoch(Duration::from_secs(1_700_000_000)))
    }
}

#[derive(Debug)]
struct NoTime;

impl TimeProvider for NoTime {
    fn current_time(&self) -> Option<UnixTime> {
        None
    }
}

fn hex(text: &str) -> Vec<u8> {
    (0..text.len() / 2)
        .map(|i| u8::from_str_radix(&text[2 * i..2 * i + 2], 16).unwrap())
        .collect()
}

fn hex32(text: &str) -> [u8; 32] {
    hex(text).try_into().unwrap()
}

fn x25519_public_from_private(private: &[u8; 32]) -> [u8; 32] {
    let key = PrivateKey::from_private_key(&X25519, private).unwrap();
    let mut out = [0u8; 32];
    out.copy_from_slice(key.compute_public_key().unwrap().as_ref());
    out
}

fn random_bytes() -> [u8; 32] {
    let mut out = [0u8; 32];
    rand::fill(&mut out).unwrap();
    out
}

/// The client's half: the session ID that seals version, time and short ID.
fn compute_session_id(
    client_private: &[u8; 32],
    server_public: &[u8; 32],
    random: &[u8; 32],
    aad: &[u8],
    plaintext: [u8; 16],
) -> Vec<u8> {
    let private = PrivateKey::from_private_key(&X25519, client_private).unwrap();
    let peer = UnparsedPublicKey::new(&X25519, server_public);
    let shared: Vec<u8> = agree(&private, peer, Unspecified, |s| Ok(s.to_vec())).unwrap();
    let mut key = [0u8; 32];
    Salt::new(HKDF_SHA256, &random[..20])
        .extract(&shared)
        .expand(&[b"REALITY"], HKDF_SHA256)
        .unwrap()
        .fill(&mut key)
        .unwrap();
    let key = LessSafeKey::new(UnboundKey::new(&AES_256_GCM, &key).unwrap());
    let nonce = Nonce::try_assume_unique_for_key(&random[20..32]).unwrap();
    let mut sealed = plaintext.to_vec();
    key.seal_in_place_append_tag(nonce, Aad::from(aad), &mut sealed).unwrap();
    sealed
}

fn plaintext(version: [u8; 3], time: u32, short_id: [u8; 8]) -> [u8; 16] {
    let mut out = [0u8; 16];
    out[0..3].copy_from_slice(&version);
    out[4..8].copy_from_slice(&time.to_be_bytes());
    out[8..16].copy_from_slice(&short_id);
    out
}

/// A minimal handshake header and body with the session ID still zero.
fn unsealed_message(random: &[u8; 32]) -> Vec<u8> {
    let mut aad = vec![0u8; 80];
    aad[0] = 1; // ClientHello
    aad[1..4].copy_from_slice(&76u32.to_be_bytes()[1..]); // length placeholder
    aad[4] = 0x03;
    aad[5] = 0x03;
    aad[6..38].copy_from_slice(random);
    aad[38] = 32;
    aad
}

/// A client and what it sends.
struct Client {
    random: [u8; 32],
    session_id: Vec<u8>,
    raw: Vec<u8>,
    shares: Vec<KeyShareEntry>,
}

impl Client {
    fn new(server_public: &[u8; 32], sealed: [u8; 16]) -> Client {
        let private = random_bytes();
        let random = random_bytes();
        let aad = unsealed_message(&random);
        let session_id = compute_session_id(&private, server_public, &random, &aad, sealed);
        let mut raw = aad.clone();
        raw[39..71].copy_from_slice(&session_id);
        let public = x25519_public_from_private(&private);
        let shares = vec![KeyShareEntry::new(NamedGroup::X25519, public.to_vec())];
        Client { random, session_id, raw, shares }
    }

    fn hello(&self) -> ClientHello<'_> {
        ClientHello {
            server_name: Some("www.example.com"),
            session_id: &self.session_id,
            random: &self.random,
            key_shares: Some(&self.shares),
            raw_handshake_message: Some(&self.raw),
        }
    }
}

fn server() -> (RealityServerConfig, [u8; 32]) {
    let private = random_bytes();
    (RealityServerConfig::new(private), x25519_public_from_private(&private))
}

/// The client's way of finding the public key: behind the tag, length and padding byte of the
/// BIT STRING that follows the last Ed25519 OID before it.
fn extract_ed25519_pubkey_from_reality_cert(cert: &[u8]) -> Option<[u8; 32]> {
    let prefix = [0x06, 0x03, 0x2b, 0x65, 0x70, 0x03, 0x21, 0x00];
    let at = cert.windows(prefix.len()).position(|w| w == prefix)? + prefix.len();
    cert.get(at..at + 32)?.try_into().ok()
}

#[test]
fn aad_zeroes_session_id() {
    let mut raw = vec![0u8; 80];
    raw[0] = 1; // ClientHello
    raw[38] = 32;
    for i in 0..32 {
        raw[39 + i] = (i as u8) + 1;
    }
    let sid = raw[39..71].to_vec();
    let aad = reality_aad_from_raw(&raw, &sid).unwrap();
    assert!(aad[39..71].iter().all(|b| *b == 0));
    assert_eq!(&aad[..39], &raw[..39]);
    assert_eq!(&aad[71..], &raw[71..]);
}

#[test]
fn authenticate_roundtrip_with_client_session_id() {
    let server_private = random_bytes();
    let server_public = x25519_public_from_private(&server_private);

    let short_id = vec![0x12, 0x34, 0x56, 0x78];
    let client_private = random_bytes();
    let key_share = KeyShareEntry::new(
        NamedGroup::X25519,
        x25519_public_from_private(&client_private).to_vec(),
    );

    let random = random_bytes();

    // Build AAD: minimal handshake header + body with zeroed session_id
    let mut aad = vec![0u8; 80];
    aad[0] = 1; // ClientHello
    aad[1..4].copy_from_slice(&76u32.to_be_bytes()[1..]); // length placeholder
    aad[4] = 0x03;
    aad[5] = 0x03;
    aad[6..38].copy_from_slice(&random);
    aad[38] = 32;
    // session_id region already zero

    let session_id = compute_session_id(
        &client_private,
        &server_public,
        &random,
        &aad,
        plaintext([0, 0, 1], 1_700_000_000, [0x12, 0x34, 0x56, 0x78, 0, 0, 0, 0]),
    );

    let mut raw = aad.clone();
    raw[39..71].copy_from_slice(&session_id);

    let server_cfg = RealityServerConfig::new(server_private)
        .with_server_name("www.example.com")
        .with_short_id(&short_id)
        .unwrap()
        .with_max_time_diff(Some(Duration::from_secs(60)))
        .with_time_provider(Arc::new(FixedTime));

    let sni = Some(DnsName::try_from("www.example.com").unwrap());
    let shares = [key_share];
    let ch = ClientHello {
        server_name: sni.as_ref().map(|name| name.as_ref()),
        session_id: &session_id,
        random: &random,
        key_shares: Some(&shares),
        raw_handshake_message: Some(&raw),
    };

    let auth = authenticate_reality_client_hello(&server_cfg, &ch).expect("auth");
    assert_eq!(&auth.short_id[..4], &[0x12, 0x34, 0x56, 0x78]);
    assert_eq!(auth.client_version, [0, 0, 1]);
    assert_eq!(auth.client_time, 1_700_000_000u32);

    let certified = mint_reality_certified_key(&auth.auth_key).unwrap();
    let cert = certified.cert[0].as_slice();
    let pubkey = extract_ed25519_pubkey_from_reality_cert(cert).unwrap();
    let expected = hmac::sign(&hmac::Key::new(hmac::HMAC_SHA512, &auth.auth_key), &pubkey);
    assert_eq!(&cert[cert.len() - 64..], expected.as_ref());

    // Hybrid share: trailing 32 bytes
    let mut hybrid = vec![0u8; 64];
    hybrid[32..].copy_from_slice(&shares[0].payload);
    let hybrid_share = KeyShareEntry::new(NamedGroup::X25519MLKEM768, hybrid);
    let hybrid_shares = [hybrid_share];
    let ch_hybrid = ClientHello {
        server_name: sni.as_ref().map(|name| name.as_ref()),
        session_id: &session_id,
        random: &random,
        key_shares: Some(&hybrid_shares),
        raw_handshake_message: Some(&raw),
    };
    assert!(authenticate_reality_client_hello(&server_cfg, &ch_hybrid).is_ok());
}

#[test]
fn auth_key_of_known_keys() {
    let private: [u8; 32] = std::array::from_fn(|i| i as u8 + 1);
    let peer = hex32("13be4feaeaf204c7fd3358fc9c00721881d174278128227ec674f37f7fe97b6d");
    let random: [u8; 32] = std::array::from_fn(|i| i as u8);
    assert_eq!(
        derive_auth_key(&private, &peer, &random).unwrap(),
        hex32("2dc66c65c9e119fcefffcfaba845d04a7480c8b7a9a704f4b02689c10c33ff09")
    );
}

#[test]
fn auth_key_is_derived_from_secret_and_salt() {
    let secret = hex("4a5d9d5ba4ce2de1728e3bf480350f25e07e21c947d19e3376f09b3c1e161742");
    let mut random: [u8; 32] = std::array::from_fn(|i| i as u8);
    let expected = hex32("68e5a4d6fbfc0f93477d737fbdd45bd5f81578fbd172327b6db8e963e2ba4a3c");
    assert_eq!(conclude_agreement(Some(secret.clone()), &random).unwrap(), expected);
    // What comes behind the salt is the nonce, which the key does not depend on.
    random[20] ^= 1;
    assert_eq!(conclude_agreement(Some(secret.clone()), &random).unwrap(), expected);
    random[19] ^= 1;
    assert_ne!(conclude_agreement(Some(secret), &random).unwrap(), expected);
}

#[test]
fn failed_key_agreement_and_derivation_are_crypto_errors() {
    let agreement = RealityServerError::Crypto("X25519 key agreement failed".to_string());
    assert_eq!(derive_auth_key(&[1; 32], &[0; 32], &[0; 32]), Err(agreement.clone()));
    assert_eq!(conclude_agreement(None, &[0; 32]), Err(agreement));
    assert_eq!(
        conclude_derivation(None),
        Err(RealityServerError::Crypto("HKDF expand failed".to_string()))
    );
    assert_eq!(conclude_derivation(Some([5; 32])), Ok([5; 32]));
}

#[test]
fn server_name_must_be_there_and_allowed() {
    let (config, public) = server();
    let client = Client::new(&public, plaintext([1, 2, 3], 0, [0; 8]));
    let mut hello = client.hello();
    assert!(authenticate_reality_client_hello(&config, &hello).is_ok());
    hello.server_name = None;
    assert_eq!(
        authenticate_reality_client_hello(&config, &hello).unwrap_err(),
        RealityServerError::ServerNameRejected
    );
    let config = config.with_server_names(&["a.example", "b.example", "a.example"]);
    hello.server_name = Some("www.example.com");
    assert_eq!(
        authenticate_reality_client_hello(&config, &hello).unwrap_err(),
        RealityServerError::ServerNameRejected
    );
    hello.server_name = Some("b.example");
    assert!(authenticate_reality_client_hello(&config, &hello).is_ok());
    hello.server_name = Some("B.example");
    assert!(authenticate_reality_client_hello(&config, &hello).is_err());
}

#[test]
fn session_id_must_have_32_bytes() {
    let (config, public) = server();
    let client = Client::new(&public, plaintext([1, 2, 3], 0, [0; 8]));
    let mut hello = client.hello();
    hello.session_id = &client.session_id[..31];
    assert_eq!(
        authenticate_reality_client_hello(&config, &hello).unwrap_err(),
        RealityServerError::InvalidSessionId
    );
}

#[test]
fn key_share_must_hold_an_x25519_key() {
    let (config, public) = server();
    let mut client = Client::new(&public, plaintext([1, 2, 3], 0, [0; 8]));
    let mut hello = client.hello();
    hello.key_shares = None;
    assert_eq!(
        authenticate_reality_client_hello(&config, &hello).unwrap_err(),
        RealityServerError::MissingX25519KeyShare
    );
    let genuine = client.shares[0].clone();
    client.shares = vec![
        KeyShareEntry::new(NamedGroup::Unknown(0x0017), vec![4; 65]),
        KeyShareEntry::new(NamedGroup::X25519, vec![4; 31]),
        KeyShareEntry::new(NamedGroup::X25519MLKEM768, vec![4; 31]),
    ];
    assert_eq!(client.hello().reality_x25519_public_key(), None);
    assert_eq!(
        authenticate_reality_client_hello(&config, &client.hello()).unwrap_err(),
        RealityServerError::MissingX25519KeyShare
    );
    client.shares.push(genuine);
    client.shares.push(KeyShareEntry::new(NamedGroup::X25519, vec![4; 32]));
    assert!(authenticate_reality_client_hello(&config, &client.hello()).is_ok());
}

#[test]
fn raw_message_must_hold_the_session_id() {
    let (config, public) = server();
    let client = Client::new(&public, plaintext([1, 2, 3], 0, [0; 8]));
    let mut hello = client.hello();
    hello.raw_handshake_message = None;
    let rejected = RealityServerError::InvalidClientHelloEncoding;
    assert_eq!(authenticate_reality_client_hello(&config, &hello).unwrap_err(), rejected);
    for len in [0, 38, 39, 70] {
        assert_eq!(
            reality_aad_from_raw(&client.raw[..len], &client.session_id).unwrap_err(),
            rejected
        );
    }
    assert!(reality_aad_from_raw(&client.raw[..71], &client.session_id).is_ok());
    let mut wrong_len = client.raw.clone();
    wrong_len[38] = 31;
    assert_eq!(reality_aad_from_raw(&wrong_len, &client.session_id).unwrap_err(), rejected);
    let mut other_id = client.raw.clone();
    other_id[70] ^= 1;
    assert_eq!(reality_aad_from_raw(&other_id, &client.session_id).unwrap_err(), rejected);
    let mut empty_id = vec![7u8; 39];
    empty_id[38] = 0;
    assert_eq!(reality_aad_from_raw(&empty_id, &[]).unwrap(), empty_id);
}

#[test]
fn aad_is_the_message_before_it_was_sealed() {
    let (config, public) = server();
    let client = Client::new(&public, plaintext([1, 2, 3], 0, [0; 8]));
    let admission = admit_client_hello(&config, &client.hello()).unwrap();
    assert_eq!(admission.aad, unsealed_message(&client.random));
    assert_eq!(&admission.peer_public_key[..], &client.shares[0].payload[..]);
}

#[test]
fn tampering_breaks_the_seal() {
    let (config, public) = server();
    let client = Client::new(&public, plaintext([1, 2, 3], 0, [0; 8]));
    let failed = RealityServerError::AuthDecryptFailed;

    let mut raw = client.raw.clone();
    raw[79] ^= 1;
    let mut hello = client.hello();
    hello.raw_handshake_message = Some(&raw);
    assert_eq!(authenticate_reality_client_hello(&config, &hello).unwrap_err(), failed);

    let mut session_id = client.session_id.clone();
    session_id[0] ^= 1;
    let mut raw = client.raw.clone();
    raw[39] ^= 1;
    let mut hello = client.hello();
    hello.session_id = &session_id;
    hello.raw_handshake_message = Some(&raw);
    assert_eq!(authenticate_reality_client_hello(&config, &hello).unwrap_err(), failed);

    let mut random = client.random;
    random[31] ^= 1;
    let mut hello = client.hello();
    hello.random = &random;
    assert_eq!(authenticate_reality_client_hello(&config, &hello).unwrap_err(), failed);

    let (other, _) = server();
    assert_eq!(authenticate_reality_client_hello(&other, &client.hello()).unwrap_err(), failed);
    assert_eq!(check_session(&config, [0; 32], None).unwrap_err(), failed);
}

#[test]
fn plaintext_is_read_back() {
    let (config, public) = server();
    let mut sealed = plaintext([0xab, 0xcd, 0xef], 0x0102_0304, [1, 2, 3, 4, 5, 6, 7, 8]);
    sealed[3] = 0xff;
    let client = Client::new(&public, sealed);
    let auth = authenticate_reality_client_hello(&config, &client.hello()).unwrap();
    assert_eq!(auth.client_version, [0xab, 0xcd, 0xef]);
    assert_eq!(auth.client_time, 16_909_060);
    assert_eq!(auth.short_id, [1, 2, 3, 4, 5, 6, 7, 8]);
    let peer: [u8; 32] = client.shares[0].payload.clone().try_into().unwrap();
    assert_eq!(
        auth.auth_key,
        derive_auth_key(config.private_key(), &peer, &client.random).unwrap()
    );
}

#[test]
fn versions_are_ordered_bytewise() {
    assert_eq!(version_value([1, 2, 3]), 0x010203);
    assert_eq!(version_value([255, 255, 255]), 0xffffff);
    assert!(version_value([1, 0, 0]) > version_value([0, 255, 255]));
    assert!(version_value([1, 1, 0]) > version_value([1, 0, 255]));
}

#[test]
fn version_bounds_are_inclusive() {
    let config = RealityServerConfig::new([1; 32])
        .with_client_ver_range(Some([1, 2, 3]), Some([2, 0, 0]));
    let check = |version| {
        check_session(&config, [9; 32], Some(plaintext(version, 0, [0; 8]))).map(|a| a.client_version)
    };
    assert_eq!(check([1, 2, 2]), Err(RealityServerError::ClientVersionRejected));
    assert_eq!(check([1, 2, 3]), Ok([1, 2, 3]));
    assert_eq!(check([1, 255, 255]), Ok([1, 255, 255]));
    assert_eq!(check([2, 0, 0]), Ok([2, 0, 0]));
    assert_eq!(check([2, 0, 1]), Err(RealityServerError::ClientVersionRejected));
    let config = config.with_client_ver_range(None, None);
    assert!(check_session(&config, [9; 32], Some(plaintext([2, 0, 1], 0, [0; 8]))).is_ok());
}

#[test]
fn short_ids_are_padded_and_checked() {
    let config = RealityServerConfig::new([1; 32]);
    let check = |config: &RealityServerConfig, id| {
        check_session(config, [9; 32], Some(plaintext([0, 0, 1], 0, id))).map(|a| a.short_id)
    };
    assert_eq!(check(&config, [1; 8]), Ok([1; 8]));
    let config = config.with_short_id(&[1, 2]).unwrap();
    assert_eq!(check(&config, [1, 2, 0, 0, 0, 0, 0, 0]), Ok([1, 2, 0, 0, 0, 0, 0, 0]));
    assert_eq!(check(&config, [1; 8]), Err(RealityServerError::ShortIdRejected));
    let config = config.with_short_id(&[1; 8]).unwrap();
    assert_eq!(check(&config, [1; 8]), Ok([1; 8]));
    assert_eq!(check(&config, [1, 2, 0, 0, 0, 0, 0, 0]), Ok([1, 2, 0, 0, 0, 0, 0, 0]));
    let config = config.with_short_ids(&[&[3], &[3, 0], &[]]).unwrap();
    assert_eq!(check(&config, [3, 0, 0, 0, 0, 0, 0, 0]), Ok([3, 0, 0, 0, 0, 0, 0, 0]));
    assert_eq!(check(&config, [0; 8]), Ok([0; 8]));
    assert_eq!(check(&config, [1; 8]), Err(RealityServerError::ShortIdRejected));
}

#[test]
fn long_short_ids_are_refused() {
    let too_long = RealityServerError::ShortIdTooLong;
    let config = RealityServerConfig::new([1; 32]);
    assert_eq!(config.clone().with_short_id(&[0; 9]).err(), Some(too_long.clone()));
    assert_eq!(config.clone().with_short_ids(&[&[1], &[0; 9]]).err(), Some(too_long));
    assert!(config.with_short_ids(&[&[0; 8]]).is_ok());
}

#[test]
fn timestamps_may_differ_by_the_bound() {
    let config = RealityServerConfig::new([1; 32])
        .with_max_time_diff(Some(Duration::from_secs(60)));
    let check = |client_time, now: u64| {
        let auth = RealityAuthResult {
            auth_key: [0; 32],
            client_version: [0, 0, 1],
            short_id: [0; 8],
            client_time,
        };
        let now = UnixTime::since_unix_epoch(Duration::from_secs(now));
        check_timestamp(&config, auth, Some(now)).map(|a| a.client_time)
    };
    assert_eq!(check(1000, 1000), Ok(1000));
    assert_eq!(check(1000, 1060), Ok(1000));
    assert_eq!(check(1060, 1000), Ok(1060));
    assert_eq!(check(1000, 1061), Err(RealityServerError::TimestampRejected));
    assert_eq!(check(1061, 1000), Err(RealityServerError::TimestampRejected));
    // The clock is cut to 32 bits; the distance does not wrap around.
    assert_eq!(check(5, (1u64 << 32) + 5), Ok(5));
    assert_eq!(check(u32::MAX, 1u64 << 32), Err(RealityServerError::TimestampRejected));
}

#[test]
fn wider_skew_bound_accepts_more() {
    let auth = RealityAuthResult {
        auth_key: [0; 32],
        client_version: [0, 0, 1],
        short_id: [0; 8],
        client_time: 100,
    };
    let now = Some(UnixTime::since_unix_epoch(Duration::from_secs(130)));
    let config = RealityServerConfig::new([1; 32]);
    for (bound, accepted) in [(1, false), (29, false), (30, true), (31, true), (u64::MAX, true)] {
        let config = config.clone().with_max_time_diff(Some(Duration::from_secs(bound)));
        assert_eq!(check_timestamp(&config, auth, now).is_ok(), accepted);
    }
}

#[test]
fn fractions_of_a_second_count_in_the_bound() {
    let auth = RealityAuthResult {
        auth_key: [0; 32],
        client_version: [0, 0, 1],
        short_id: [0; 8],
        client_time: 10,
    };
    let now = Some(UnixTime::since_unix_epoch(Duration::new(11, 999_999_999)));
    let config = RealityServerConfig::new([1; 32]);
    let bound = |span| config.clone().with_max_time_diff(span);
    assert!(check_timestamp(&bound(Some(Duration::new(0, 999_999_999))), auth, now).is_err());
    assert!(check_timestamp(&bound(Some(Duration::new(0, 1_000_000_000))), auth, now).is_ok());
    assert!(check_timestamp(&bound(Some(Duration::new(0, 1))), auth, now).is_err());
}

#[test]
fn zero_bound_switches_the_check_off() {
    let auth = RealityAuthResult {
        auth_key: [0; 32],
        client_version: [0, 0, 1],
        short_id: [0; 8],
        client_time: 10,
    };
    let config = RealityServerConfig::new([1; 32])
        .with_max_time_diff(Some(Duration::from_secs(1)));
    assert!(check_timestamp(&config, auth, None).is_err());
    let config = config.with_max_time_diff(Some(Duration::from_secs(0)));
    assert!(check_timestamp(&config, auth, None).is_ok());
    let config = config.with_max_time_diff(None);
    assert!(check_timestamp(&config, auth, None).is_ok());
}

#[test]
fn clock_decides_only_where_a_bound_is_set() {
    let (config, public) = server();
    let client = Client::new(&public, plaintext([0, 0, 1], 1_700_000_061, [0; 8]));
    let open = config.clone().with_time_provider(Arc::new(NoTime));
    assert!(authenticate_reality_client_hello(&open, &client.hello()).is_ok());
    let bound = config.with_max_time_diff(Some(Duration::from_secs(60)));
    let fixed = bound.clone().with_time_provider(Arc::new(FixedTime));
    assert_eq!(
        authenticate_reality_client_hello(&fixed, &client.hello()).unwrap_err(),
        RealityServerError::TimestampRejected
    );
    let blind = bound.with_time_provider(Arc::new(NoTime));
    assert_eq!(
        authenticate_reality_client_hello(&blind, &client.hello()).unwrap_err(),
        RealityServerError::Crypto("time provider failed".to_string())
    );
}

#[test]
fn lifting_restrictions_keeps_acceptance() {
    let (config, public) = server();
    let client = Client::new(&public, plaintext([1, 2, 3], 1_700_000_010, [9; 8]));
    let strict = config
        .with_server_name("www.example.com")
        .with_short_id(&[9; 8])
        .unwrap()
        .with_client_ver_range(Some([1, 0, 0]), Some([2, 0, 0]))
        .with_max_time_diff(Some(Duration::from_secs(10)))
        .with_time_provider(Arc::new(FixedTime));
    let accepted = |config: &RealityServerConfig<FixedTime>| {
        let auth = authenticate_reality_client_hello(config, &client.hello()).unwrap();
        (auth.auth_key, auth.client_version, auth.short_id, auth.client_time)
    };
    let expected = accepted(&strict);
    assert_eq!(accepted(&strict.clone().with_server_names(&[])), expected);
    assert_eq!(accepted(&strict.clone().with_short_ids(&[]).unwrap()), expected);
    assert_eq!(accepted(&strict.clone().with_client_ver_range(None, Some([2, 0, 0]))), expected);
    assert_eq!(accepted(&strict.clone().with_client_ver_range(Some([1, 0, 0]), None)), expected);
    assert_eq!(accepted(&strict.with_max_time_diff(None)), expected);
}

#[test]
fn wall_clock_tells_the_present() {
    let now = DefaultTimeProvider.current_time().unwrap().as_secs();
    let expected = std::time::SystemTime::now()
        .duration_since(std::time::SystemTime::UNIX_EPOCH)
        .unwrap()
        .as_secs();
    assert!(expected.abs_diff(now) <= 2);
    let (config, public) = server();
    let client = Client::new(&public, plaintext([0, 0, 1], expected as u32, [0; 8]));
    let config = config.with_max_time_diff(Some(Duration::from_secs(30)));
    assert!(authenticate_reality_client_hello(&config, &client.hello()).is_ok());
}

#[test]
fn config_keeps_its_private_key() {
    let config = RealityServerConfig::new([7; 32]).with_server_name("a").with_server_name("a");
    assert_eq!(config.private_key(), &[7; 32]);
}

#[test]
fn errors_have_texts() {
    let texts = [
        (RealityServerError::ShortIdTooLong, "REALITY short_id must be at most 8 bytes"),
        (RealityServerError::ServerNameRejected, "REALITY server name rejected"),
        (
            RealityServerError::MissingX25519KeyShare,
            "REALITY ClientHello missing X25519 key share",
        ),
        (RealityServerError::InvalidSessionId, "REALITY session_id must be 32 bytes"),
        (RealityServerError::AuthDecryptFailed, "REALITY session_id decryption failed"),
        (RealityServerError::ShortIdRejected, "REALITY short_id rejected"),
        (RealityServerError::ClientVersionRejected, "REALITY client version rejected"),
        (RealityServerError::TimestampRejected, "REALITY timestamp rejected"),
        (
            RealityServerError::InvalidClientHelloEncoding,
            "REALITY ClientHello encoding invalid for AAD",
        ),
        (RealityServerError::Crypto("x".to_string()), "REALITY crypto error: x"),
    ];
    for (error, text) in texts {
        assert_eq!(error.message(), text);
    }
}
