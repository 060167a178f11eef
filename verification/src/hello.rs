//! What the server reads of a ClientHello.
use vstd::prelude::*;
use vstd::slice::slice_to_vec;

use crate::bytes::{bytes_at, overwrite, same_bytes};
use crate::error::RealityServerError;

#[allow(unused_imports)]
use crate::error::ErrorView;

verus! {

/// Offset of the length of the session ID in an encoded ClientHello:
/// HandshakeType(1) + length(3) + legacy_version(2) + random(32).
pub const SESSION_ID_LEN_OFFSET: usize = 38;

/// Offset of the session ID itself.
pub const SESSION_ID_OFFSET: usize = 39;

/// Length of an X25519 public key.
pub const X25519_KEY_LEN: usize = 32;

/// A key exchange group, as far as the server tells them apart.
#[derive(Clone, Copy, Debug, PartialEq, Eq, Structural)]
pub enum NamedGroup {
    X25519,
    X25519MLKEM768,
    Unknown(u16),
}

/// A client's public key for one group.
#[derive(Debug)]
pub struct KeyShareEntry {
    pub group: NamedGroup,
    pub payload: Vec<u8>,
}

/// [`KeyShareEntry`] with its payload as a byte sequence.
pub struct KeyShareView {
    pub group: NamedGroup,
    pub payload: Seq<u8>,
}

impl View for KeyShareEntry {
    type V = KeyShareView;

    open spec fn view(&self) -> KeyShareView {
        KeyShareView { group: self.group, payload: self.payload@ }
    }
}

impl KeyShareView {
    /// The X25519 public key in the share: a share of X25519 is one, a share of the hybrid
    /// group ends in one.
    pub open spec fn x25519(self) -> Option<Seq<u8>> {
        let len = self.payload.len();
        match self.group {
            NamedGroup::X25519 if len == X25519_KEY_LEN => Some(self.payload),
            NamedGroup::X25519MLKEM768 if len >= X25519_KEY_LEN => Some(
                self.payload.skip(len - X25519_KEY_LEN),
            ),
            _ => None,
        }
    }
}

/// The X25519 public key of the first share that has one.
pub open spec fn first_x25519(shares: Seq<KeyShareView>) -> Option<Seq<u8>>
    decreases shares.len(),
{
    if shares.len() == 0 {
        None
    } else {
        match shares[0].x25519() {
            Some(key) => Some(key),
            None => first_x25519(shares.skip(1)),
        }
    }
}

impl KeyShareEntry {
    /// A share of `group`.
    pub fn new(group: NamedGroup, payload: Vec<u8>) -> (share: KeyShareEntry)
        ensures
            share@ == (KeyShareView { group, payload: payload@ }),
    {
        KeyShareEntry { group, payload }
    }

    /// The X25519 public key in the share.
    pub fn x25519_public_key(&self) -> (key: Option<[u8; 32]>)
        ensures
            match key {
                Some(k) => self@.x25519() == Some(k@),
                None => self@.x25519() is None,
            },
    {
        let len: usize = self.payload.len();
        let found = match self.group {
            NamedGroup::X25519 => len == X25519_KEY_LEN,
            NamedGroup::X25519MLKEM768 => len >= X25519_KEY_LEN,
            NamedGroup::Unknown(_) => false,
        };
        if !found {
            return None;
        }
        let key = bytes_at::<32>(&self.payload, len - X25519_KEY_LEN);
        proof {
            assert(key@ =~= self@.x25519()->Some_0);
        }
        Some(key)
    }
}

impl Clone for KeyShareEntry {
    fn clone(&self) -> (copy: Self)
        ensures
            copy@ == self@,
    {
        KeyShareEntry { group: self.group, payload: slice_to_vec(&self.payload) }
    }
}

/// The parts of a ClientHello that authentication reads.
#[derive(Clone, Copy, Debug)]
pub struct ClientHello<'a> {
    /// The server name the client asks for.
    pub server_name: Option<&'a str>,
    /// The session ID.
    pub session_id: &'a [u8],
    /// The client random.
    pub random: &'a [u8; 32],
    /// The key shares, if the extension is there.
    pub key_shares: Option<&'a [KeyShareEntry]>,
    /// The handshake message as it was encoded.
    pub raw_handshake_message: Option<&'a [u8]>,
}

/// [`ClientHello`] over sequences.
pub struct HelloView {
    pub server_name: Option<Seq<char>>,
    pub session_id: Seq<u8>,
    pub random: Seq<u8>,
    pub key_shares: Option<Seq<KeyShareView>>,
    pub raw_handshake_message: Option<Seq<u8>>,
}

impl<'a> View for ClientHello<'a> {
    type V = HelloView;

    open spec fn view(&self) -> HelloView {
        HelloView {
            server_name: match self.server_name {
                Some(name) => Some(name@),
                None => None,
            },
            session_id: self.session_id@,
            random: self.random@,
            key_shares: match self.key_shares {
                Some(shares) => Some(shares@.map_values(|share: KeyShareEntry| share@)),
                None => None,
            },
            raw_handshake_message: match self.raw_handshake_message {
                Some(raw) => Some(raw@),
                None => None,
            },
        }
    }
}

impl HelloView {
    /// The client's X25519 public key.
    pub open spec fn x25519_public_key(self) -> Option<Seq<u8>> {
        match self.key_shares {
            Some(shares) => first_x25519(shares),
            None => None,
        }
    }
}

impl<'a> ClientHello<'a> {
    /// The client's X25519 public key: that of the first key share that has one.
    pub fn reality_x25519_public_key(&self) -> (key: Option<[u8; 32]>)
        ensures
            match key {
                Some(k) => self@.x25519_public_key() == Some(k@),
                None => self@.x25519_public_key() is None,
            },
    {
        let shares = match self.key_shares {
            Some(shares) => shares,
            None => return None,
        };
        let ghost views = shares@.map_values(|share: KeyShareEntry| share@);
        let mut i: usize = 0;
        proof {
            assert(views.skip(0) =~= views);
        }
        while i < shares.len()
            invariant
                i <= shares@.len(),
                views == shares@.map_values(|share: KeyShareEntry| share@),
                self@.x25519_public_key() == first_x25519(views.skip(i as int)),
            decreases shares@.len() - i,
        {
            proof {
                assert(views.skip(i as int)[0] == shares@[i as int]@);
                assert(views.skip(i as int).skip(1) =~= views.skip(i + 1));
            }
            let key = shares[i].x25519_public_key();
            if key.is_some() {
                return key;
            }
            i += 1;
        }
        None
    }
}

/// The additional data that the session ID of an encoded ClientHello was sealed with: the
/// message with the session ID zeroed. There is none unless the message holds `session_id`
/// in its place.
pub open spec fn aad_of(raw: Seq<u8>, session_id: Seq<u8>) -> Option<Seq<u8>> {
    let end = SESSION_ID_OFFSET + session_id.len();
    if raw.len() >= end && raw[SESSION_ID_LEN_OFFSET as int] == session_id.len() && raw.subrange(
        SESSION_ID_OFFSET as int,
        end,
    ) == session_id {
        Some(
            raw.take(SESSION_ID_OFFSET as int) + Seq::new(session_id.len(), |i: int| 0u8)
                + raw.skip(end),
        )
    } else {
        None
    }
}

/// The additional data that the session ID of an encoded ClientHello was sealed with.
pub fn reality_aad_from_raw(raw: &[u8], session_id: &[u8]) -> (res: Result<
    Vec<u8>,
    RealityServerError,
>)
    ensures
        match res {
            Ok(aad) => aad_of(raw@, session_id@) == Some(aad@),
            Err(e) => aad_of(raw@, session_id@) is None && e@
                == ErrorView::InvalidClientHelloEncoding,
        },
{
    if raw.len() < SESSION_ID_OFFSET {
        return Err(RealityServerError::InvalidClientHelloEncoding);
    }
    let sid_len = raw[SESSION_ID_LEN_OFFSET] as usize;
    if sid_len != session_id.len() || raw.len() < SESSION_ID_OFFSET + sid_len {
        return Err(RealityServerError::InvalidClientHelloEncoding);
    }
    if !same_bytes(&raw[SESSION_ID_OFFSET..SESSION_ID_OFFSET + sid_len], session_id) {
        return Err(RealityServerError::InvalidClientHelloEncoding);
    }
    let zeros: Vec<u8> = vec![0u8; sid_len];
    proof {
        assert(zeros@ =~= Seq::new(session_id@.len(), |i: int| 0u8));
    }
    Ok(overwrite(slice_to_vec(raw), SESSION_ID_OFFSET, &zeros))
}

} // verus!
