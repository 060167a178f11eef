//! Calls on a ClientHello.
use vstd::prelude::*;

use crate::error::RealityServerError;
use crate::hello::{reality_aad_from_raw, ClientHello, KeyShareEntry, NamedGroup};

#[allow(unused_imports)]
use crate::hello::{aad_of, first_x25519};

verus! {

/// The share holds an X25519 key: it is a plain share of 32 bytes, or a hybrid one of at least
/// as many.
pub open spec fn holds_key(share: KeyShareEntry) -> bool {
    ||| share.group is X25519 && share.payload@.len() == 32
    ||| share.group is X25519MLKEM768 && share.payload@.len() >= 32
}

/// `key` is the last 32 bytes of the share.
pub open spec fn ends_in(share: KeyShareEntry, key: Seq<u8>) -> bool {
    &&& key.len() == 32
    &&& forall|j: int|
        0 <= j < 32 ==> #[trigger] key[j] == share.payload@[share.payload@.len() - 32 + j]
}

/// Share `i` is the first that holds an X25519 key, and `key` is that key.
pub open spec fn first_key_at(shares: Seq<KeyShareEntry>, i: int, key: Seq<u8>) -> bool {
    &&& 0 <= i < shares.len()
    &&& holds_key(shares[i])
    &&& ends_in(shares[i], key)
    &&& forall|j: int| 0 <= j < i ==> !holds_key(#[trigger] shares[j])
}

/// No share holds an X25519 key.
pub open spec fn no_key(shares: Seq<KeyShareEntry>) -> bool {
    forall|j: int| 0 <= j < shares.len() ==> !holds_key(#[trigger] shares[j])
}

/// `raw` holds a session ID of the right length in its place: behind 38 bytes and the length.
pub open spec fn carries(raw: Seq<u8>, session_id: Seq<u8>) -> bool {
    &&& raw.len() >= 39 + session_id.len()
    &&& raw[38] == session_id.len()
    &&& forall|j: int| 0 <= j < session_id.len() ==> #[trigger] session_id[j] == raw[39 + j]
}

/// `aad` is `raw` with `len` bytes from the 40th on zeroed.
pub open spec fn blanked(raw: Seq<u8>, len: nat, aad: Seq<u8>) -> bool {
    &&& aad.len() == raw.len()
    &&& forall|j: int|
        0 <= j < raw.len() ==> #[trigger] aad[j] == if 39 <= j < 39 + len {
            0u8
        } else {
            raw[j]
        }
}

/// A key is read out of a share exactly if the share holds one, and it is what the share ends in.
pub proof fn law_share_gives_the_key_it_ends_in(share: KeyShareEntry, found: Option<[u8; 32]>)
    requires
        call_ensures(KeyShareEntry::x25519_public_key, (&share,), found),
    ensures
        found is Some <==> holds_key(share),
        found matches Some(key) ==> ends_in(share, key@),
{
}

/// A share is made of the group and the payload that it is given.
pub proof fn law_share_keeps_its_parts(group: NamedGroup, payload: Vec<u8>, share: KeyShareEntry)
    requires
        call_ensures(KeyShareEntry::new, (group, payload), share),
    ensures
        share.group == group,
        share.payload@ == payload@,
{
}

/// A copy of a share has the same group and payload.
pub proof fn law_share_copies_are_alike(share: KeyShareEntry, copy: KeyShareEntry)
    requires
        call_ensures(KeyShareEntry::clone, (&share,), copy),
    ensures
        copy.group == share.group,
        copy.payload@ == share.payload@,
{
}

/// The key found is that of the first share that holds one, whatever comes before or behind it;
/// none is found exactly if no share holds one.
pub proof fn law_first_share_with_a_key_counts(hello: ClientHello<'_>, found: Option<[u8; 32]>)
    requires
        call_ensures(ClientHello::reality_x25519_public_key, (&hello,), found),
    ensures
        hello.key_shares is None ==> found is None,
        hello.key_shares matches Some(shares) ==> (found is None <==> no_key(shares@)),
        hello.key_shares matches Some(shares) ==> forall|i: int, key: Seq<u8>| #[trigger]
            first_key_at(shares@, i, key) ==> found is Some && found->Some_0@ == key,
        hello.key_shares matches Some(shares) ==> found matches Some(key) ==> exists|i: int|
            first_key_at(shares@, i, key@),
{
    if hello.key_shares is Some {
        lemma_first_key(hello.key_shares->Some_0@);
    }
}

/// The additional data is had exactly if the message carries the session ID, and is then the
/// message with the session ID blanked.
pub proof fn law_aad_is_the_message_blanked(
    raw: &[u8],
    session_id: &[u8],
    res: Result<Vec<u8>, RealityServerError>,
)
    requires
        call_ensures(reality_aad_from_raw, (raw, session_id), res),
    ensures
        res is Ok <==> carries(raw@, session_id@),
        res matches Ok(aad) ==> blanked(raw@, session_id@.len(), aad@),
        res matches Err(e) ==> e is InvalidClientHelloEncoding,
{
    lemma_aad(raw@, session_id@);
}

/// The first share that holds a key gives `first_x25519` its value.
pub(crate) proof fn lemma_first_key(shares: Seq<KeyShareEntry>)
    ensures
        ({
            let found = first_x25519(shares.map_values(|share: KeyShareEntry| share@));
            &&& found is None <==> no_key(shares)
            &&& forall|i: int, key: Seq<u8>| #[trigger]
                first_key_at(shares, i, key) ==> found == Some(key)
            &&& found matches Some(key) ==> exists|i: int| first_key_at(shares, i, key)
        }),
    decreases shares.len(),
{
    let views = shares.map_values(|share: KeyShareEntry| share@);
    let found = first_x25519(views);
    if shares.len() > 0 {
        let rest = shares.skip(1);
        assert(views.skip(1) =~= rest.map_values(|share: KeyShareEntry| share@));
        lemma_first_key(rest);
        assert(holds_key(shares[0]) <==> views[0].x25519() is Some);
        if holds_key(shares[0]) {
            let key = views[0].x25519()->Some_0;
            assert(first_key_at(shares, 0, key));
            assert forall|i: int, other: Seq<u8>| #[trigger]
                first_key_at(shares, i, other) implies found == Some(other) by {
                assert(i == 0);
                assert(other =~= key);
            }
        } else {
            assert forall|i: int, key: Seq<u8>| #[trigger]
                first_key_at(shares, i, key) implies found == Some(key) by {
                assert forall|j: int| 0 <= j < i - 1 implies !holds_key(#[trigger] rest[j]) by {
                    assert(!holds_key(shares[j + 1]));
                }
                assert(first_key_at(rest, i - 1, key));
            }
            if found is Some {
                let key = found->Some_0;
                let i = choose|i: int| first_key_at(rest, i, key);
                assert forall|j: int| 0 <= j < i + 1 implies !holds_key(#[trigger] shares[j]) by {
                    if j > 0 {
                        assert(!holds_key(rest[j - 1]));
                    }
                }
                assert(first_key_at(shares, i + 1, key));
                assert(holds_key(shares[i + 1]));
            } else {
                assert forall|j: int| 0 <= j < shares.len() implies !holds_key(
                    #[trigger] shares[j],
                ) by {
                    if j > 0 {
                        assert(!holds_key(rest[j - 1]));
                    }
                }
            }
        }
    }
}

/// `aad_of` blanks the session ID of a message that carries it.
pub(crate) proof fn lemma_aad(raw: Seq<u8>, session_id: Seq<u8>)
    ensures
        aad_of(raw, session_id) is Some <==> carries(raw, session_id),
        aad_of(raw, session_id) matches Some(aad) ==> blanked(raw, session_id.len(), aad),
        forall|aad: Seq<u8>|
            carries(raw, session_id) && #[trigger] blanked(raw, session_id.len(), aad)
                ==> aad_of(raw, session_id) == Some(aad),
{
    let end = 39 + session_id.len();
    if raw.len() >= end {
        let part = raw.subrange(39, end as int);
        if carries(raw, session_id) {
            assert(part =~= session_id);
            assert forall|aad: Seq<u8>| #[trigger]
                blanked(raw, session_id.len(), aad) implies aad_of(raw, session_id) == Some(
                aad,
            ) by {
                assert(aad =~= aad_of(raw, session_id)->Some_0);
            }
        }
        if part == session_id {
            assert forall|j: int| 0 <= j < session_id.len() implies #[trigger] session_id[j]
                == raw[39 + j] by {
                assert(part[j] == raw[39 + j]);
            }
        }
    }
}

} // verus!
