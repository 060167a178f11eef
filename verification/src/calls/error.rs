//! Calls on an error.
use vstd::prelude::*;

use crate::error::RealityServerError;

verus! {

/// Each error has its text; that of a failed cryptographic helper ends in what the helper said.
pub proof fn law_errors_have_their_texts(error: RealityServerError, text: String)
    requires
        call_ensures(RealityServerError::message, (&error,), text),
    ensures
        error is ShortIdTooLong ==> text@ == "REALITY short_id must be at most 8 bytes"@,
        error is ServerNameRejected ==> text@ == "REALITY server name rejected"@,
        error is MissingX25519KeyShare ==> text@ == "REALITY ClientHello missing X25519 key share"@,
        error is InvalidSessionId ==> text@ == "REALITY session_id must be 32 bytes"@,
        error is AuthDecryptFailed ==> text@ == "REALITY session_id decryption failed"@,
        error is ShortIdRejected ==> text@ == "REALITY short_id rejected"@,
        error is ClientVersionRejected ==> text@ == "REALITY client version rejected"@,
        error is TimestampRejected ==> text@ == "REALITY timestamp rejected"@,
        error is InvalidClientHelloEncoding ==> text@
            == "REALITY ClientHello encoding invalid for AAD"@,
        error matches RealityServerError::Crypto(said) ==> text@ == "REALITY crypto error: "@
            + said@,
{
}

/// A copy of an error is the same error, with the same words of a failed helper.
pub proof fn law_error_copies_are_alike(error: RealityServerError, copy: RealityServerError)
    requires
        call_ensures(RealityServerError::clone, (&error,), copy),
    ensures
        copy is ShortIdTooLong <==> error is ShortIdTooLong,
        copy is ServerNameRejected <==> error is ServerNameRejected,
        copy is MissingX25519KeyShare <==> error is MissingX25519KeyShare,
        copy is InvalidSessionId <==> error is InvalidSessionId,
        copy is AuthDecryptFailed <==> error is AuthDecryptFailed,
        copy is ShortIdRejected <==> error is ShortIdRejected,
        copy is ClientVersionRejected <==> error is ClientVersionRejected,
        copy is TimestampRejected <==> error is TimestampRejected,
        copy is InvalidClientHelloEncoding <==> error is InvalidClientHelloEncoding,
        error matches RealityServerError::Crypto(said) ==> {
            &&& copy matches RealityServerError::Crypto(again)
            &&& again@ == said@
        },
{
}

} // verus!
