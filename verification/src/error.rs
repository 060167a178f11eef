//! Errors of configuration and authentication.
use vstd::prelude::*;

verus! {

/// Errors from REALITY server configuration or authentication.
#[derive(Debug, PartialEq, Eq)]
#[non_exhaustive]
pub enum RealityServerError {
    /// Short ID longer than 8 bytes.
    ShortIdTooLong,
    /// Missing SNI or SNI not in the allow-list.
    ServerNameRejected,
    /// ClientHello lacked a usable X25519 key share.
    MissingX25519KeyShare,
    /// Session ID was not 32 bytes.
    InvalidSessionId,
    /// AES-GCM authentication failed.
    AuthDecryptFailed,
    /// Short ID was not accepted.
    ShortIdRejected,
    /// Client version outside configured range.
    ClientVersionRejected,
    /// Timestamp skew exceeded the configured maximum.
    TimestampRejected,
    /// Raw ClientHello bytes were missing or malformed for AAD reconstruction.
    InvalidClientHelloEncoding,
    /// Cryptographic helper failed.
    Crypto(String),
}

/// [`RealityServerError`] with the text of `Crypto` as a sequence of characters.
pub enum ErrorView {
    ShortIdTooLong,
    ServerNameRejected,
    MissingX25519KeyShare,
    InvalidSessionId,
    AuthDecryptFailed,
    ShortIdRejected,
    ClientVersionRejected,
    TimestampRejected,
    InvalidClientHelloEncoding,
    Crypto(Seq<char>),
}

impl View for RealityServerError {
    type V = ErrorView;

    open spec fn view(&self) -> ErrorView {
        match *self {
            RealityServerError::ShortIdTooLong => ErrorView::ShortIdTooLong,
            RealityServerError::ServerNameRejected => ErrorView::ServerNameRejected,
            RealityServerError::MissingX25519KeyShare => ErrorView::MissingX25519KeyShare,
            RealityServerError::InvalidSessionId => ErrorView::InvalidSessionId,
            RealityServerError::AuthDecryptFailed => ErrorView::AuthDecryptFailed,
            RealityServerError::ShortIdRejected => ErrorView::ShortIdRejected,
            RealityServerError::ClientVersionRejected => ErrorView::ClientVersionRejected,
            RealityServerError::TimestampRejected => ErrorView::TimestampRejected,
            RealityServerError::InvalidClientHelloEncoding => ErrorView::InvalidClientHelloEncoding,
            RealityServerError::Crypto(msg) => ErrorView::Crypto(msg@),
        }
    }
}

impl ErrorView {
    /// The text shown to an operator.
    pub open spec fn text(self) -> Seq<char> {
        match self {
            ErrorView::ShortIdTooLong => "REALITY short_id must be at most 8 bytes"@,
            ErrorView::ServerNameRejected => "REALITY server name rejected"@,
            ErrorView::MissingX25519KeyShare => "REALITY ClientHello missing X25519 key share"@,
            ErrorView::InvalidSessionId => "REALITY session_id must be 32 bytes"@,
            ErrorView::AuthDecryptFailed => "REALITY session_id decryption failed"@,
            ErrorView::ShortIdRejected => "REALITY short_id rejected"@,
            ErrorView::ClientVersionRejected => "REALITY client version rejected"@,
            ErrorView::TimestampRejected => "REALITY timestamp rejected"@,
            ErrorView::InvalidClientHelloEncoding => "REALITY ClientHello encoding invalid for AAD"@,
            ErrorView::Crypto(msg) => "REALITY crypto error: "@ + msg,
        }
    }
}

impl RealityServerError {
    /// The text shown to an operator.
    pub fn message(&self) -> (text: String)
        ensures
            text@ == self@.text(),
    {
        match self {
            RealityServerError::ShortIdTooLong => "REALITY short_id must be at most 8 bytes".to_string(),
            RealityServerError::ServerNameRejected => "REALITY server name rejected".to_string(),
            RealityServerError::MissingX25519KeyShare => {
                "REALITY ClientHello missing X25519 key share".to_string()
            },
            RealityServerError::InvalidSessionId => "REALITY session_id must be 32 bytes".to_string(),
            RealityServerError::AuthDecryptFailed => "REALITY session_id decryption failed".to_string(),
            RealityServerError::ShortIdRejected => "REALITY short_id rejected".to_string(),
            RealityServerError::ClientVersionRejected => "REALITY client version rejected".to_string(),
            RealityServerError::TimestampRejected => "REALITY timestamp rejected".to_string(),
            RealityServerError::InvalidClientHelloEncoding => {
                "REALITY ClientHello encoding invalid for AAD".to_string()
            },
            RealityServerError::Crypto(msg) => labelled("REALITY crypto error: ", msg.as_str()),
        }
    }
}

impl Clone for RealityServerError {
    fn clone(&self) -> (copy: Self)
        ensures
            copy@ == self@,
    {
        match self {
            RealityServerError::ShortIdTooLong => RealityServerError::ShortIdTooLong,
            RealityServerError::ServerNameRejected => RealityServerError::ServerNameRejected,
            RealityServerError::MissingX25519KeyShare => RealityServerError::MissingX25519KeyShare,
            RealityServerError::InvalidSessionId => RealityServerError::InvalidSessionId,
            RealityServerError::AuthDecryptFailed => RealityServerError::AuthDecryptFailed,
            RealityServerError::ShortIdRejected => RealityServerError::ShortIdRejected,
            RealityServerError::ClientVersionRejected => RealityServerError::ClientVersionRejected,
            RealityServerError::TimestampRejected => RealityServerError::TimestampRejected,
            RealityServerError::InvalidClientHelloEncoding => {
                RealityServerError::InvalidClientHelloEncoding
            },
            RealityServerError::Crypto(msg) => RealityServerError::Crypto(msg.clone()),
        }
    }
}

/// `label` followed by `detail`.
pub(crate) fn labelled(label: &str, detail: &str) -> (text: String)
    ensures
        text@ == label@ + detail@,
{
    let mut text = label.to_string();
    text.append(detail);
    text
}

} // verus!
