//! Server side of REALITY authentication.
//!
//! A REALITY client hides a sealed token in the `session_id` of an ordinary TLS
//! ClientHello. The server opens the token, applies its policy to what it finds
//! inside, and answers with an Ed25519 certificate whose signature field carries
//! `HMAC-SHA512(auth_key, public_key)`.
pub mod auth;
mod bytes;
pub mod calls;
pub mod cert;
pub mod config;
pub mod crypto;
pub mod error;
pub mod hello;
pub mod laws;
pub mod resolver;
pub mod session;
pub mod time;

pub use auth::authenticate_reality_client_hello;
pub use cert::{mint_reality_certified_key, CertifiedKey};
pub use config::RealityServerConfig;
pub use crypto::SigningKey;
pub use error::RealityServerError;
pub use hello::{ClientHello, KeyShareEntry, NamedGroup};
pub use resolver::RealityServerCertResolver;
pub use session::RealityAuthResult;
pub use time::{DefaultTimeProvider, Duration, TimeProvider, UnixTime};
