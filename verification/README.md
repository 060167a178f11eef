# reality_server

The server side of REALITY authentication, written and proved in Verus.

A REALITY client seals its version, its clock and a short ID into the 32-byte
`session_id` of a TLS ClientHello. The server

1. checks the server name, the session ID, the key share and the encoding,
2. derives the key by X25519 and HKDF-SHA256,
3. opens the session ID with AES-256-GCM over the message with the session ID zeroed,
4. applies its bounds on client version, short ID and clock skew, and
5. answers with an Ed25519 certificate that ends in `HMAC-SHA512(auth_key, public_key)`.

## Layout

| Module     | Holds                                                          |
|------------|----------------------------------------------------------------|
| `config`   | `RealityServerConfig` and its builders                         |
| `hello`    | `ClientHello`, key shares, the additional data of the seal     |
| `session`  | the opened session ID and the bounds applied to it             |
| `auth`     | `authenticate_reality_client_hello` and its steps              |
| `cert`     | the certificate template and `mint_reality_certified_key`      |
| `resolver` | `RealityServerCertResolver`                                    |
| `time`     | spans, points in time, clocks                                  |
| `error`    | `RealityServerError` and its texts                             |
| `crypto`   | the calls into `aws_lc_rs`                                     |
| `laws`     | what holds of the library as a whole                           |

The calls into other crates are believed to do what their contracts say, not proved: those into
`aws_lc_rs` in `crypto`, and the one that reads the wall clock in `time`.

`app/` adds what Verus does not take: error traits, clocks behind a pointer, and a resolver that
connections share.
