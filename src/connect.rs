//! The connection request that opens a streaming session: the service's
//! endpoint with its fixed audio parameters, and the credential's header.
use vstd::prelude::*;
use vstd::string::*;
use crate::error::SessionError;

verus! {

/// The streaming endpoint, with linear 16-bit PCM at 16 kHz, punctuation and
/// interim results.
pub open spec fn listen_url() -> Seq<char> {
    "wss://api.deepgram.com/v1/listen?encoding=linear16&sample_rate=16000&punctuate=true&interim_results=true"@
}

/// The text put before the credential in the authorization header.
pub open spec fn token_prefix() -> Seq<char> {
    "Token "@
}

/// What the caller is told when no credential is configured.
pub open spec fn missing_credential_text() -> Seq<char> {
    "Missing DEEPGRAM_API_KEY"@
}

/// What the caller is told when the credential cannot stand in a header.
pub open spec fn unusable_credential_text() -> Seq<char> {
    "DEEPGRAM_API_KEY holds characters that a header value cannot carry"@
}

/// A character that a header value may hold: a tab, or anything but the
/// other control characters and DEL. (Characters past ASCII are encoded as
/// bytes of 128 and over, which a header value accepts.)
pub open spec fn header_char(c: char) -> bool {
    c == '\t' || (c as u32 >= 32 && c as u32 != 127)
}

/// Text that can stand in a header value.
pub open spec fn header_safe(s: Seq<char>) -> bool {
    forall|i: int| 0 <= i < s.len() ==> header_char(#[trigger] s[i])
}

/// What is needed to open the connection.
pub struct ConnectRequest {
    /// The endpoint to connect to.
    pub url: String,
    /// The value of the authorization header.
    pub authorization: String,
}

/// Whether `s` can stand in a header value.
pub fn is_header_safe(s: &str) -> (r: bool)
    ensures
        r == header_safe(s@),
{
    let n = s.unicode_len();
    let mut i: usize = 0;
    while i < n
        invariant
            i <= n,
            n == s@.len(),
            forall|j: int| 0 <= j < i ==> header_char(#[trigger] s@[j]),
        decreases n - i,
    {
        let c = s.get_char(i);
        if !(c == '\t' || (c as u32 >= 32 && c as u32 != 127)) {
            return false;
        }
        i = i + 1;
    }
    true
}

/// Builds the request for a new session from the configured credential, or
/// fails with a configuration error when there is none or it cannot stand in
/// a header. Nothing is sent: a failure here means no connection is tried.
pub fn connect_request(credential: Option<String>) -> (r: Result<ConnectRequest, SessionError>)
    ensures
        credential is None ==> (r matches Err(SessionError::ConfigError(m)) && m@
            == missing_credential_text()),
        credential matches Some(key) ==> (r is Ok <==> header_safe(key@)),
        credential matches Some(key) && !header_safe(key@) ==> (r matches Err(
            SessionError::ConfigError(m),
        ) && m@ == unusable_credential_text()),
        r matches Ok(req) ==> req.url@ == listen_url() && req.authorization@ == token_prefix()
            + credential->0@,
{
    match credential {
        None => Err(SessionError::ConfigError(String::from_str("Missing DEEPGRAM_API_KEY"))),
        Some(key) => {
            if !is_header_safe(key.as_str()) {
                return Err(
                    SessionError::ConfigError(
                        String::from_str(
                            "DEEPGRAM_API_KEY holds characters that a header value cannot carry",
                        ),
                    ),
                );
            }
            let url = String::from_str(
                "wss://api.deepgram.com/v1/listen?encoding=linear16&sample_rate=16000&punctuate=true&interim_results=true",
            );
            let authorization = String::from_str("Token ").concat(key.as_str());
            Ok(ConnectRequest { url, authorization })
        },
    }
}

} // verus!
