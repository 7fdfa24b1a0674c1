//! Per-request metadata: the parsed `X-Admin-Auth` header outcome.
//!
//! The extractor classifies the raw header bytes once, eagerly, and keeps
//! the outcome as data. The outcome is consulted only when the call turns
//! out to target a protected method, so a malformed header never affects
//! calls to unprotected methods.

use vstd::prelude::*;

verus! {

/// Failure to decode the auth header as text.
#[derive(Debug, PartialEq, Eq, Structural)]
pub enum Error {
    AdminAuthHeaderParserError,
}

/// The message shown when the auth header holds bytes that are not visible ASCII.
pub open spec fn parser_error_message() -> Seq<char> {
    "X-Admin-Auth header value must contain only visible ASCII characters"@
}

impl Error {
    /// The human-readable description of this error.
    pub fn message(&self) -> (m: String)
        ensures
            m@ == parser_error_message(),
    {
        "X-Admin-Auth header value must contain only visible ASCII characters".to_owned()
    }
}

/// Metadata attached to one request: the auth header outcome.
///
/// `None` means the header was absent; `Some(Ok(v))` holds the decoded
/// header text; `Some(Err(_))` records that the header was present but
/// not decodable.
#[derive(Debug, PartialEq, Eq)]
pub struct RpcMeta {
    pub auth: Option<Result<String, Error>>,
}

impl Clone for Error {
    fn clone(&self) -> (r: Self)
        ensures
            r == *self,
    {
        Error::AdminAuthHeaderParserError
    }
}

impl Clone for RpcMeta {
    fn clone(&self) -> (r: Self)
        ensures
            r == *self,
    {
        RpcMeta {
            auth: match &self.auth {
                None => None,
                Some(Ok(v)) => Some(Ok(v.clone())),
                Some(Err(e)) => Some(Err(e.clone())),
            },
        }
    }
}

/// A byte a header value may hold and still decode as text: visible ASCII
/// (including space) or horizontal tab.
pub open spec fn is_visible_ascii_byte(b: u8) -> bool {
    (32 <= b && b < 127) || b == 9
}

/// Whether every byte of the header value is visible ASCII.
pub open spec fn all_visible_ascii(bytes: Seq<u8>) -> bool {
    forall|i: int| 0 <= i < bytes.len() ==> is_visible_ascii_byte(#[trigger] bytes[i])
}

/// The text that a run of ASCII bytes decodes to: each byte read as the
/// character with the same code point.
pub open spec fn decode_ascii(bytes: Seq<u8>) -> Seq<char> {
    bytes.map_values(|b: u8| b as char)
}

/// Relies on `String::from_utf8`: ASCII bytes are valid UTF-8, and each
/// decodes to the character with the same code point.
#[verifier::external_body]
fn ascii_bytes_to_string(bytes: &Vec<u8>) -> (s: String)
    requires
        all_visible_ascii(bytes@),
    ensures
        s@ == decode_ascii(bytes@),
{
    match String::from_utf8(bytes.clone()) {
        Ok(s) => s,
        Err(_) => String::new(),
    }
}

/// Whether every byte of the value is visible ASCII.
fn is_all_visible_ascii(bytes: &Vec<u8>) -> (r: bool)
    ensures
        r == all_visible_ascii(bytes@),
{
    let mut i: usize = 0;
    while i < bytes.len()
        invariant
            i <= bytes@.len(),
            forall|j: int| 0 <= j < i ==> is_visible_ascii_byte(#[trigger] bytes@[j]),
        decreases bytes@.len() - i,
    {
        let b = bytes[i];
        if !((32 <= b && b < 127) || b == 9) {
            return false;
        }
        i = i + 1;
    }
    true
}

/// Builds the metadata for one request from the raw auth header value,
/// if one was sent.
///
/// An absent header is not an error. A present header decodes to its text
/// when every byte is visible ASCII, and to a parse error otherwise; the
/// error is kept as data and surfaced later, if at all.
pub fn extract_metadata(header: Option<&Vec<u8>>) -> (m: RpcMeta)
    ensures
        match header {
            None => m.auth is None,
            Some(bytes) => {
                if all_visible_ascii(bytes@) {
                    m.auth matches Some(Ok(v)) && v@ == decode_ascii(bytes@)
                } else {
                    m.auth == Some(Err::<String, Error>(Error::AdminAuthHeaderParserError))
                }
            },
        },
{
    match header {
        None => RpcMeta { auth: None },
        Some(bytes) => {
            if is_all_visible_ascii(bytes) {
                RpcMeta { auth: Some(Ok(ascii_bytes_to_string(bytes))) }
            } else {
                RpcMeta { auth: Some(Err(Error::AdminAuthHeaderParserError)) }
            }
        },
    }
}

} // verus!
