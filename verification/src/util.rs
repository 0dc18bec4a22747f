//! Payload encoding: values to JSON text in bytes, and back.
//!
//! Both functions hand the work to `serde_json`, for any type that `serde`
//! can serialise or deserialise. Verus does not look into either crate, so
//! what is stated here is taken on trust.

use vstd::prelude::*;
use vstd::utf8::valid_utf8;

verus! {

/// Why bytes could not be decoded.
#[derive(Debug, Clone, Copy, PartialEq, Eq, Structural)]
pub enum DecodeError {
    /// The bytes are not UTF-8 text.
    InvalidUtf8,
    /// The text is not JSON, or not JSON for the type asked for.
    Malformed,
}

/// Decodes `content` as the JSON text of a `T`.
///
/// Trusted: `String::from_utf8` followed by `serde_json::from_str`. The
/// first fails exactly on bytes that are not UTF-8, which is all the
/// contract states. Whether UTF-8 text decodes is up to `serde_json` and to
/// `T`'s implementation of `Deserialize`.
#[verifier::external_body]
pub fn deserialize_vec_8<T: serde::de::DeserializeOwned>(content: Vec<u8>) -> (decoded: Result<
    T,
    DecodeError,
>)
    ensures
        decoded matches Err(DecodeError::InvalidUtf8) <==> !valid_utf8(content@),
{
    match String::from_utf8(content) {
        Ok(text) => match serde_json::from_str(&text) {
            Ok(value) => Ok(value),
            Err(_) => Err(DecodeError::Malformed),
        },
        Err(_) => Err(DecodeError::InvalidUtf8),
    }
}

/// Encodes `content` as JSON text.
///
/// Trusted: `serde_json::to_vec`. `None` when `T`'s implementation of
/// `Serialize` reports an error or `content` holds a map whose keys are not
/// strings. All that is claimed of the bytes is that they are UTF-8:
/// `serde_json::to_string` hands the same bytes on as a `String` unchecked.
#[verifier::external_body]
pub fn serialize_vec_8<T: serde::Serialize>(content: T) -> (encoded: Option<Vec<u8>>)
    ensures
        encoded matches Some(bytes) ==> valid_utf8(bytes@),
{
    serde_json::to_vec(&content).ok()
}

} // verus!
