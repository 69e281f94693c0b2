//! The serializer/deserializer strategy.
//!
//! A codec converts a typed value into the byte payload of one frame and a
//! received payload back into a value; either direction may fail on its own.
//! [`JsonCodec`] carries string values as JSON text. One codec instance is
//! bound into each transport; a listener constructs a fresh instance per
//! accepted connection, so no codec state is ever shared across connections.

use crate::error::{Cause, TransportError};
use vstd::prelude::*;

verus! {

/// The JSON serialization of a string value: the byte sequence a codec
/// writes for it, a function of the characters alone.
pub uninterp spec fn json_string_bytes(s: Seq<char>) -> Seq<u8>;

#[verifier::external_type_specification]
#[verifier::external_body]
pub struct ExJsonError(serde_json::Error);

/// Relies on serde_json::to_vec: serializing a string writes its JSON text
/// into a byte vector, a result that depends on the characters alone.
/// Serializing into a byte vector cannot fail for a string: to_vec reports
/// an error only when a Serialize implementation fails or a map has
/// non-string keys, and String's does neither, so the error arm is never
/// taken.
#[verifier::external_body]
fn json_encode_string(v: &String) -> (r: Vec<u8>)
    ensures
        r@ == json_string_bytes(v@),
{
    match serde_json::to_vec(v) {
        Ok(bytes) => bytes,
        Err(_) => Vec::new(),
    }
}

/// Whether `r` decodes `bytes` faithfully: whenever `bytes` is the
/// serialization of some string, `r` holds exactly that string.
pub open spec fn decodes_faithfully(r: Result<String, serde_json::Error>, bytes: Seq<u8>) -> bool {
    forall|s: Seq<char>| bytes == json_string_bytes(s) ==> (r matches Ok(v) && v@ == s)
}

/// Relies on serde_json::from_slice: parsing the bytes that serde_json wrote
/// for a string yields exactly that string; other byte sequences may be
/// rejected with a parse error.
#[verifier::external_body]
fn json_decode_string(bytes: &Vec<u8>) -> (r: Result<String, serde_json::Error>)
    ensures
        decodes_faithfully(r, bytes@),
{
    serde_json::from_slice::<String>(bytes.as_slice())
}

/// A codec that carries string values as JSON text.
///
/// An instance holds no state shared with any other instance: constructing
/// one per connection keeps connections isolated from each other.
pub struct JsonCodec {}

impl JsonCodec {
    /// A freshly constructed codec instance.
    pub fn new() -> (c: JsonCodec) {
        JsonCodec {  }
    }

    /// Serializes one value into the payload bytes of a frame.
    pub fn encode(&self, v: &String) -> (r: Vec<u8>)
        ensures
            r@ == json_string_bytes(v@),
    {
        json_encode_string(v)
    }

    /// Deserializes one received frame payload.
    ///
    /// A payload that is the serialization of some string decodes back to
    /// exactly that string; any failure surfaces as a decode error.
    pub fn decode(&self, bytes: &Vec<u8>) -> (r: Result<String, TransportError>)
        ensures
            forall|s: Seq<char>| bytes@ == json_string_bytes(s) ==> (r matches Ok(v) && v@ == s),
            r matches Err(e) ==> e.cause == Cause::Decode,
    {
        match json_decode_string(bytes) {
            Ok(v) => Ok(v),
            Err(_) => Err(TransportError::decode()),
        }
    }
}

} // verus!
