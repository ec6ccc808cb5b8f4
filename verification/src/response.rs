//! Response decoders for the payload shapes that need no JSON: nothing,
//! raw bytes, or lossy text. JSON payloads are decoded by the transport
//! layer outside this crate, next to its serializer.

use vstd::prelude::*;

verus! {

/// The characters `String::from_utf8_lossy` decodes from `bytes`: UTF-8
/// with each invalid sequence replaced. A function of the bytes alone.
pub uninterp spec fn lossy_utf8_of(bytes: Seq<u8>) -> Seq<char>;

/// Decoder for calls whose response body is ignored.
#[derive(Debug, Clone, Copy)]
pub struct NoResponse {}

impl NoResponse {
    /// Ignore the body.
    pub fn from_body(_body: &[u8]) -> (r: ()) {
    }
}

/// Decoder for calls answered with plain text.
#[derive(Debug, Clone, Copy)]
pub struct StringResponse {}

impl StringResponse {
    /// Relies on `String::from_utf8_lossy`: decodes the bytes as UTF-8,
    /// substituting the replacement character for invalid sequences; the
    /// result depends on the bytes alone, and no bytes decode to no text.
    #[verifier::external_body]
    pub fn from_body(body: &[u8]) -> (r: String)
        ensures
            r@ == lossy_utf8_of(body@),
            body@.len() == 0 ==> r@.len() == 0,
    {
        String::from_utf8_lossy(body).to_string()
    }
}

/// Decoder for calls answered with raw bytes (attachment downloads).
#[derive(Debug, Clone, Copy)]
pub struct BinaryResponse {}

impl BinaryResponse {
    /// Hand the body back unchanged.
    pub fn from_body(body: &[u8]) -> (r: Vec<u8>)
        ensures
            r@ == body@,
    {
        vstd::slice::slice_to_vec(body)
    }
}

} // verus!
