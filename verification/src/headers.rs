//! Decoding of the transport-encoded request headers.
//!
//! Each header value arrives base64-encoded; its decoded bytes must in turn
//! be valid UTF-8 text. A header that is missing, that is not valid base64,
//! or whose decoded bytes are not valid UTF-8 makes the request fail.

use vstd::prelude::*;
use vstd::utf8::decode_utf8;
use vstd::utf8::valid_utf8;

verus! {

/// The byte sequence carried by an optional byte vector.
pub open spec fn opt_bytes(h: Option<Vec<u8>>) -> Option<Seq<u8>> {
    match h {
        Option::Some(v) => Option::Some(v@),
        Option::None => Option::None,
    }
}

/// What base64 decoding with the standard alphabet returns on the given
/// input: the decoded bytes, or `None` where the input is not valid
/// standard base64. The result depends on the input alone.
pub uninterp spec fn base64_decoded(s: Seq<u8>) -> Option<Seq<u8>>;

/// Relies on base64::Engine::decode with base64::prelude::BASE64_STANDARD:
/// standard-alphabet, padded base64 decoding that rejects malformed input.
#[verifier::external_body]
fn b64_decode(s: &Vec<u8>) -> (r: Result<Vec<u8>, ()>)
    ensures
        r is Ok <==> base64_decoded(s@) is Some,
        r is Ok ==> r->Ok_0@ == base64_decoded(s@)->Some_0,
{
    match base64::Engine::decode(&base64::prelude::BASE64_STANDARD, s.as_slice()) {
        Ok(v) => Ok(v),
        Err(_) => Err(()),
    }
}

/// Relies on String::from_utf8: it succeeds exactly on valid UTF-8 and
/// returns the string whose characters decode those bytes.
#[verifier::external_body]
fn utf8_to_string(v: Vec<u8>) -> (r: Result<String, ()>)
    ensures
        r is Ok <==> valid_utf8(v@),
        r is Ok ==> r->Ok_0@ == decode_utf8(v@),
{
    match String::from_utf8(v) {
        Ok(s) => Ok(s),
        Err(_) => Err(()),
    }
}

/// The decoded bytes of a transport-encoded header: the header is present
/// and its value is valid base64.
pub open spec fn header_bytes(h: Option<Seq<u8>>) -> Option<Seq<u8>> {
    match h {
        Option::Some(raw) => base64_decoded(raw),
        Option::None => Option::None,
    }
}

/// The text of a transport-encoded header: the header is present, its value
/// is valid base64, and the decoded bytes are valid UTF-8.
pub open spec fn header_text(h: Option<Seq<u8>>) -> Option<Seq<char>> {
    match header_bytes(h) {
        Option::Some(b) => if valid_utf8(b) {
            Option::Some(decode_utf8(b))
        } else {
            Option::None
        },
        Option::None => Option::None,
    }
}

/// Decode one header value: base64 first, then UTF-8. Returns the decoded
/// bytes together with the decoded text.
pub fn decode_header(h: &Option<Vec<u8>>) -> (r: Result<(Vec<u8>, String), ()>)
    ensures
        r is Ok <==> header_text(opt_bytes(*h)) is Some,
        r is Ok ==> r->Ok_0.0@ == header_bytes(opt_bytes(*h))->Some_0,
        r is Ok ==> r->Ok_0.1@ == header_text(opt_bytes(*h))->Some_0,
{
    match h {
        Option::Some(raw) => {
            let bytes = match b64_decode(raw) {
                Ok(b) => b,
                Err(()) => return Err(()),
            };
            let copy = bytes.clone();
            match utf8_to_string(copy) {
                Ok(text) => Ok((bytes, text)),
                Err(()) => Err(()),
            }
        },
        Option::None => Err(()),
    }
}

} // verus!
