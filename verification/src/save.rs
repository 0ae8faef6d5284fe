//! The save-request handler's decision logic.
//!
//! A request arrives as a raw byte payload (or none, where the transport
//! handed something other than raw bytes) and two transport-encoded headers.
//! Planning a save decodes both headers, classifies the declared MIME type,
//! re-encodes the payload where the type asks for it, and yields the path to
//! write at together with the bytes to write. All failures collapse into one
//! undifferentiated error.

use vstd::prelude::*;
use vstd::utf8::valid_utf8;

use crate::headers::base64_decoded;
use crate::headers::decode_header;
use crate::headers::header_bytes;
use crate::headers::header_text;
use crate::headers::opt_bytes;
use crate::mime::classify;
use crate::mime::classify_file_type;
use crate::mime::FileType;
use crate::transcode::is_avif_with_dimensions;
use crate::transcode::jxl_encoding;
use crate::transcode::webp_decoded;
use crate::transcode::webp_to_avif;
use crate::transcode::webp_to_jxl;

verus! {

/// A fully decoded save request: where to write, and what to write there.
pub struct SavePlan {
    /// The destination path, decoded from the path header.
    pub path: String,
    /// The bytes to write at that path.
    pub bytes: Vec<u8>,
}

/// The body is a raw byte payload and both headers decode: each is present,
/// is valid base64, and its decoded bytes are valid UTF-8.
pub open spec fn request_ok(
    body: Option<Seq<u8>>,
    path_h: Option<Seq<u8>>,
    type_h: Option<Seq<u8>>,
) -> bool {
    &&& body is Some
    &&& header_text(path_h) is Some
    &&& header_text(type_h) is Some
}

/// The classification of a request's declared type, on the decoded bytes of
/// its type header.
pub open spec fn request_type(type_h: Option<Seq<u8>>) -> FileType {
    classify(header_bytes(type_h)->Some_0)
}

/// Decode a save request and produce the write it asks for.
///
/// `body` is the raw byte payload, or `None` where the transport handed
/// something other than raw bytes; the header arguments carry the raw header
/// values, or `None` where the header is missing. A declared type of
/// `image/avif` or `image/jpeg-xl` re-encodes the payload, which must then
/// be a valid WebP image; any other type passes the payload through
/// unchanged. For AVIF the encoder itself also decides success, so an error
/// is possible even on a decodable payload; a success is an AVIF container
/// that records the decoded payload's pixel dimensions.
pub fn plan_save_file(
    body: Option<Vec<u8>>,
    path_header: Option<Vec<u8>>,
    type_header: Option<Vec<u8>>,
) -> (r: Result<SavePlan, ()>)
    ensures
        r is Ok ==> request_ok(opt_bytes(body), opt_bytes(path_header), opt_bytes(type_header)),
        r is Ok ==> r->Ok_0.path@ == header_text(opt_bytes(path_header))->Some_0,
        ({
            let b = opt_bytes(body);
            let ph = opt_bytes(path_header);
            let th = opt_bytes(type_header);
            &&& (request_ok(b, ph, th) && request_type(th) is Other ==> r is Ok
                && r->Ok_0.bytes@ == b->Some_0)
            &&& (request_ok(b, ph, th) && request_type(th) is JpegXl ==> {
                &&& (r is Ok <==> (webp_decoded(b->Some_0) matches Some(t) && t.0 >= 2 && t.1
                    >= 2))
                &&& (r is Ok ==> ({
                    let t = webp_decoded(b->Some_0)->Some_0;
                    r->Ok_0.bytes@ == jxl_encoding(t.0, t.1, t.2)
                }))
            })
            &&& (request_ok(b, ph, th) && request_type(th) is Avif ==> {
                &&& (r is Ok ==> webp_decoded(b->Some_0) is Some)
                &&& (r is Ok ==> ({
                    let t = webp_decoded(b->Some_0)->Some_0;
                    is_avif_with_dimensions(r->Ok_0.bytes@, t.0, t.1)
                }))
                &&& (webp_decoded(b->Some_0) is None ==> r is Err)
            })
        }),
{
    let payload = match body {
        Option::Some(data) => data,
        Option::None => return Err(()),
    };
    let (_path_bytes, path) = match decode_header(&path_header) {
        Ok(p) => p,
        Err(()) => return Err(()),
    };
    let (type_bytes, _type_text) = match decode_header(&type_header) {
        Ok(t) => t,
        Err(()) => return Err(()),
    };
    match classify_file_type(&type_bytes) {
        FileType::Avif => match webp_to_avif(&payload) {
            Ok(bytes) => Ok(SavePlan { path, bytes }),
            Err(()) => Err(()),
        },
        FileType::JpegXl => match webp_to_jxl(&payload) {
            Ok(bytes) => Ok(SavePlan { path, bytes }),
            Err(()) => Err(()),
        },
        FileType::Other => Ok(SavePlan { path, bytes: payload }),
    }
}

/// A request that misses either header fails: it is never well-formed, so
/// planning a save for it returns an error.
pub proof fn lemma_missing_header_fails(
    body: Option<Seq<u8>>,
    path_h: Option<Seq<u8>>,
    type_h: Option<Seq<u8>>,
)
    requires
        path_h is None || type_h is None,
    ensures
        !request_ok(body, path_h, type_h),
{
}

/// A header whose decoded value is not valid UTF-8 fails: the header carries
/// no text, so a request with such a header is never well-formed.
pub proof fn lemma_non_utf8_header_fails(h: Option<Seq<u8>>)
    requires
        h is Some,
        base64_decoded(h->Some_0) matches Some(b) && !valid_utf8(b),
    ensures
        header_text(h) is None,
{
}

/// A body that is not a raw byte payload fails: such a request is never
/// well-formed.
pub proof fn lemma_non_raw_body_fails(
    path_h: Option<Seq<u8>>,
    type_h: Option<Seq<u8>>,
)
    ensures
        !request_ok(Option::None, path_h, type_h),
{
}

} // verus!
