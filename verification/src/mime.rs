//! Classification of a request's declared MIME type.

use vstd::prelude::*;
use vstd::string::StringSliceAdditionalSpecFns;

verus! {

/// The declared content type of a save request, as far as the handler
/// distinguishes it.
#[derive(Clone, Copy, Debug, PartialEq, Eq, Structural)]
pub enum FileType {
    /// The payload is to be re-encoded as AVIF before writing.
    Avif,
    /// The payload is to be re-encoded as JPEG XL before writing.
    JpegXl,
    /// Any other declared type: the payload is written unchanged.
    Other,
}

/// The classification of a declared type, on the decoded bytes of the
/// type header.
pub open spec fn classify(t: Seq<u8>) -> FileType {
    if t == "image/avif".spec_bytes() {
        FileType::Avif
    } else if t == "image/jpeg-xl".spec_bytes() {
        FileType::JpegXl
    } else {
        FileType::Other
    }
}

/// Compare two byte slices for equality.
fn bytes_eq(a: &[u8], b: &[u8]) -> (r: bool)
    ensures
        r == (a@ == b@),
{
    if a.len() != b.len() {
        return false;
    }
    let mut i: usize = 0;
    while i < a.len()
        invariant
            i <= a@.len(),
            a@.len() == b@.len(),
            forall|j: int| 0 <= j < i ==> a@[j] == b@[j],
        decreases a@.len() - i,
    {
        if a[i] != b[i] {
            return false;
        }
        i += 1;
    }
    proof {
        assert(a@ =~= b@);
    }
    true
}

/// Classify the decoded bytes of the declared-type header.
pub fn classify_file_type(t: &Vec<u8>) -> (r: FileType)
    ensures
        r == classify(t@),
{
    if bytes_eq(t.as_slice(), "image/avif".as_bytes()) {
        FileType::Avif
    } else if bytes_eq(t.as_slice(), "image/jpeg-xl".as_bytes()) {
        FileType::JpegXl
    } else {
        FileType::Other
    }
}

} // verus!
