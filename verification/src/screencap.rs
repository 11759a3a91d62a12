//! Cached-image retrieval: the native layer fills an image buffer the
//! caller created; whatever happened, that buffer is owed exactly one
//! release. The encoded bytes are carried to the UI as a base64 data URL.

use base64::Engine;
use vstd::prelude::*;
use vstd::string::StringExecFns;

use crate::registry::ReleaseAction;
use crate::types::MaaError;

verus! {

/// The base64 text of the bytes, under the standard alphabet with padding.
pub uninterp spec fn base64_of(bytes: Seq<u8>) -> Seq<char>;

/// Relies on base64's STANDARD engine: alphabet and padding are fixed, so
/// the encoding is a pure function of the input bytes, four characters per
/// three-byte group, padded; it panics only when the output length
/// overflows, which the bound on the input excludes.
#[verifier::external_body]
fn base64_encode(data: &Vec<u8>) -> (r: String)
    requires
        data@.len() < 0x4000000000000000,
    ensures
        r@ == base64_of(data@),
        r@.len() == 4 * ((data@.len() + 2) / 3),
{
    base64::engine::general_purpose::STANDARD.encode(data.as_slice())
}

/// Turns the outcome of a cached-image fetch into the caller's answer.
/// Whatever the outcome — fetch refused, no encoded data, or success — the
/// native buffer is owed exactly one release. On success the answer is the
/// encoded bytes as a base64 data URL.
pub fn cached_image_outcome(buffer: u64, fetched_ok: bool, encoded: Option<Vec<u8>>) -> (r: (
    Vec<ReleaseAction>,
    Result<String, MaaError>,
))
    requires
        buffer != 0,
        encoded matches Some(d) ==> d@.len() < 0x4000000000000000,
    ensures
        r.0@ == seq![ReleaseAction::DestroyImageBuffer(buffer)],
        !fetched_ok ==> r.1 == Err::<String, MaaError>(MaaError::CachedImageFailed),
        fetched_ok && (encoded is None || (encoded matches Some(d) && d@.len() == 0)) ==> r.1
            == Err::<String, MaaError>(MaaError::NoImageData),
        fetched_ok && (encoded matches Some(d) && d@.len() > 0) ==> (r.1 matches Ok(s) && s@
            == "data:image/png;base64,"@ + base64_of(encoded->0@)),
{
    let mut actions: Vec<ReleaseAction> = Vec::new();
    actions.push(ReleaseAction::DestroyImageBuffer(buffer));
    proof {
        assert(actions@ =~= seq![ReleaseAction::DestroyImageBuffer(buffer)]);
    }
    if !fetched_ok {
        return (actions, Err(MaaError::CachedImageFailed));
    }
    match encoded {
        None => (actions, Err(MaaError::NoImageData)),
        Some(d) => {
            if d.len() == 0 {
                (actions, Err(MaaError::NoImageData))
            } else {
                let b64 = base64_encode(&d);
                let mut s = String::from_str("data:image/png;base64,");
                s.append(b64.as_str());
                (actions, Ok(s))
            }
        },
    }
}

} // verus!
