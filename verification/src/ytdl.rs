//! Reading the resolver's answer.
//!
//! A remote locator is resolved by an external process that prints the
//! media's metadata as one JSON document. The caller runs the process
//! (built on `pipeline::resolver_args`) and hands the captured output
//! here; the streamable URL is the string under the document's `url` key.

use vstd::prelude::*;

use crate::errors::PlaybackError;

verus! {

/// The string under the `url` key of a JSON document, when the bytes parse
/// as a JSON object that has one: a function of the bytes alone.
pub uninterp spec fn json_stream_url(b: Seq<u8>) -> Option<Seq<char>>;

/// Relies on `serde_json::from_slice` and `serde_json::Value`: parses the
/// resolver's output and moves out the string under its `url` key.
#[verifier::external_body]
fn extract_stream_url(out: &[u8]) -> (r: Option<String>)
    ensures
        r matches Some(u) ==> json_stream_url(out@) == Some(u@),
        r is None ==> json_stream_url(out@) is None,
{
    match serde_json::from_slice::<serde_json::Value>(out) {
        Ok(serde_json::Value::Object(mut m)) => match m.remove("url") {
            Some(serde_json::Value::String(u)) => Some(u),
            _ => None,
        },
        _ => None,
    }
}

/// Interpret what the resolver process produced: its exit status and its
/// captured standard output. A failed run, output that is not a JSON
/// object, a missing `url` key and a non-string `url` are all the same to
/// the item's requester: the locator did not resolve.
pub fn ytdl_url(status_success: bool, out: &[u8]) -> (r: Result<String, PlaybackError>)
    ensures
        !status_success ==> (r matches Err(e) && e == PlaybackError::Resolution),
        status_success ==> match r {
            Ok(u) => json_stream_url(out@) == Some(u@),
            Err(e) => e == PlaybackError::Resolution && json_stream_url(out@) is None,
        },
{
    if !status_success {
        return Err(PlaybackError::Resolution);
    }
    match extract_stream_url(out) {
        Some(u) => Ok(u),
        None => Err(PlaybackError::Resolution),
    }
}

} // verus!
