use vstd::prelude::*;
use vstd::string::*;
use flate2::read::GzDecoder;
use std::io::Read;
use crate::text::{lossy_text, utf8_lossy};

verus! {

/// What decoding a gzip payload gives: the bytes of its first member, or the
/// reason why it cannot be decoded.
pub uninterp spec fn gzip_decoding(data: Seq<u8>) -> Result<Seq<u8>, Seq<char>>;

/// The outcome of a decoding as the contracts see it.
pub open spec fn outcome_view(outcome: Result<Vec<u8>, String>) -> Result<Seq<u8>, Seq<char>> {
    match outcome {
        Ok(bytes) => Ok(bytes@),
        Err(reason) => Err(reason@),
    }
}

/// Decodes a gzip payload held in memory.
///
/// Trusted: `flate2::read::GzDecoder::new` over the slice, read to its end with
/// `Read::read_to_end`. Whether that succeeds, the bytes it gives and the text
/// of its error depend on the payload alone.
#[verifier::external_body]
pub(crate) fn gunzip(data: &[u8]) -> (r: Result<Vec<u8>, String>)
    ensures
        outcome_view(r) == gzip_decoding(data@),
{
    let mut decoded = Vec::new();
    match GzDecoder::new(data).read_to_end(&mut decoded) {
        Ok(_) => Ok(decoded),
        Err(e) => Err(e.to_string()),
    }
}

/// The text logged in place of a body that could not be decoded.
pub open spec fn error_marker(reason: Seq<char>) -> Seq<char> {
    "[GZIP DECODE ERROR: "@ + reason + "]"@
}

/// The text logged for an attempt at decoding: the decoded bytes read as
/// text, or the marker with the reason of the failure.
pub open spec fn decoding_text(outcome: Result<Seq<u8>, Seq<char>>) -> Seq<char> {
    match outcome {
        Ok(bytes) => utf8_lossy(bytes),
        Err(reason) => error_marker(reason),
    }
}

/// The response-body field of the log for a buffered body.
pub open spec fn response_text(gzip: bool, data: Seq<u8>) -> Seq<char> {
    if gzip {
        decoding_text(gzip_decoding(data))
    } else {
        utf8_lossy(data)
    }
}

/// The marker that stands for a body whose decoding failed with `reason`.
pub fn gzip_error_marker(reason: &str) -> (r: String)
    ensures
        r@ == error_marker(reason@),
{
    let mut out = String::from_str("[GZIP DECODE ERROR: ");
    out.append(reason);
    out.append("]");
    out
}

/// The logged text for the outcome of a decoding.
pub fn text_of_decoding(outcome: Result<Vec<u8>, String>) -> (r: String)
    ensures
        r@ == decoding_text(outcome_view(outcome)),
{
    match outcome {
        Ok(bytes) => lossy_text(bytes.as_slice()),
        Err(reason) => gzip_error_marker(reason.as_str()),
    }
}

/// The response-body field for a buffered body: decoded first where the
/// upstream sent it compressed. A failed decoding never fails this function;
/// it shows as the marker.
pub fn response_body_text(gzip: bool, data: &[u8]) -> (r: String)
    ensures
        r@ == response_text(gzip, data@),
{
    if gzip {
        text_of_decoding(gunzip(data))
    } else {
        lossy_text(data)
    }
}

} // verus!
