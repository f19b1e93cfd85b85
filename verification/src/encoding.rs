//! Payload encoding at the API boundary: UTF-8 with a silent base64
//! fallback for bytes that are not valid UTF-8.

use vstd::prelude::*;

use base64::Engine;

use crate::errors::{ApiError, ApiResult, ErrorCode};
use crate::session::Encoding;
use vstd::string::StringSliceAdditionalSpecFns;

verus! {

/// The standard-alphabet base64 encoding of `bytes`, a function of the
/// bytes alone.
pub uninterp spec fn base64_encoding(bytes: Seq<u8>) -> Seq<char>;

/// What standard-alphabet base64 decoding makes of `text`: `None` exactly
/// when the text is not well-formed base64.
pub uninterp spec fn base64_decoding(text: Seq<char>) -> Option<Seq<u8>>;

/// Relies on base64's STANDARD engine encode: the encoding is a function of
/// the bytes alone, and decoding it with the same engine returns the bytes.
/// The length bound keeps the engine's output-size calculation, four
/// characters for every three bytes, within `usize`.
#[verifier::external_body]
fn b64_encode(bytes: &[u8]) -> (r: String)
    requires
        bytes@.len() <= usize::MAX / 2,
    ensures
        r@ == base64_encoding(bytes@),
        base64_decoding(r@) == Some(bytes@),
{
    base64::engine::general_purpose::STANDARD.encode(bytes)
}

/// Relies on base64's STANDARD engine decode: it accepts exactly the
/// well-formed base64 strings, and the decoding is a function of the text
/// alone.
#[verifier::external_body]
fn b64_decode(text: &str) -> (r: Option<Vec<u8>>)
    ensures
        r is Some <==> base64_decoding(text@) is Some,
        r is Some ==> Some(r.unwrap()@) == base64_decoding(text@),
{
    base64::engine::general_purpose::STANDARD.decode(text.as_bytes()).ok()
}

/// Relies on str::from_utf8: it accepts exactly the valid UTF-8 byte
/// sequences, and decodes them to the characters they encode.
#[verifier::external_body]
fn utf8_text(bytes: &[u8]) -> (r: Option<String>)
    ensures
        r is Some <==> vstd::utf8::valid_utf8(bytes@),
        r is Some ==> r.unwrap()@ == vstd::utf8::decode_utf8(bytes@),
{
    std::str::from_utf8(bytes).ok().map(|text| text.to_string())
}

/// Encode an output chunk for the caller: UTF-8 when requested and the
/// bytes allow it, otherwise base64.  The returned encoding is the one
/// actually used.
pub fn encode_chunk(bytes: &[u8], requested: Encoding) -> (r: (String, Encoding))
    requires
        bytes@.len() <= usize::MAX / 2,
    ensures
        requested == Encoding::Base64 ==> r.1 == Encoding::Base64,
        requested == Encoding::Utf8 && vstd::utf8::valid_utf8(bytes@) ==> r.1 == Encoding::Utf8
            && r.0@ == vstd::utf8::decode_utf8(bytes@),
        r.1 == Encoding::Base64 ==> r.0@ == base64_encoding(bytes@) && base64_decoding(r.0@)
            == Some(bytes@),
        requested == Encoding::Utf8 && !vstd::utf8::valid_utf8(bytes@) ==> r.1
            == Encoding::Base64,
{
    match requested {
        Encoding::Base64 => (b64_encode(bytes), Encoding::Base64),
        Encoding::Utf8 => match utf8_text(bytes) {
            Some(text) => (text, Encoding::Utf8),
            None => (b64_encode(bytes), Encoding::Base64),
        },
    }
}

/// Decode a write payload.  UTF-8 payloads pass through as their bytes;
/// base64 payloads must be well-formed or the write is refused with
/// `invalid_argument`.
pub fn decode_payload(data: &str, encoding: Encoding) -> (r: ApiResult<Vec<u8>>)
    ensures
        encoding == Encoding::Utf8 ==> r is Ok && r.unwrap()@ == data.spec_bytes(),
        encoding == Encoding::Base64 ==> ((r is Ok <==> base64_decoding(data@) is Some) && (
        r is Ok ==> Some(r.unwrap()@) == base64_decoding(data@))),
        r is Err ==> r.unwrap_err().error_code == ErrorCode::InvalidArgument
            && r.unwrap_err().message@ == "Invalid base64"@,
{
    match encoding {
        Encoding::Utf8 => Ok(vstd::slice::slice_to_vec(data.as_bytes())),
        Encoding::Base64 => match b64_decode(data) {
            Some(bytes) => Ok(bytes),
            None => Err(ApiError::new(ErrorCode::InvalidArgument, "Invalid base64".to_owned())),
        },
    }
}

} // verus!
