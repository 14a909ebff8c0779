//! Base64 encoding and decoding, named but not restated: the encoded text is
//! a function of the input bytes alone, and the decoder's result a function
//! of the input text alone.
use vstd::prelude::*;

use base64::prelude::{Engine as _, BASE64_STANDARD};

verus! {

/// The standard base64 encoding of `bytes`.
pub uninterp spec fn b64_of(bytes: Seq<u8>) -> Seq<char>;

/// What standard base64 decoding yields for `s`: the decoded bytes, or
/// nothing when `s` is not valid base64.
pub uninterp spec fn b64_decoding(s: Seq<char>) -> Option<Seq<u8>>;

/// Relies on `base64::engine::Engine::encode` with the standard alphabet:
/// the result depends on the input bytes alone; empty input encodes to the
/// empty string.
#[verifier::external_body]
pub(crate) fn b64_encode(data: &[u8]) -> (r: String)
    ensures
        r@ == b64_of(data@),
        data@.len() == 0 ==> r@.len() == 0,
{
    BASE64_STANDARD.encode(data)
}

/// Relies on `base64::engine::Engine::decode` with the standard alphabet:
/// succeeds exactly when the text is valid padded base64, and the result
/// depends on the text alone. The error text is the decoder's own.
#[verifier::external_body]
pub(crate) fn b64_decode(s: &str) -> (r: Result<Vec<u8>, String>)
    ensures
        r is Ok <==> b64_decoding(s@) is Some,
        r matches Ok(v) ==> b64_decoding(s@) == Some(v@),
{
    BASE64_STANDARD.decode(s).map_err(|e| e.to_string())
}

} // verus!
