//! Base64 transcoding, through the `base64` crate.
//!
//! CDP carries screenshot bytes base64-encoded, and the redirect-page flow
//! embeds a small HTML page into a `data:` URL the same way. What the
//! engine computes is a pure function of its input, so both directions are
//! given a name here; the crate's contracts speak of those names, and the
//! logic around the calls is verified for every value they may take.

use vstd::prelude::*;

verus! {

/// The standard-alphabet, padded base64 encoding of `bytes`.
pub uninterp spec fn base64_encoding(bytes: Seq<u8>) -> Seq<char>;

/// The standard-alphabet, padded base64 decoding of `text`; `None` when
/// `text` is not valid base64.
pub uninterp spec fn base64_decoding(text: Seq<char>) -> Option<Seq<u8>>;

/// Relies on base64's `Engine::encode` with the STANDARD engine: the result
/// depends on the input bytes alone.
#[verifier::external_body]
pub fn base64_encode(bytes: &Vec<u8>) -> (r: String)
    ensures
        r@ == base64_encoding(bytes@),
{
    base64::Engine::encode(&base64::engine::general_purpose::STANDARD, bytes)
}

/// Relies on base64's `Engine::decode` with the STANDARD engine: the result
/// depends on the input text alone, and decoding fails exactly on input
/// that is not valid base64.
#[verifier::external_body]
pub fn base64_decode(text: &str) -> (r: Option<Vec<u8>>)
    ensures
        r is Some <==> base64_decoding(text@) is Some,
        r matches Some(bytes) ==> Some(bytes@) == base64_decoding(text@),
{
    base64::Engine::decode(&base64::engine::general_purpose::STANDARD, text).ok()
}

} // verus!
