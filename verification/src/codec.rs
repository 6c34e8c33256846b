//! Base58 and base64 text codecs, named and wrapped.
//!
//! The gateway never inspects encoded text itself: addresses, secret keys
//! and instruction bytes travel through `bs58` and `base64`.  Each codec's
//! result is a function of its input alone, so it is given a name here, and
//! the wrappers state the inverse laws the contracts rely on.

use base64::Engine;
use vstd::prelude::*;

verus! {

/// The base58 encoding (Bitcoin alphabet) of a byte string.
pub uninterp spec fn base58_encoding(b: Seq<u8>) -> Seq<char>;

/// The base58 decoding of a text, `None` where a character is outside the
/// alphabet.
pub uninterp spec fn base58_decoding(s: Seq<char>) -> Option<Seq<u8>>;

/// The standard base64 encoding (with padding) of a byte string.
pub uninterp spec fn base64_encoding(b: Seq<u8>) -> Seq<char>;

/// The standard base64 decoding of a text, `None` where the text is not a
/// well-formed padded encoding.
pub uninterp spec fn base64_decoding(s: Seq<char>) -> Option<Seq<u8>>;

/// Relies on `bs58::encode`: the result depends on the bytes alone, decodes
/// back to them, and is non-empty for non-empty input (each input byte
/// yields at least one character).
#[verifier::external_body]
pub(crate) fn bs58_encode(b: &Vec<u8>) -> (r: String)
    ensures
        r@ == base58_encoding(b@),
        base58_decoding(r@) == Some(b@),
        b@.len() > 0 ==> r@.len() > 0,
{
    bs58::encode(b).into_string()
}

/// Relies on `bs58::decode`: the result depends on the text alone.
#[verifier::external_body]
pub(crate) fn bs58_decode(s: &str) -> (r: Option<Vec<u8>>)
    ensures
        match r {
            Some(v) => base58_decoding(s@) == Some(v@),
            None => base58_decoding(s@) is None,
        },
{
    bs58::decode(s).into_vec().ok()
}

/// Relies on `base64::engine::general_purpose::STANDARD.encode`: the result
/// depends on the bytes alone, decodes back to them, and is non-empty for
/// non-empty input.
#[verifier::external_body]
pub(crate) fn base64_encode(b: &Vec<u8>) -> (r: String)
    ensures
        r@ == base64_encoding(b@),
        base64_decoding(r@) == Some(b@),
        b@.len() > 0 ==> r@.len() > 0,
{
    base64::engine::general_purpose::STANDARD.encode(b)
}

/// Relies on `base64::engine::general_purpose::STANDARD.decode`: the result
/// depends on the text alone.
#[verifier::external_body]
pub(crate) fn base64_decode(s: &str) -> (r: Option<Vec<u8>>)
    ensures
        match r {
            Some(v) => base64_decoding(s@) == Some(v@),
            None => base64_decoding(s@) is None,
        },
{
    base64::engine::general_purpose::STANDARD.decode(s).ok()
}

} // verus!
