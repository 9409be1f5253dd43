//! Base64 in its two forms: with padding for stored record values, without
//! for keypairs in the configuration.

use vstd::prelude::*;
use base64::Engine;

verus! {

/// The base64 text of a byte string: standard alphabet, with padding.
pub uninterp spec fn base64_standard(data: Seq<u8>) -> Seq<char>;

/// The bytes that a base64 text with padding stands for, if it is valid.
pub uninterp spec fn base64_standard_decoded(text: Seq<char>) -> Option<Seq<u8>>;

/// The base64 text of a byte string: standard alphabet, without padding.
pub uninterp spec fn base64_no_pad(data: Seq<u8>) -> Seq<char>;

/// The bytes that a base64 text without padding stands for, if it is valid.
pub uninterp spec fn base64_no_pad_decoded(text: Seq<char>) -> Option<Seq<u8>>;

/// Calls `encode` of `base64::engine::general_purpose::STANDARD`. The
/// contract gives the text the name `base64_standard`. The call panics only
/// where the length of the text overflows, which no vector's length reaches.
#[verifier::external_body]
pub(crate) fn encode_standard(data: &Vec<u8>) -> (text: String)
    ensures
        text@ == base64_standard(data@),
{
    base64::engine::general_purpose::STANDARD.encode(data)
}

/// Calls `decode` of `base64::engine::general_purpose::STANDARD`. The
/// contract gives the outcome the name `base64_standard_decoded`: the
/// bytes, or none where the text is refused.
#[verifier::external_body]
pub(crate) fn decode_standard(text: &str) -> (data: Option<Vec<u8>>)
    ensures
        match data {
            Some(bytes) => base64_standard_decoded(text@) == Some(bytes@),
            None => base64_standard_decoded(text@) is None,
        },
{
    match base64::engine::general_purpose::STANDARD.decode(text) {
        Ok(bytes) => Some(bytes),
        Err(_) => None,
    }
}

/// Calls `encode` of `base64::engine::general_purpose::STANDARD_NO_PAD`.
/// The contract gives the text the name `base64_no_pad`. The call panics
/// only where the length of the text overflows, which no vector's length
/// reaches.
#[verifier::external_body]
pub(crate) fn encode_no_pad(data: &Vec<u8>) -> (text: String)
    ensures
        text@ == base64_no_pad(data@),
{
    base64::engine::general_purpose::STANDARD_NO_PAD.encode(data)
}

/// Calls `decode` of `base64::engine::general_purpose::STANDARD_NO_PAD`.
/// The contract gives the outcome the name `base64_no_pad_decoded`: the
/// bytes, or none where the text is refused.
#[verifier::external_body]
pub(crate) fn decode_no_pad(text: &str) -> (data: Option<Vec<u8>>)
    ensures
        match data {
            Some(bytes) => base64_no_pad_decoded(text@) == Some(bytes@),
            None => base64_no_pad_decoded(text@) is None,
        },
{
    match base64::engine::general_purpose::STANDARD_NO_PAD.decode(text) {
        Ok(bytes) => Some(bytes),
        Err(_) => None,
    }
}

} // verus!
