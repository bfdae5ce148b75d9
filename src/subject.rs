use crate::error::Error;
use base64::Engine;
use vstd::prelude::*;
use vstd::utf8::{decode_utf8, valid_utf8};

verus! {

/// The bytes that standard Base64 (padded alphabet) decodes `s` to, or `None` where `s` is
/// not valid Base64.
pub uninterp spec fn base64_decoded(s: Seq<char>) -> Option<Seq<u8>>;

/// Relies on base64's `BASE64_STANDARD.decode`: the decoded bytes, or a `DecodeError` where
/// the input is not valid padded standard Base64. The result depends on the input alone.
#[verifier::external_body]
fn decode_base64(s: &str) -> (r: Option<Vec<u8>>)
    ensures
        match r {
            Some(b) => base64_decoded(s@) == Some(b@),
            None => base64_decoded(s@) is None,
        },
{
    base64::engine::general_purpose::STANDARD.decode(s).ok()
}

/// Relies on `String::from_utf8`: it succeeds exactly on valid UTF-8, and the string holds
/// the characters that the bytes encode.
#[verifier::external_body]
fn utf8_string(b: Vec<u8>) -> (r: Option<String>)
    ensures
        r is Some <==> valid_utf8(b@),
        r matches Some(s) ==> s@ == decode_utf8(b@),
{
    String::from_utf8(b).ok()
}

/// The text that decoded bytes stand for, or the error that refuses them; `None` stands for
/// input that was not valid Base64.
pub open spec fn text_of(decoded: Option<Seq<u8>>) -> Result<Seq<char>, Error> {
    match decoded {
        None => Err(Error::Base64),
        Some(b) => if valid_utf8(b) {
            Ok(decode_utf8(b))
        } else {
            Err(Error::FromUtf8)
        },
    }
}

pub open spec fn bytes_view(b: Option<Vec<u8>>) -> Option<Seq<u8>> {
    match b {
        Some(v) => Some(v@),
        None => None,
    }
}

pub open spec fn text_view(r: Result<String, Error>) -> Result<Seq<char>, Error> {
    match r {
        Ok(s) => Ok(s@),
        Err(e) => Err(e),
    }
}

/// Turns the result of Base64 decoding into the subject's text.
pub fn subject_from_bytes(decoded: Option<Vec<u8>>) -> (r: Result<String, Error>)
    ensures
        text_view(r) == text_of(bytes_view(decoded)),
{
    match decoded {
        None => Err(Error::Base64),
        Some(bytes) => match utf8_string(bytes) {
            None => Err(Error::FromUtf8),
            Some(s) => Ok(s),
        },
    }
}

/// Decodes a subject (a player identifier or an image URL) that reached us Base64-encoded.
pub fn decode_subject(encoded: &str) -> (r: Result<String, Error>)
    ensures
        text_view(r) == text_of(base64_decoded(encoded@)),
{
    subject_from_bytes(decode_base64(encoded))
}

} // verus!
