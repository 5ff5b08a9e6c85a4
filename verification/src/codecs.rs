//! Decoders that other crates supply. Their contracts are stated here and taken on trust;
//! everything built on them is proved against these statements.

use vstd::prelude::*;
use vstd::utf8::{decode_utf8, valid_utf8};

verus! {

/// chrono's account of why a text is no date.
#[verifier::external_type_specification]
#[verifier::external_body]
pub struct ExParseError(chrono::ParseError);

/// The base64 crate's account of why a text is no base64.
#[verifier::external_type_specification]
#[verifier::external_body]
pub struct ExDecodeError(base64::DecodeError);

/// The standard library's account of why bytes are no UTF-8.
#[verifier::external_type_specification]
#[verifier::external_body]
pub struct ExFromUtf8Error(std::string::FromUtf8Error);

/// Seconds since the Unix epoch of the moment that `text` denotes as an RFC 2822 date,
/// as chrono reads it; `None` where chrono rejects the text.
pub uninterp spec fn rfc2822_timestamp(text: Seq<char>) -> Option<i64>;

/// The bytes that `text` encodes in padded URL-safe base64, as the base64 crate's
/// `URL_SAFE` engine decodes it; `None` where that engine rejects the text.
pub uninterp spec fn url_safe_base64(text: Seq<char>) -> Option<Seq<u8>>;

/// Calls `chrono::DateTime::parse_from_rfc2822` and takes the Unix timestamp of the
/// moment it returns. Trusted: the outcome depends on the text alone, so it is given
/// the name `rfc2822_timestamp`.
#[verifier::external_body]
pub(crate) fn parse_rfc2822_timestamp(text: &str) -> (parsed: Result<i64, chrono::ParseError>)
    ensures
        parsed is Ok <==> rfc2822_timestamp(text@) is Some,
        parsed matches Ok(seconds) ==> rfc2822_timestamp(text@) == Some(seconds),
{
    match chrono::DateTime::parse_from_rfc2822(text) {
        Ok(moment) => Ok(moment.with_timezone(&chrono::Utc).timestamp()),
        Err(error) => Err(error),
    }
}

/// Calls `decode` of the base64 crate's `URL_SAFE` engine. Trusted: the outcome depends
/// on the text alone, so it is given the name `url_safe_base64`.
#[verifier::external_body]
pub(crate) fn decode_url_safe_base64(text: &str) -> (decoded: Result<Vec<u8>, base64::DecodeError>)
    ensures
        decoded is Ok <==> url_safe_base64(text@) is Some,
        decoded matches Ok(bytes) ==> url_safe_base64(text@) == Some(bytes@),
{
    base64::Engine::decode(&base64::engine::general_purpose::URL_SAFE, text)
}

/// Calls `String::from_utf8`. Trusted: it succeeds exactly on well-formed UTF-8, and the
/// string it returns holds the characters that the bytes encode.
#[verifier::external_body]
pub(crate) fn string_from_utf8(bytes: Vec<u8>) -> (text: Result<String, std::string::FromUtf8Error>)
    ensures
        text is Ok <==> valid_utf8(bytes@),
        text matches Ok(string) ==> string@ == decode_utf8(bytes@),
{
    String::from_utf8(bytes)
}

} // verus!
