//! The checks that `reqwest` applies to the parts of a request, made by the
//! types that it re-exports: `Url` of the `url` crate, and `Method`,
//! `HeaderName` and `HeaderValue` of the `http` crate.
//!
//! Nothing in this file is proved. Each function below makes one call and
//! states what that call is trusted to do.
use vstd::prelude::*;
use vstd::utf8::encode_utf8;
use crate::syntax::{is_token_bytes, is_header_name_bytes, is_header_value_bytes, lowercase_bytes};

verus! {

/// Why `Url::parse` read no URL.
#[verifier::external_type_specification]
#[verifier::external_body]
pub struct ExParseError(url::ParseError);

/// The error of `Method::from_bytes`.
#[verifier::external_type_specification]
#[verifier::external_body]
pub struct ExInvalidMethod(http::method::InvalidMethod);

/// The error of `HeaderName::from_bytes`.
#[verifier::external_type_specification]
#[verifier::external_body]
pub struct ExInvalidHeaderName(reqwest::header::InvalidHeaderName);

/// The error of `HeaderValue::from_bytes`.
#[verifier::external_type_specification]
#[verifier::external_body]
pub struct ExInvalidHeaderValue(reqwest::header::InvalidHeaderValue);

/// What `Url::parse` makes of `input`: the serialization of the URL that it
/// reads, or `None` where it reads none.
pub uninterp spec fn parsed_url(input: Seq<char>) -> Option<Seq<char>>;

/// `reqwest::Url::parse` (that is `url::Url::parse`), with the URL handed
/// back as its serialization. The outcome depends on `input` alone; the
/// contract gives it the name [`parsed_url`] and claims no more.
#[verifier::external_body]
pub(crate) fn parse_url(input: &str) -> (r: Result<String, url::ParseError>)
    ensures
        r matches Ok(u) ==> parsed_url(input@) == Some(u@),
        r is Err ==> parsed_url(input@) is None,
{
    match reqwest::Url::parse(input) {
        Ok(url) => Ok(String::from(url)),
        Err(e) => Err(e),
    }
}

/// `reqwest::Method::from_bytes` (that is `http::Method::from_bytes`), with
/// the method handed back as its text. The contract claims that it accepts
/// exactly the non-empty sequences of `tchar` bytes, and that the method's
/// text is the bytes it was given.
#[verifier::external_body]
pub(crate) fn method_from_bytes(src: &[u8]) -> (r: Result<String, http::method::InvalidMethod>)
    ensures
        r is Ok <==> is_token_bytes(src@),
        r matches Ok(m) ==> encode_utf8(m@) == src@,
{
    match reqwest::Method::from_bytes(src) {
        Ok(method) => Ok(method.as_str().to_owned()),
        Err(e) => Err(e),
    }
}

/// `reqwest::header::HeaderName::from_bytes` (that is
/// `http::HeaderName::from_bytes`), with the name handed back as its text.
/// The contract claims that it accepts exactly the sequences of 1 to 65535
/// `tchar` bytes, and that the name's text is the bytes it was given, in
/// lower case.
#[verifier::external_body]
pub(crate) fn header_name_from_bytes(src: &[u8]) -> (r: Result<
    String,
    reqwest::header::InvalidHeaderName,
>)
    ensures
        r is Ok <==> is_header_name_bytes(src@),
        r matches Ok(n) ==> encode_utf8(n@) == lowercase_bytes(src@),
{
    match reqwest::header::HeaderName::from_bytes(src) {
        Ok(name) => Ok(name.as_str().to_owned()),
        Err(e) => Err(e),
    }
}

/// `reqwest::header::HeaderValue::from_bytes` (that is
/// `http::HeaderValue::from_bytes`), with the value handed back as its
/// bytes. The contract claims that it accepts exactly the sequences of bytes
/// that are 9 or at least 32 and not 127, and that the value's bytes are the
/// bytes it was given.
#[verifier::external_body]
pub(crate) fn header_value_from_bytes(src: &[u8]) -> (r: Result<
    Vec<u8>,
    reqwest::header::InvalidHeaderValue,
>)
    ensures
        r is Ok <==> is_header_value_bytes(src@),
        r matches Ok(v) ==> v@ == src@,
{
    match reqwest::header::HeaderValue::from_bytes(src) {
        Ok(value) => Ok(value.as_bytes().to_vec()),
        Err(e) => Err(e),
    }
}

} // verus!
