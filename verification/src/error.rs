//! What can go wrong while a request is put together.
use vstd::prelude::*;

verus! {

/// Input that cannot become part of an HTTP request.
#[derive(Debug)]
pub enum Error {
    /// The target is not an absolute URL.
    Url(url::ParseError),
    /// The verb is not a token.
    Method(http::method::InvalidMethod),
    /// The header name is not a token, or is too long.
    HeaderName(reqwest::header::InvalidHeaderName),
    /// The header value holds a control character.
    HeaderValue(reqwest::header::InvalidHeaderValue),
}

} // verus!
