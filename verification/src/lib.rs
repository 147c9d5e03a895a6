//! A small WebDAV client core.
//!
//! A [`client::Client`] holds a username and a password and turns each WebDAV
//! operation (`get`, `put`, `delete`, `unzip`, `mkcol`, `mv`, `list`) into the
//! description of exactly one HTTP request: verb, target URL, credentials for
//! HTTP Basic authentication, extra headers and body. Nothing here touches the
//! network; a transport takes the [`request::Request`] and sends it.
//!
//! Verbs, header names, header values and URLs are checked by the `http` and
//! `url` crates that `reqwest` re-exports, so that a request which this crate
//! hands out is one that `reqwest` accepts. Input that they reject comes back
//! as an [`error::Error`].
pub mod syntax;
pub mod error;
pub mod validate;

pub mod request;
pub mod client;
pub mod prelude;
