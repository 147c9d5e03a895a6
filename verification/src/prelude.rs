//! The names that a caller of the client needs.
pub use crate::client::Client;
pub use crate::error::Error;
pub use crate::request::{Body, Header, Request};
