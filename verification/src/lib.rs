//! Client-side core of a CI-system REST API client: URL construction,
//! pagination-cursor extraction from link headers, eager and lazy pagination
//! engines, and a line decoder for raw log byte streams.
//!
//! Network transport and JSON decoding live outside this crate; the functions
//! here take the plain values those layers produce and hand plain values back.

pub mod client;
pub mod lines;
pub mod link;
pub mod models;
pub mod paging;
pub mod text;
pub mod urls;

use vstd::prelude::*;

verus! {

/// Errors surfaced by the pagination and log-streaming operations.
///
/// `Transport`: a request could not be sent or no response arrived.
/// `Decode`: a response body did not match the expected shape.
/// `Encoding`: a log byte chunk was not valid text.
#[derive(Clone, Copy, Debug, PartialEq, Eq, Structural)]
pub enum ApiError {
    Transport,
    Decode,
    Encoding,
}

/// Static configuration for one API endpoint: the credentials sent as
/// request headers and the server every URL is built under.
#[derive(Clone, Debug)]
pub struct EvgConfig {
    pub user: String,
    pub api_key: String,
    pub api_server_host: String,
}

} // verus!
