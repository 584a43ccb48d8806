//! Typed client for a car-listings REST API that serves several marketplace
//! sources.
//!
//! The library plans each HTTP request (method, URL, query pairs, headers and
//! body) from the client's configuration, and turns each response (status and
//! body text) into a typed result or a classified error. Sending the request is
//! left to the caller.

pub mod client;
pub mod error;
pub mod json;
pub mod laws;
pub mod response;
pub mod text;
pub mod types;

pub use client::{
    Client, ClientView, Method, OffersParams, Request, DEFAULT_API_VERSION, DEFAULT_BASE_URL,
    DEFAULT_TIMEOUT_SECS,
};
pub use error::Error;
pub use json::{parse_i64, Json};
pub use response::{
    decode_change_id, decode_changes, decode_json, decode_offers, malformed_error, message_from,
    status_error, SNIPPET_CHARS,
};
pub use text::{format_int, take_chars, trim_trailing_slashes};
pub use types::{
    ChangeItem, ChangesMeta, ChangesResponse, Meta, OfferData, OfferItem, OffersResponse,
};
