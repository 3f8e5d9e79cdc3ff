//! A client library for the WordsAPI word dictionary service.
//!
//! The verified part of the library decides everything that does not need the
//! network: which URL and headers a look-up sends, and how the reply's body and
//! rate-limit headers become a [`Response`].

pub mod client;
pub mod entry;
pub mod request;
pub mod response;

pub use client::{
    ApiRequest, Client, API_BASE, GET, MASHAPE_HOST, X_MASHAPE_HOST, X_MASHAPE_KEY,
    X_RATE_LIMIT_REMAINING, X_RATE_LIMIT_REQUESTS_LIMIT,
};
pub use entry::Entry;
pub use request::{RequestError, RequestType};
pub use response::{parse_decimal_usize, rate_limit_from_header, Response};
