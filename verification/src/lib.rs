//! Client-side logic for the "anime girl holding programming book" HTTP API:
//! request construction, response decoding and error mapping.
//!
//! The library owns everything the client decides: which URL and query
//! parameters each of the four operations sends, how a success response is
//! parsed into domain values, and how every failure is mapped to a typed
//! error. The transport (an HTTP stack) and the process-wide default client
//! live with the caller; they hand the library plain status codes, headers
//! and bytes and get domain values back.
pub mod book;
pub mod client;
pub mod dates;
pub mod encoding;
pub mod errors;
pub mod json;

pub use book::{Book, BookData};
pub use client::{ApiRequest, Client};
pub use dates::BookDate;
pub use errors::{ApiError, DecodeError};
