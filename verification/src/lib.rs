//! Client-side logic of a paginated ingestion engine for the Moonboard REST
//! service: token lifecycle decisions, the two pagination state machines
//! (cursor advance and page-number accumulation), request construction, and
//! the string-to-value parsers used when decoding responses.
//!
//! Network transport and JSON decoding live outside this crate; the library
//! is driven by handing it the plain values those layers produce.

pub mod client;
pub mod color;
pub mod datetime;
pub mod err;
pub mod paginate;
pub mod records;
pub mod request;
pub mod text;
pub mod token;
