//! A typed client library for a versioned JSON/HTTP market-data API.
//!
//! The verified core is the request/response translation pipeline:
//! query-parameter encoding (`queryparams`, `encode`, `requests`),
//! endpoint composition (`endpoint`), HTTP status classification and
//! the decode pipeline (`pipeline`), and schema-aware JSON decoding
//! with path-accurate error reporting (`json`, `decode`, `collections`,
//! `models`). The network transport itself lives outside the library
//! and hands the pipeline plain values (status code, body text).

pub mod collections;
pub mod date;
pub mod decode;
pub mod digits;
pub mod endpoint;
pub mod json;
pub mod encode;
pub mod models;
pub mod pipeline;
pub mod queryparams;
pub mod requests;
