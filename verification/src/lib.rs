//! A read-only weather service: nested records, country, city, month,
//! metrics, held as one JSON document and answered over three routes.
//!
//! The JSON document itself is handled by `serde_json`; the module `json`
//! states what this crate relies on from it. Everything above that module is
//! verified against those statements.

pub mod handlers;
pub mod json;
pub mod response;
pub mod store;
