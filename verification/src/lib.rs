//! A verified core for a command-line client of an LLM-observability REST API.
//!
//! The library covers the two parts of the client where real decisions live:
//! the authenticated, paginated request engine (credential validation, URL and
//! query construction, HTTP status classification, pagination termination) and
//! the schema-less rendering pipeline that turns JSON-like values into table,
//! CSV, Markdown or pretty-printed JSON text. Network and file I/O stay with
//! the (unverified) binary around the library.

pub mod client;
pub mod config;
pub mod error;
pub mod formatters;
pub mod jsontext;
pub mod pagination;
pub mod requests;
pub mod strutil;
pub mod types;
pub mod value;
