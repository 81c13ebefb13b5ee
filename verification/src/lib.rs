//! A client library for a weather-forecast HTTP service.
//!
//! The library models the provider's JSON payload as a tree of typed
//! records, parses the wire text into that model, serializes the model
//! back to wire text, and renders a one-line summary of the current
//! conditions.  Network I/O itself is left to the surrounding
//! application; everything here is a pure transformation.

pub mod client;
pub mod dec;
pub mod json;
pub mod jtext;
pub mod model;
pub mod render;
pub mod schema;
pub mod strutil;
pub mod url;
