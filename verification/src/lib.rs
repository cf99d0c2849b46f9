//! Parses the JSON payload returned by a dictionary lookup service and
//! renders it as human-readable, optionally colorized terminal text.
//!
//! The entry points are [`ydresponse::YdResponse::new_raw`], which turns a raw
//! JSON string into a response model, and [`ydresponse::YdResponse::explain`],
//! which renders a model through a pluggable [`formatters::Formatter`].

pub mod formatters;
pub mod json;
pub mod render;
pub mod strutil;
pub mod ydresponse;
