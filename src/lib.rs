//! WARC record header names: a closed set of standard and extension names with
//! a fallback for any other name, rendered to and parsed from text.
pub mod text;
pub mod header;
pub mod laws;

pub use header::WarcHeader;
