//! Verified core of a tag-metadata export tool for a Canary historian
//! server: discovery of tag names from a browse response, strict decoding
//! of tag-context responses, and serialization of the resulting records
//! to tabular, plain-text and structured-document formats.

pub mod cli;
pub mod context;
pub mod discovery;
pub mod doc;
pub mod export;
pub mod errors;
pub mod json;
pub mod records;
pub mod requests;
pub mod strbuild;
