//! Build-time compiler support for embedded markup, stylesheets and assets.
//!
//! The library holds the logic of the pipeline: rebuilding text from tokens,
//! repairing the spacing that rebuilding damages, choosing the stylesheet
//! source, and deriving asset descriptors with their data URIs.

pub mod repair;
pub mod reconstruct;
pub mod stylesheet;
pub mod data_uri;
pub mod asset;
