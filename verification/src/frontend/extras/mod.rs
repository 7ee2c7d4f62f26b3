//! Parts and extractors for common formats.

pub mod json;
