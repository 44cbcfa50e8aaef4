//! Source-code statistics: language detection, comment-syntax resolution,
//! and per-line classification of source files into code, comment and
//! blank lines.

pub mod classify;
pub mod infer;
pub mod lang;
pub mod laws;
pub mod scan;
pub mod stats;
pub mod syntax;
pub mod text;
