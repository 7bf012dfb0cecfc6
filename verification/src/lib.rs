//! A small library for listing the published releases of the upstream
//! Cataclysm: Dark Days Ahead project.
//!
//! The heart of the crate is the decoder that turns the JSON body returned
//! by the GitHub releases API into typed [`models::Release`] records, and
//! the diagnostic routine that, when the JSON is well formed but has the
//! wrong shape, points at the offending line and column of the source text.

mod config;
pub mod decode;
pub mod diagnose;
pub mod display;
pub mod feed;
pub mod json;
pub mod models;
pub mod text;

pub use config::Config;
pub use config::DirKind;
