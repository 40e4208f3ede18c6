//! Verified core of a client library for download managers and music
//! metadata services: text scanning, response decoding and match scoring.

pub mod downloaders;
pub mod error;
pub mod metadata_providers;
pub mod text;
pub mod types;
