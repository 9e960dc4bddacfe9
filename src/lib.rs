//! Developer-token issuance for the MusicKit client: credential resolution,
//! ES256 token construction, a placeholder fallback and a single-slot cache.

pub mod cache;
pub mod commands;
pub mod config;
pub mod error;
pub mod json;
pub mod token;
