//! Verified core of the Soroban registry tools.

pub mod api;
pub mod cli;
pub mod json;
pub mod redaction;
pub mod shared;
pub mod text;
