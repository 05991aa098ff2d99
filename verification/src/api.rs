//! The API service: its configuration and its logging helpers.

pub mod config;
pub mod logging;
