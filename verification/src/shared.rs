//! Pieces shared by the backend services: error types and structured logging.

pub mod error;
pub mod logging;
