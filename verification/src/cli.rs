//! The command-line tool's output formatting and dependency analysis.

pub mod contract_dependency;
pub mod output_format;
