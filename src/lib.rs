//! Health-check probes for a Rust toolchain: the outcome model, the
//! presence matcher over tool listings, the decisions of each probe and
//! the reading of dependency-update reports.

pub mod check_result;
pub mod presence;
pub mod check;
pub mod probe;
pub mod outdated;
pub mod check_cli;
pub mod outdated_cli;
