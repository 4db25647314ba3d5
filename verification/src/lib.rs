//! Verified core of a concurrent HTTP host prober: per-host retry/race
//! reduction, bounded-concurrency dispatch, response metadata extraction,
//! soft-404 fingerprinting, and status-code output filtering.

pub mod args;
pub mod dispatch;
pub mod extract;
pub mod fingerprint;
pub mod output;
pub mod probe;
pub mod structs;
pub mod text;
pub mod utils;
