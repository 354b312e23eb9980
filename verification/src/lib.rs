//! A small backend core: a time-windowed refresh cache, an online-presence
//! tracker with lazy eviction and periodic archival, chart aggregation of the
//! archived samples, a case-insensitive download table, and interpretation of
//! a scraped live-stream page.
//!
//! Everything here is synchronous and deterministic: the clock is always an
//! argument (milliseconds on a monotone timeline), and all I/O (the database,
//! the HTTP fetches, the actual waiting) lives with the caller.
use vstd::prelude::*;

pub mod bc;
pub mod cache;
pub mod encode;
pub mod file_host;
pub mod online_users;
pub mod yt;

verus! {

/// Milliseconds a cached value stays fresh before a read triggers a refresh.
pub const DEFAULT_FRESHNESS_WINDOW_MS: u64 = 60_000;

} // verus!

