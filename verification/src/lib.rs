//! Consensus-facing value domains for a Bitcoin-like ledger.
//!
//! Two independent concerns live here: the canonical per-network consensus
//! parameter records (activation thresholds and difficulty-retarget
//! constants), and the bit-exact interpretation and four-byte little-endian
//! encoding of absolute and relative lock-time values.

pub mod absolute;
pub mod codec;
pub mod network;
pub mod params;
pub mod relative;
