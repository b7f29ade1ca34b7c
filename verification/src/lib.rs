//! Verified core of the DSA/IAX hardware evaluation harness.

pub mod submit;
pub mod text;
pub mod config;
pub mod layout;
pub mod dsa;
pub mod iax;
pub mod stats;
pub mod trace;
pub mod common;
pub mod overlap;
pub mod mechanism;
pub mod admission;
pub mod reuse;
pub mod submit_only;
pub mod occupancy;
pub mod report;
pub mod sw;
pub mod error;
pub mod plan;
pub mod pmc;
pub mod ladder;
pub mod window;
