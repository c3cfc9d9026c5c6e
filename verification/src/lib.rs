//! Verified core of a disk-usage calculator.
//!
//! The library owns every decision of the traversal: how a metadata result
//! for a path is classified and aggregated (hard-link deduplication, symlink
//! policy, overflow handling), how I/O faults are routed (ignore, retry,
//! abort), when the driving loop may terminate, and how the final total is
//! rendered. The unverified binary around it performs the actual filesystem
//! calls and task scheduling, feeding plain values into these functions and
//! acting on the directives they return.

pub mod dedup;
pub mod laws;
pub mod meta;
pub mod opts;
pub mod render;
pub mod traverse;
