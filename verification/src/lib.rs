//! Upload engine for a cloud object store: plans single-shot and multi-part
//! uploads, drives the task state machine, and accounts for progress, retries
//! and rate limiting. The pieces that talk to the network are driven from an
//! unverified shell; everything that decides or computes lives here.
use vstd::prelude::*;

pub mod checksum;
pub mod chunking;
pub mod client;
pub mod definitions;
pub mod digest;
pub mod error;
pub mod executor;
pub mod is_valid;
pub mod options;
pub mod progress;
pub mod retry;
pub mod size_unit;
pub mod task;
pub mod throttle;
pub mod time_series;

verus! {

/// Adds two sizes.
pub fn add(left: usize, right: usize) -> (r: usize)
    requires
        left + right <= usize::MAX,
    ensures
        r == left + right,
{
    left + right
}

} // verus!
