//! State-tracking core of a paged-attention inference server: per-request
//! token and cache-block bookkeeping, the batch execution context handed to
//! the attention kernel, and a safetensors weight loader with packed-module
//! shard resolution.
use vstd::prelude::*;

pub mod activation;
pub mod config;
pub mod context;
pub mod loader;
pub mod pattern;
pub mod sampling;
pub mod sequence;

verus! {

/// Adds two numbers.
pub fn add(left: u64, right: u64) -> (r: u64)
    requires
        left + right <= u64::MAX,
    ensures
        r == left + right,
{
    left + right
}

} // verus!
