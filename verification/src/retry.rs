//! Retry policy for failed whole-path upload attempts: how often to retry and
//! how long to wait between attempts. Durations are in milliseconds.
use vstd::prelude::*;

verus! {

/// Retries a fixed number of times with a fixed wait between attempts.
#[derive(Clone, Copy, Debug)]
pub struct ConstantRetryStrategy {
    /// Number of attempts to make in all; must be at least 1.
    pub count: u64,
    /// How long to wait between attempts, in milliseconds.
    pub wait_ms: u64,
}

impl Default for ConstantRetryStrategy {
    /// Three attempts, one second apart.
    fn default() -> (r: Self)
        ensures
            r.count == 3,
            r.wait_ms == 1000,
    {
        ConstantRetryStrategy { count: 3, wait_ms: 1000 }
    }
}

/// A retry policy computed from the current attempt number.
pub trait DynamicRetryStrategy {
    /// The wait this policy asks for before the given attempt.
    spec fn spec_wait_time(&self, current_retry_count: u64) -> u64;

    /// The number of attempts this policy allows in all.
    spec fn spec_retry_count(&self) -> u64;

    /// Returns the wait time in milliseconds.
    fn wait_time(&self, current_retry_count: u64) -> (r: u64)
        ensures
            r == self.spec_wait_time(current_retry_count),
    ;

    /// Returns the attempt budget; always at least 1.
    fn retry_count(&self) -> (r: u64)
        ensures
            r == self.spec_retry_count(),
            r >= 1,
    ;
}

/// The built-in dynamic policy: the wait grows linearly with the attempt
/// number (five thirds of a second per attempt), and five attempts are made.
#[derive(Clone, Copy, Debug)]
pub struct DefaultRetryStrategy;

impl DynamicRetryStrategy for DefaultRetryStrategy {
    open spec fn spec_wait_time(&self, current_retry_count: u64) -> u64 {
        if current_retry_count <= u64::MAX / 5000 {
            (current_retry_count * 5000 / 3) as u64
        } else {
            u64::MAX / 3
        }
    }

    open spec fn spec_retry_count(&self) -> u64 {
        5
    }

    fn wait_time(&self, current_retry_count: u64) -> (r: u64) {
        if current_retry_count <= u64::MAX / 5000 {
            current_retry_count * 5000 / 3
        } else {
            u64::MAX / 3
        }
    }

    fn retry_count(&self) -> (r: u64) {
        5
    }
}

/// The request retry policy: a fixed pair, or the built-in dynamic policy.
#[derive(Clone, Copy, Debug)]
pub enum RetryStrategy {
    Constant(ConstantRetryStrategy),
    Dynamic(DefaultRetryStrategy),
}

impl Default for RetryStrategy {
    /// The dynamic policy is the default.
    fn default() -> (r: Self)
        ensures
            r is Dynamic,
    {
        RetryStrategy::Dynamic(DefaultRetryStrategy)
    }
}

impl RetryStrategy {
    /// The wait before the given attempt, in milliseconds.
    pub open spec fn spec_wait(&self, current_retry_count: u64) -> u64 {
        match self {
            RetryStrategy::Constant(c) => c.wait_ms,
            RetryStrategy::Dynamic(d) => d.spec_wait_time(current_retry_count),
        }
    }

    /// The number of attempts this policy allows in all.
    pub open spec fn spec_count(&self) -> u64 {
        match self {
            RetryStrategy::Constant(c) => c.count,
            RetryStrategy::Dynamic(d) => d.spec_retry_count(),
        }
    }

    /// A policy is well formed when it allows at least one attempt.
    pub open spec fn wf(&self) -> bool {
        self.spec_count() >= 1
    }

    /// Returns the wait before the given attempt, in milliseconds.
    pub fn wait(&self, current_retry_count: u64) -> (r: u64)
        ensures
            r == self.spec_wait(current_retry_count),
    {
        match self {
            RetryStrategy::Constant(c) => c.wait_ms,
            RetryStrategy::Dynamic(d) => d.wait_time(current_retry_count),
        }
    }

    /// Returns the attempt budget.
    pub fn count(&self) -> (r: u64)
        ensures
            r == self.spec_count(),
            self.wf() ==> r >= 1,
    {
        match self {
            RetryStrategy::Constant(c) => c.count,
            RetryStrategy::Dynamic(d) => d.retry_count(),
        }
    }
}

} // verus!
