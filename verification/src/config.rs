//! Pool configuration: how handles are recycled and how large the pool may grow.

use vstd::prelude::*;

verus! {

/// How a connection is examined when it is released back to the pool.
///
/// The default is [`Fast`], which trusts the structural liveness check alone.
///
/// [`Fast`]: RecyclingMethod::Fast
#[derive(Clone, Copy, Debug, PartialEq, Eq, Structural)]
pub enum RecyclingMethod {
    /// Only consult the structural liveness check when recycling. Cheap,
    /// and unless you have special needs a safe choice.
    Fast,

    /// Consult the structural liveness check and then issue a round-trip
    /// probe against the broker. Slower, but it also catches connections
    /// that look open locally while the remote side is gone.
    Verified,
}

impl Default for RecyclingMethod {
    /// The default recycling method is [`RecyclingMethod::Fast`].
    fn default() -> (r: Self)
        ensures
            r == RecyclingMethod::Fast,
    {
        RecyclingMethod::Fast
    }
}

/// Capacity bounds and the default acquire timeout. Immutable once a pool
/// has been built from it.
#[derive(Clone, Copy, Debug)]
pub struct PoolConfig {
    /// Greatest number of live connections the pool may own at once,
    /// idle and leased together.
    pub max_size: usize,
    /// Optional cap on the idle set alone: a handle that would be kept but
    /// finds the idle set full is discarded instead.
    pub max_idle: Option<usize>,
    /// Default timeout for `acquire`, in milliseconds. `None` means callers
    /// wait without bound; the runtime adapter enforces it.
    pub timeout_ms: Option<u64>,
}

impl PoolConfig {
    /// A configuration with the given capacity, no idle cap and no
    /// default timeout.
    pub fn new(max_size: usize) -> (c: Self)
        ensures
            c.max_size == max_size,
            c.max_idle == None::<usize>,
            c.timeout_ms == None::<u64>,
    {
        PoolConfig { max_size, max_idle: None, timeout_ms: None }
    }
}

impl Default for PoolConfig {
    /// The default configuration: sixteen connections, no idle cap,
    /// no default timeout.
    fn default() -> (c: Self)
        ensures
            c.max_size == 16,
            c.max_idle == None::<usize>,
            c.timeout_ms == None::<u64>,
    {
        PoolConfig { max_size: 16, max_idle: None, timeout_ms: None }
    }
}

} // verus!
