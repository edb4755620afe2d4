//! A connection pool for long-lived broker connections.
//!
//! The pool tracks a bounded set of connection handles, hands them out as
//! scoped leases, and decides on every release whether a handle is healthy
//! enough to keep. Connections themselves are opaque: a
//! [`provider::ConnectionProvider`] creates them and answers health checks,
//! while the pool owns all bookkeeping and every lifecycle decision.

pub mod config;
pub mod handle;
pub mod policy;
pub mod pool;
pub mod provider;
