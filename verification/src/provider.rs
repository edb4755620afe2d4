//! The connection-provider collaborator consumed by the pool.

use vstd::prelude::*;

verus! {

/// Why a provider could not establish a connection. Surfaced unchanged to
/// the caller of `acquire`.
#[derive(Clone, Copy, Debug, PartialEq, Eq, Structural)]
pub struct CreateError {
    /// Provider-defined reason code.
    pub code: u64,
}

/// Creates connections and answers health questions about them.
///
/// The pool never inspects a connection beyond these three calls. Their
/// outcomes depend on the broker and the network, so nothing is promised of
/// them here: the pool's contracts state what it does with every possible
/// answer. Implementations live outside the pool — a broker-backed one in
/// the runtime adapter, deterministic fakes in tests.
pub trait ConnectionProvider {
    /// Establishes a new connection and registers it under `id`. The pool
    /// issues each `id` at most once.
    fn create(&mut self, id: u64) -> Result<(), CreateError>;

    /// Structural liveness check: whether the connection registered under
    /// `id` still looks open from local state alone.
    fn is_open(&mut self, id: u64) -> bool;

    /// Round-trip probe against the broker over the connection registered
    /// under `id`; reports whether it succeeded. Only consulted under
    /// verified recycling, and never for a poisoned handle.
    fn probe(&mut self, id: u64) -> bool;
}

} // verus!
