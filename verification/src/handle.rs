//! Connection handles and the scoped lease wrapped around them.

use vstd::prelude::*;

verus! {

/// One pooled connection together with its bookkeeping.
///
/// The connection itself is opaque to the pool: `id` names it towards the
/// [`crate::provider::ConnectionProvider`] that created it and that answers
/// health checks for it. The pool issues ids, never reuses one, and keeps a
/// handle in exactly one place at a time: the idle set or a single
/// outstanding lease.
#[derive(Clone, Copy, Debug, PartialEq, Eq, Structural)]
pub struct ConnectionHandle {
    /// Identity of the underlying connection, issued by the pool and never
    /// reused for another connection.
    pub id: u64,
    /// When the connection was created, in milliseconds.
    pub created_at: u64,
    /// When the connection last passed a recycling check, in milliseconds.
    pub last_checked_at: u64,
    /// Set when the caller observed an operational error on the connection;
    /// a poisoned handle is discarded on release without further checks.
    pub poisoned: bool,
}

impl ConnectionHandle {
    /// The handle for a connection created now under the given id: never
    /// checked yet, not poisoned.
    pub open spec fn spec_fresh(id: u64, now: u64) -> ConnectionHandle {
        ConnectionHandle { id, created_at: now, last_checked_at: now, poisoned: false }
    }

    /// Builds the handle for a freshly created connection.
    pub fn fresh(id: u64, now: u64) -> (h: ConnectionHandle)
        ensures
            h == ConnectionHandle::spec_fresh(id, now),
    {
        ConnectionHandle { id, created_at: now, last_checked_at: now, poisoned: false }
    }
}

/// A scoped lease on one pooled connection.
///
/// The pool hands one out on a successful acquire; the holder uses the
/// connection it names, marks the lease when an operation on it failed, and
/// gives it back through [`crate::pool::Pool::release`] exactly once. The
/// lease is consumed by value there, so it cannot be released twice; the
/// runtime adapter around the pool is in charge of releasing it on every
/// exit path.
#[derive(Debug)]
pub struct PoolHandle {
    /// The leased connection handle.
    pub conn: ConnectionHandle,
    /// Whether the holder reported an operational error on this lease.
    pub error_seen: bool,
}

impl PoolHandle {
    /// Whether the handle must be discarded on release: either it was
    /// already poisoned or the holder reported an error on this lease.
    pub open spec fn spec_poisoned(&self) -> bool {
        self.conn.poisoned || self.error_seen
    }

    /// Wraps a connection handle in a lease with no error reported yet.
    pub fn new(conn: ConnectionHandle) -> (lease: PoolHandle)
        ensures
            lease.conn == conn,
            !lease.error_seen,
    {
        PoolHandle { conn, error_seen: false }
    }

    /// Records that the holder observed an operational error; the handle
    /// will be discarded when the lease is released.
    pub fn mark_error(&mut self)
        ensures
            final(self).conn == old(self).conn,
            final(self).error_seen,
    {
        self.error_seen = true;
    }

    /// The identity of the leased connection.
    pub fn connection_id(&self) -> (id: u64)
        ensures
            id == self.conn.id,
    {
        self.conn.id
    }
}

} // verus!
