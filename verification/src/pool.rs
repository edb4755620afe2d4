//! The pool core: the single shared-state owner that serves acquire and
//! release, enforces the capacity bound, and invokes the recycling policy.
//!
//! The core is a sequential state machine; a runtime adapter serializes
//! access to it (one mutex around the pool) and performs the waiting that
//! `acquire` cannot do here, driven by the waiter tickets the core hands
//! out. Everything the pool decides — who gets which handle, what is kept,
//! what is discarded — is decided in this module.

use vstd::prelude::*;

use crate::config::{PoolConfig, RecyclingMethod};
use crate::handle::{ConnectionHandle, PoolHandle};
use crate::policy::{evaluate, needs_probe, spec_evaluate, Decision};
use crate::provider::{ConnectionProvider, CreateError};

verus! {

/// Why an acquire request failed.
#[derive(Clone, Copy, Debug, PartialEq, Eq, Structural)]
pub enum AcquireError {
    /// No idle handle and no free slot were available within the caller's
    /// window. Retryable.
    Timeout,
    /// The pool has been closed; no further handles will ever be served.
    PoolClosed,
    /// The provider failed to establish a fresh connection; the slot was
    /// not consumed.
    Provider(CreateError),
}

/// A point-in-time observation of the pool's counters.
#[derive(Clone, Copy, Debug, PartialEq, Eq, Structural)]
pub struct PoolStatus {
    /// Handles sitting in the idle set.
    pub idle_count: usize,
    /// Handles currently out on leases.
    pub in_use_count: usize,
    /// The configured capacity bound.
    pub max_size: usize,
}

/// What a release did with the handle, and whom it woke.
#[derive(Clone, Copy, Debug)]
pub enum Released {
    /// The handle passed recycling and went back to the idle set.
    Kept {
        /// The longest-waiting acquire ticket, if any was queued; the
        /// adapter resumes that waiter.
        woken: Option<u64>,
    },
    /// The handle was rejected; the caller must close the underlying
    /// connection. Its slot frees up for a lazy replacement.
    Discarded {
        /// The rejected handle, handed back for teardown.
        handle: ConnectionHandle,
        /// The longest-waiting acquire ticket, if any was queued.
        woken: Option<u64>,
    },
}

impl Released {
    /// The waiter ticket this release woke, if any.
    pub open spec fn spec_woken(&self) -> Option<u64> {
        match self {
            Released::Kept { woken } => *woken,
            Released::Discarded { woken, .. } => *woken,
        }
    }
}

/// The concurrent container's state: the idle set, the lease counter, the
/// waiter queue, and the knobs fixed at construction.
pub struct Pool {
    /// Capacity bounds and default timeout, fixed at construction.
    pub config: PoolConfig,
    /// How released handles are validated, fixed at construction.
    pub method: RecyclingMethod,
    /// Handles not currently leased, most recently released last.
    pub idle: Vec<ConnectionHandle>,
    /// Number of handles currently out on leases.
    pub in_use: usize,
    /// The next connection id to issue; ids are never reused.
    pub next_id: u64,
    /// Set once by `close`; afterwards every acquire fails and every
    /// release discards.
    pub closed: bool,
    /// Tickets of acquires waiting for a slot, oldest first.
    pub waiters: Vec<u64>,
    /// The next waiter ticket to issue; tickets are never reused.
    pub next_ticket: u64,
}

impl Pool {
    /// Whether some idle handle carries the given connection id.
    pub open spec fn contains_idle_id(&self, id: u64) -> bool {
        exists|i: int| 0 <= i < self.idle@.len() && self.idle@[i].id == id
    }

    /// The idle set holds only handles that passed recycling (never a
    /// poisoned one), under ids the pool issued, each id at most once.
    pub open spec fn idle_wf(&self) -> bool {
        &&& forall|i: int| 0 <= i < self.idle@.len() ==> !(#[trigger] self.idle@[i]).poisoned
        &&& forall|i: int| 0 <= i < self.idle@.len() ==> (#[trigger] self.idle@[i]).id
            < self.next_id
        &&& forall|i: int, j: int|
            0 <= i < j < self.idle@.len() ==> self.idle@[i].id != self.idle@[j].id
    }

    /// Waiter tickets are issued in increasing order and queued oldest
    /// first, so the front of the queue is always the longest waiter.
    pub open spec fn waiters_wf(&self) -> bool {
        &&& forall|i: int, j: int|
            0 <= i < j < self.waiters@.len() ==> self.waiters@[i] < self.waiters@[j]
        &&& forall|i: int|
            0 <= i < self.waiters@.len() ==> (#[trigger] self.waiters@[i]) < self.next_ticket
    }

    /// Idle and leased handles together never exceed the capacity bound,
    /// and the idle set respects its own optional cap.
    pub open spec fn within_capacity(&self) -> bool {
        &&& self.idle@.len() + self.in_use <= self.config.max_size
        &&& (self.config.max_idle matches Some(cap) ==> self.idle@.len() <= cap)
    }

    /// The pool's invariant: established by the constructor and preserved
    /// by every operation.
    pub open spec fn well_formed(&self) -> bool {
        &&& self.within_capacity()
        &&& self.idle_wf()
        &&& self.waiters_wf()
        &&& (self.closed ==> self.idle@.len() == 0 && self.waiters@.len() == 0)
    }

    /// Everything every operation leaves alone: the knobs fixed at
    /// construction.
    pub open spec fn same_settings(&self, other: &Pool) -> bool {
        &&& self.config == other.config
        &&& self.method == other.method
    }

    /// Whether `other` is this pool, unchanged in every observable field.
    pub open spec fn same_state(&self, other: &Pool) -> bool {
        &&& self.config == other.config
        &&& self.method == other.method
        &&& self.idle@ == other.idle@
        &&& self.in_use == other.in_use
        &&& self.next_id == other.next_id
        &&& self.closed == other.closed
        &&& self.waiters@ == other.waiters@
        &&& self.next_ticket == other.next_ticket
    }

    /// An empty, open pool with the given configuration and recycling
    /// method.
    pub fn new(config: PoolConfig, method: RecyclingMethod) -> (p: Pool)
        ensures
            p.well_formed(),
            p.config == config,
            p.method == method,
            p.idle@.len() == 0,
            p.in_use == 0,
            p.next_id == 0,
            !p.closed,
            p.waiters@.len() == 0,
            p.next_ticket == 0,
    {
        Pool {
            config,
            method,
            idle: Vec::new(),
            in_use: 0,
            next_id: 0,
            closed: false,
            waiters: Vec::new(),
            next_ticket: 0,
        }
    }

    /// The pool's counters at this observation point.
    pub fn status(&self) -> (s: PoolStatus)
        ensures
            s.idle_count == self.idle@.len(),
            s.in_use_count == self.in_use,
            s.max_size == self.config.max_size,
    {
        PoolStatus {
            idle_count: self.idle.len(),
            in_use_count: self.in_use,
            max_size: self.config.max_size,
        }
    }

    /// Whether `close` has been called.
    pub fn is_closed(&self) -> (b: bool)
        ensures
            b == self.closed,
    {
        self.closed
    }

    /// Removes and returns the longest-waiting ticket, if any is queued.
    fn pop_front_waiter(&mut self) -> (w: Option<u64>)
        ensures
            final(self).config == old(self).config,
            final(self).method == old(self).method,
            final(self).idle@ == old(self).idle@,
            final(self).in_use == old(self).in_use,
            final(self).next_id == old(self).next_id,
            final(self).closed == old(self).closed,
            final(self).next_ticket == old(self).next_ticket,
            old(self).waiters@.len() == 0 ==> w == None::<u64> && final(self).waiters@ == old(self).waiters@,
            old(self).waiters@.len() > 0 ==> w == Some(old(self).waiters@[0]) && final(self).waiters@ == old(self).waiters@.subrange(1, old(self).waiters@.len() as int),
    {
        if self.waiters.len() > 0 {
            let t = self.waiters.remove(0);
            proof {
                assert(self.waiters@ =~= old(self).waiters@.subrange(
                    1,
                    old(self).waiters@.len() as int,
                ));
            }
            Some(t)
        } else {
            None
        }
    }

    /// Serves one lease, favouring warm connections.
    ///
    /// An idle handle, if there is one, is handed out as it is — most
    /// recently released first, with no re-validation, since validation
    /// already happened when it was released. Otherwise, when a slot is
    /// free, the provider is asked for a fresh connection; a provider
    /// failure is surfaced and consumes no slot. At capacity with nothing
    /// idle the request cannot be served now: the caller gets `Timeout`, or
    /// queues a waiter ticket and retries once a release wakes it.
    pub fn acquire<P: ConnectionProvider>(
        &mut self,
        provider: &mut P,
        now: u64,
    ) -> (r: Result<PoolHandle, AcquireError>)
        requires
            old(self).well_formed(),
            old(self).next_id < u64::MAX,
        ensures
            final(self).well_formed(),
            final(self).same_settings(old(self)),
            final(self).closed == old(self).closed,
            final(self).waiters@ == old(self).waiters@,
            final(self).next_ticket == old(self).next_ticket,
            old(self).closed ==> (r matches Err(AcquireError::PoolClosed) && final(self).same_state(old(self))),
            !old(self).closed && old(self).idle@.len() > 0 ==> (r matches Ok(lease)
                && lease.conn == old(self).idle@.last()
                && !lease.error_seen
                && final(self).idle@ == old(self).idle@.drop_last()
                && final(self).in_use == old(self).in_use + 1
                && final(self).next_id == old(self).next_id),
            !old(self).closed && old(self).idle@.len() == 0 && old(self).in_use >= old(self).config.max_size
                ==> (r matches Err(AcquireError::Timeout) && final(self).same_state(old(self))),
            !old(self).closed && old(self).idle@.len() == 0 && old(self).in_use < old(self).config.max_size
                ==> ((r matches Ok(lease) ==> lease.conn == ConnectionHandle::spec_fresh(old(self).next_id, now)
                        && !lease.error_seen
                        && final(self).idle@ == old(self).idle@
                        && final(self).in_use == old(self).in_use + 1
                        && final(self).next_id == old(self).next_id + 1)
                    && (r matches Err(e) ==> (e matches AcquireError::Provider(_)) && final(self).same_state(old(self)))),
            r matches Ok(lease) ==> !lease.conn.poisoned
                && !lease.error_seen
                && lease.conn.id < final(self).next_id
                && !final(self).contains_idle_id(lease.conn.id),
    {
        if self.closed {
            return Err(AcquireError::PoolClosed);
        }
        match self.idle.pop() {
            Some(conn) => {
                self.in_use = self.in_use + 1;
                proof {
                    assert forall|i: int|
                        0 <= i < self.idle@.len() implies self.idle@[i].id != conn.id by {
                        assert(self.idle@[i] == old(self).idle@[i]);
                        assert(old(self).idle@[i].id != old(self).idle@[old(self).idle@.len()
                            - 1].id);
                    }
                }
                Ok(PoolHandle::new(conn))
            },
            None => {
                if self.in_use >= self.config.max_size {
                    Err(AcquireError::Timeout)
                } else {
                    let id = self.next_id;
                    match provider.create(id) {
                        Ok(_) => {
                            self.next_id = self.next_id + 1;
                            self.in_use = self.in_use + 1;
                            Ok(PoolHandle::new(ConnectionHandle::fresh(id, now)))
                        },
                        Err(e) => Err(AcquireError::Provider(e)),
                    }
                }
            },
        }
    }

    /// Takes a lease back, recycles its handle, and frees the slot.
    ///
    /// The handle is poisoned when the holder reported an error; a poisoned
    /// handle is discarded with no further checks. Otherwise the provider's
    /// structural liveness check — and, under verified recycling, a
    /// round-trip probe — decides between keep and discard, as
    /// [`crate::policy::spec_evaluate`] states. A kept handle joins the
    /// idle set, most recently released last; a discarded one is handed
    /// back so the caller can close the underlying connection. Either way
    /// the longest waiter, if any, is woken to retry its acquire.
    pub fn release<P: ConnectionProvider>(
        &mut self,
        lease: PoolHandle,
        provider: &mut P,
        now: u64,
    ) -> (r: Released)
        requires
            old(self).well_formed(),
            old(self).in_use >= 1,
            lease.conn.id < old(self).next_id,
            !old(self).contains_idle_id(lease.conn.id),
        ensures
            final(self).well_formed(),
            final(self).same_settings(old(self)),
            final(self).closed == old(self).closed,
            final(self).next_id == old(self).next_id,
            final(self).next_ticket == old(self).next_ticket,
            final(self).in_use == old(self).in_use - 1,
            old(self).waiters@.len() > 0 ==> r.spec_woken() == Some(old(self).waiters@[0])
                && final(self).waiters@ == old(self).waiters@.subrange(1, old(self).waiters@.len() as int),
            old(self).waiters@.len() == 0 ==> r.spec_woken() == None::<u64>
                && final(self).waiters@ == old(self).waiters@,
            lease.spec_poisoned() ==> r is Discarded,
            old(self).closed ==> r is Discarded,
            (old(self).config.max_idle matches Some(cap) && old(self).idle@.len() >= cap)
                ==> r is Discarded,
            r is Kept ==> !old(self).closed && !lease.spec_poisoned()
                && final(self).idle@ == old(self).idle@.push(
                    (ConnectionHandle { last_checked_at: now, ..lease.conn }),
                ),
            r matches Released::Discarded { handle, .. } ==> final(self).idle@ == old(self).idle@
                && handle.id == lease.conn.id
                && handle.created_at == lease.conn.created_at
                && handle.poisoned == lease.spec_poisoned(),
    {
        if self.closed {
            return self.release_checked(lease, false, false, now);
        }
        let poisoned = lease.conn.poisoned || lease.error_seen;
        if poisoned {
            return self.release_checked(lease, false, false, now);
        }
        let alive = provider.is_open(lease.conn.id);
        let probe_ok = if needs_probe(&lease.conn, self.method, alive) {
            provider.probe(lease.conn.id)
        } else {
            true
        };
        self.release_checked(lease, alive, probe_ok, now)
    }

    /// Commits a release whose health checks have already run.
    ///
    /// `alive` is the structural liveness check's report and `probe_ok` the
    /// probe's (`true` when no probe was called for). This is the entry
    /// point for an adapter that honours the locking discipline: the
    /// probe's network round trip runs with the pool lock dropped, and only
    /// the keep-or-discard decision is committed under it, so unrelated
    /// acquires and releases never wait on broker latency. The decision is
    /// exactly [`crate::policy::spec_evaluate`], with a full idle set or a
    /// closed pool forcing a discard.
    pub fn release_checked(
        &mut self,
        lease: PoolHandle,
        alive: bool,
        probe_ok: bool,
        now: u64,
    ) -> (r: Released)
        requires
            old(self).well_formed(),
            old(self).in_use >= 1,
            lease.conn.id < old(self).next_id,
            !old(self).contains_idle_id(lease.conn.id),
        ensures
            final(self).well_formed(),
            final(self).same_settings(old(self)),
            final(self).closed == old(self).closed,
            final(self).next_id == old(self).next_id,
            final(self).next_ticket == old(self).next_ticket,
            final(self).in_use == old(self).in_use - 1,
            old(self).waiters@.len() > 0 ==> r.spec_woken() == Some(old(self).waiters@[0])
                && final(self).waiters@ == old(self).waiters@.subrange(1, old(self).waiters@.len() as int),
            old(self).waiters@.len() == 0 ==> r.spec_woken() == None::<u64>
                && final(self).waiters@ == old(self).waiters@,
            r is Kept <==> !old(self).closed
                && spec_evaluate(lease.spec_poisoned(), old(self).method, alive, probe_ok)
                    == Decision::Keep
                && (old(self).config.max_idle matches Some(cap) ==> old(self).idle@.len() < cap),
            r is Kept ==> final(self).idle@ == old(self).idle@.push(
                (ConnectionHandle { last_checked_at: now, ..lease.conn }),
            ),
            r matches Released::Discarded { handle, .. } ==> final(self).idle@ == old(self).idle@
                && handle.id == lease.conn.id
                && handle.created_at == lease.conn.created_at
                && handle.poisoned == lease.spec_poisoned(),
    {
        let woken = self.pop_front_waiter();
        proof {
            if old(self).waiters@.len() > 0 {
                lemma_sorted_subrange_tail(old(self).waiters@, self.next_ticket as int);
            }
        }
        self.in_use = self.in_use - 1;
        let mut handle = lease.conn;
        if lease.error_seen {
            handle.poisoned = true;
        }
        let decision = if self.closed {
            Decision::Discard
        } else {
            evaluate(&mut handle, self.method, alive, probe_ok, now)
        };
        match decision {
            Decision::Keep => {
                let has_room = match self.config.max_idle {
                    Some(cap) => self.idle.len() < cap,
                    None => true,
                };
                if has_room {
                    proof {
                        assert forall|i: int|
                            0 <= i < self.idle@.len() implies self.idle@[i].id != handle.id by {
                            assert(old(self).idle@[i].id != lease.conn.id);
                        }
                    }
                    self.idle.push(handle);
                    Released::Kept { woken }
                } else {
                    Released::Discarded { handle, woken }
                }
            },
            Decision::Discard => Released::Discarded { handle, woken },
        }
    }

    /// Queues the caller as a waiter for the next freed slot and hands it
    /// the ticket naming its place. Tickets are issued in increasing order,
    /// so the queue serves waiters first come, first served.
    pub fn enqueue_waiter(&mut self) -> (t: u64)
        requires
            old(self).well_formed(),
            !old(self).closed,
            old(self).next_ticket < u64::MAX,
        ensures
            final(self).well_formed(),
            t == old(self).next_ticket,
            final(self).waiters@ == old(self).waiters@.push(t),
            final(self).next_ticket == old(self).next_ticket + 1,
            final(self).same_settings(old(self)),
            final(self).idle@ == old(self).idle@,
            final(self).in_use == old(self).in_use,
            final(self).next_id == old(self).next_id,
            final(self).closed == old(self).closed,
    {
        let t = self.next_ticket;
        self.waiters.push(t);
        self.next_ticket = self.next_ticket + 1;
        t
    }

    /// Withdraws a waiter whose acquire timed out.
    ///
    /// Only the ticket goes away: no slot is consumed and no phantom
    /// reservation remains, so a timed-out acquire leaves the pool exactly
    /// as if it had never waited.
    #[verifier::loop_isolation(false)]
    pub fn cancel_waiter(&mut self, t: u64) -> (found: bool)
        requires
            old(self).well_formed(),
        ensures
            final(self).well_formed(),
            final(self).same_settings(old(self)),
            final(self).idle@ == old(self).idle@,
            final(self).in_use == old(self).in_use,
            final(self).next_id == old(self).next_id,
            final(self).closed == old(self).closed,
            final(self).next_ticket == old(self).next_ticket,
            found == old(self).waiters@.contains(t),
            !final(self).waiters@.contains(t),
            found ==> final(self).waiters@ == old(self).waiters@.remove(old(self).waiters@.index_of(t)),
            !found ==> final(self).waiters@ == old(self).waiters@,
    {
        let n = self.waiters.len();
        let mut i: usize = 0;
        while i < n
            invariant
                i <= n,
                n == self.waiters@.len(),
                self.same_state(old(self)),
                forall|k: int| 0 <= k < i ==> self.waiters@[k] != t,
            decreases n - i,
        {
            if self.waiters[i] == t {
                proof {
                    lemma_sorted_remove_unique(self.waiters@, t, i as int, self.next_ticket as int);
                }
                self.waiters.remove(i);
                return true;
            }
            i = i + 1;
        }
        false
    }

    /// Shuts the pool down.
    ///
    /// Drains the idle set and hands those handles back so each underlying
    /// connection is closed exactly once, clears the waiter queue and hands
    /// the cancelled tickets back so the adapter can fail those acquires
    /// with `PoolClosed`, and marks the pool closed: every later acquire
    /// fails with `PoolClosed` and every outstanding lease is discarded on
    /// its release.
    pub fn close(&mut self) -> (r: (Vec<ConnectionHandle>, Vec<u64>))
        requires
            old(self).well_formed(),
        ensures
            final(self).well_formed(),
            final(self).closed,
            final(self).idle@.len() == 0,
            final(self).waiters@.len() == 0,
            final(self).same_settings(old(self)),
            final(self).in_use == old(self).in_use,
            final(self).next_id == old(self).next_id,
            final(self).next_ticket == old(self).next_ticket,
            r.0@ == old(self).idle@,
            r.1@ == old(self).waiters@,
    {
        self.closed = true;
        let mut drained: Vec<ConnectionHandle> = Vec::new();
        std::mem::swap(&mut self.idle, &mut drained);
        let mut cancelled: Vec<u64> = Vec::new();
        std::mem::swap(&mut self.waiters, &mut cancelled);
        (drained, cancelled)
    }
}

/// At every observation point of a well-formed pool, idle and leased
/// handles together stay within the configured capacity.
pub proof fn lemma_capacity_bound(p: &Pool)
    requires
        p.well_formed(),
    ensures
        p.idle@.len() + p.in_use <= p.config.max_size,
{
}

/// In a well-formed pool the idle set never holds a poisoned handle: a
/// handle marked poisoned on release was discarded, so no later acquire
/// can serve it again.
pub proof fn lemma_idle_never_poisoned(p: &Pool)
    requires
        p.well_formed(),
    ensures
        forall|i: int| 0 <= i < p.idle@.len() ==> !(#[trigger] p.idle@[i]).poisoned,
{
}

/// In a well-formed pool no two idle handles share a connection id, so a
/// handle can never be issued to two callers at once: acquire removes the
/// one copy there is.
pub proof fn lemma_idle_ids_distinct(p: &Pool)
    requires
        p.well_formed(),
    ensures
        forall|i: int, j: int| 0 <= i < j < p.idle@.len() ==> p.idle@[i].id != p.idle@[j].id,
{
}

/// A fresh connection can never collide with a pooled one: every idle
/// handle's id lies below the id counter, and a fresh handle is issued at
/// the counter, which then moves past it for good.
pub proof fn lemma_fresh_id_unissued(p: &Pool)
    requires
        p.well_formed(),
    ensures
        !p.contains_idle_id(p.next_id),
{
}

/// Dropping the front of a strictly increasing, bounded ticket queue
/// leaves it strictly increasing and bounded.
proof fn lemma_sorted_subrange_tail(w: Seq<u64>, bound: int)
    requires
        w.len() > 0,
        forall|i: int, j: int| 0 <= i < j < w.len() ==> w[i] < w[j],
        forall|i: int| 0 <= i < w.len() ==> w[i] < bound,
    ensures
        forall|i: int, j: int|
            0 <= i < j < w.subrange(1, w.len() as int).len() ==> w.subrange(1, w.len() as int)[i]
                < w.subrange(1, w.len() as int)[j],
        forall|i: int|
            0 <= i < w.subrange(1, w.len() as int).len() ==> w.subrange(1, w.len() as int)[i]
                < bound,
{
    let tail = w.subrange(1, w.len() as int);
    assert forall|i: int, j: int| 0 <= i < j < tail.len() implies tail[i] < tail[j] by {
        assert(tail[i] == w[i + 1]);
        assert(tail[j] == w[j + 1]);
    }
    assert forall|i: int| 0 <= i < tail.len() implies tail[i] < bound by {
        assert(tail[i] == w[i + 1]);
    }
}

/// Removing the one occurrence of a value from a strictly increasing,
/// bounded ticket queue removes it for good and leaves the queue strictly
/// increasing and bounded; the index found by a left-to-right scan is the
/// index the removal contract names.
proof fn lemma_sorted_remove_unique(w: Seq<u64>, t: u64, i: int, bound: int)
    requires
        forall|a: int, b: int| 0 <= a < b < w.len() ==> w[a] < w[b],
        forall|a: int| 0 <= a < w.len() ==> w[a] < bound,
        0 <= i < w.len(),
        w[i] == t,
    ensures
        w.index_of(t) == i,
        !w.remove(i).contains(t),
        forall|a: int, b: int| 0 <= a < b < w.remove(i).len() ==> w.remove(i)[a] < w.remove(i)[b],
        forall|a: int| 0 <= a < w.remove(i).len() ==> w.remove(i)[a] < bound,
{
    assert(w.contains(t));
    let j = w.index_of(t);
    assert(0 <= j < w.len() && w[j] == t);
    if j != i {
        assert(w[i] != w[j]);
        assert(false);
    }
    w.remove_ensures(i);
    let v = w.remove(i);
    assert forall|a: int| 0 <= a < v.len() implies v[a] != t && v[a] < bound by {
        if a < i {
            assert(v[a] == w[a]);
            assert(w[a] < w[i]);
        } else {
            assert(v[a] == w[a + 1]);
            assert(w[i] < w[a + 1]);
        }
    }
    assert forall|a: int, b: int| 0 <= a < b < v.len() implies v[a] < v[b] by {
        if b < i {
            assert(v[a] == w[a] && v[b] == w[b]);
        } else if a < i {
            assert(v[a] == w[a] && v[b] == w[b + 1]);
        } else {
            assert(v[a] == w[a + 1] && v[b] == w[b + 1]);
        }
    }
    assert(!v.contains(t)) by {
        if v.contains(t) {
            let a = choose|a: int| 0 <= a < v.len() && v[a] == t;
            assert(v[a] != t);
        }
    }
}

} // verus!
