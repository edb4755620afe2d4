//! The recycling policy: keep or discard a handle that comes back to the pool.

use vstd::prelude::*;

use crate::config::RecyclingMethod;
use crate::handle::ConnectionHandle;

verus! {

/// What becomes of a handle on release.
#[derive(Clone, Copy, Debug, PartialEq, Eq, Structural)]
pub enum Decision {
    /// The handle goes back to the idle set, eligible for reuse.
    Keep,
    /// The handle is torn down; its slot frees up for a lazy replacement.
    Discard,
}

/// The recycling decision as a pure function of the handle's poison flag,
/// the configured method, and what the provider's checks reported.
///
/// A poisoned handle is discarded before any check. A handle whose
/// structural liveness check failed is discarded under either method. Under
/// `Verified`, a failed probe discards a handle that the structural check
/// alone would have kept.
pub open spec fn spec_evaluate(
    poisoned: bool,
    method: RecyclingMethod,
    alive: bool,
    probe_ok: bool,
) -> Decision {
    if poisoned {
        Decision::Discard
    } else if !alive {
        Decision::Discard
    } else if method == RecyclingMethod::Verified && !probe_ok {
        Decision::Discard
    } else {
        Decision::Keep
    }
}

/// Whether evaluating a handle calls for a round-trip probe: only under
/// `Verified`, and only when the handle is neither poisoned nor already
/// structurally dead — a caller-reported failure is authoritative and a
/// dead connection needs no further evidence.
pub open spec fn spec_needs_probe(poisoned: bool, method: RecyclingMethod, alive: bool) -> bool {
    !poisoned && alive && method == RecyclingMethod::Verified
}

/// Decides whether a probe must be issued before `evaluate` can be called
/// for `handle` under `method`, given the structural check's report.
pub fn needs_probe(handle: &ConnectionHandle, method: RecyclingMethod, alive: bool) -> (r: bool)
    ensures
        r == spec_needs_probe(handle.poisoned, method, alive),
{
    !handle.poisoned && alive && method == RecyclingMethod::Verified
}

/// Applies the recycling policy to `handle` and commits its side effect:
/// a kept handle has `last_checked_at` moved to `now`, a discarded one is
/// left untouched beyond being marked for teardown by the caller.
///
/// `alive` is the structural liveness check's report and `probe_ok` the
/// probe's; when no probe is called for, `probe_ok` is ignored and may be
/// passed as `true`.
pub fn evaluate(
    handle: &mut ConnectionHandle,
    method: RecyclingMethod,
    alive: bool,
    probe_ok: bool,
    now: u64,
) -> (d: Decision)
    ensures
        d == spec_evaluate(old(handle).poisoned, method, alive, probe_ok),
        d == Decision::Keep ==> *final(handle) == (ConnectionHandle {
            last_checked_at: now,
            ..*old(handle)
        }),
        d == Decision::Discard ==> *final(handle) == *old(handle),
{
    if handle.poisoned {
        Decision::Discard
    } else if !alive {
        Decision::Discard
    } else if method == RecyclingMethod::Verified && !probe_ok {
        Decision::Discard
    } else {
        handle.last_checked_at = now;
        Decision::Keep
    }
}

/// A caller-reported failure is authoritative: a poisoned handle is
/// discarded whatever the method and whatever the checks report.
pub proof fn lemma_poisoned_always_discarded(method: RecyclingMethod, alive: bool, probe_ok: bool)
    ensures
        spec_evaluate(true, method, alive, probe_ok) == Decision::Discard,
{
}

/// A handle whose structural liveness check fails is discarded under
/// either method.
pub proof fn lemma_dead_always_discarded(poisoned: bool, method: RecyclingMethod, probe_ok: bool)
    ensures
        spec_evaluate(poisoned, method, false, probe_ok) == Decision::Discard,
{
}

/// The differential between the two methods: a handle that is not poisoned,
/// passes the structural check, but fails the probe is kept under `Fast` —
/// which never sees the probe — and discarded under `Verified`.
pub proof fn lemma_method_differential()
    ensures
        spec_evaluate(false, RecyclingMethod::Fast, true, false) == Decision::Keep,
        spec_evaluate(false, RecyclingMethod::Verified, true, false) == Decision::Discard,
{
}

/// Under `Fast`, the probe's report never changes the decision.
pub proof fn lemma_fast_ignores_probe(poisoned: bool, alive: bool, a: bool, b: bool)
    ensures
        spec_evaluate(poisoned, RecyclingMethod::Fast, alive, a) == spec_evaluate(
            poisoned,
            RecyclingMethod::Fast,
            alive,
            b,
        ),
{
}

} // verus!
