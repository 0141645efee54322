//! The host-promise-from-native-computation adapter.
//!
//! A native async entry point returns a promise to the host immediately and
//! lets the computation proceed off the event-loop thread.  When the
//! computation ends, the adapter re-enters the host thread and settles the
//! promise: a success value is boxed into a host object, a failure becomes a
//! rejection carrying the error's description, and a panic — caught at this
//! boundary and nowhere further in — becomes a rejection too, never an
//! unwind into host code.  Before the settlement, the entry call's store
//! adapter is finalized, whichever way the computation ended, so no rooted
//! host object outlives the call that rooted it.

use vstd::prelude::*;
use crate::errors::{protocol_error_description_spec, ProtocolError};
use crate::handle::FinalizeReceipt;
use crate::host::{HostError, HostValue, Settlement};
use crate::promise::HostPromise;
use crate::store::NodeSenderKeyStore;
use crate::values::NativeValue;

verus! {

/// How a wrapped native computation ended.  The catch-unwind boundary sits
/// exactly where the result crosses into host-visible state, so a panic
/// arrives here as a value, not as an unwind.
#[derive(Debug, PartialEq, Eq)]
pub enum TaskOutcome {
    /// The computation ran to its end, successfully or not.
    Completed(Result<NativeValue, ProtocolError>),
    /// The computation panicked; the panic's textual payload.
    Panicked(String),
}

/// How each outcome settles the host's promise: success is boxed, failure
/// is rejected with the error's description, and a panic is rejected with
/// the panic's payload.
pub open spec fn outcome_settles_as(o: TaskOutcome, s: Settlement) -> bool {
    match o {
        TaskOutcome::Completed(r) => match r {
            Ok(v) => s == Settlement::Resolved(HostValue::Boxed(v)),
            Err(e) => s matches Settlement::Rejected(h)
                && h.description@ == protocol_error_description_spec(e),
        },
        TaskOutcome::Panicked(msg) => s matches Settlement::Rejected(h)
            && h.description@ == msg@,
    }
}

/// Builds the settlement for a finished native computation.  Total over
/// every outcome: no outcome, a panic included, fails to produce one.
pub fn settlement_for_outcome(outcome: TaskOutcome) -> (s: Settlement)
    ensures
        outcome_settles_as(outcome, s),
{
    match outcome {
        TaskOutcome::Completed(r) => match r {
            Ok(v) => Settlement::Resolved(HostValue::Boxed(v)),
            Err(e) => Settlement::Rejected(HostError { description: e.describe() }),
        },
        TaskOutcome::Panicked(msg) => Settlement::Rejected(HostError { description: msg }),
    }
}

/// A panic inside the wrapped computation reaches the host only as a
/// rejected settlement carrying the panic's payload — never as an unwind
/// past the adapter.
pub proof fn lemma_panic_settles_as_rejection(msg: String, s: Settlement)
    requires
        outcome_settles_as(TaskOutcome::Panicked(msg), s),
    ensures
        s matches Settlement::Rejected(h) && h.description@ == msg@,
{
}

/// The settlement stage of a native entry call: finalize the call's store
/// adapter, then settle the promise with the computation's outcome.
///
/// The receipt certifies that the adapter's rooting handle was released —
/// and, the adapter being consumed, released exactly once — whether the
/// computation succeeded, failed, or panicked.  The promise, pending until
/// here, settles exactly once.
pub fn complete_entry_call(
    store: NodeSenderKeyStore,
    promise: &mut HostPromise,
    outcome: TaskOutcome,
) -> (r: FinalizeReceipt)
    requires
        old(promise).wf(),
        old(promise).is_pending(),
    ensures
        r.object_id == store.object_id(),
        final(promise).wf(),
        final(promise).times_settled() == 1,
        !final(promise).is_observed(),
        outcome_settles_as(outcome, final(promise).settlement()),
{
    let receipt = store.finalize();
    let settlement = settlement_for_outcome(outcome);
    promise.settle(settlement);
    receipt
}

} // verus!
