//! The sender-key-store capability adapter.
//!
//! The protocol library expects a capability with two operations — `load`
//! and `store`, keyed by a sender key name — and this adapter implements it
//! by delegating each operation to a method on a host-supplied store object.
//! Each delegation is one independent request/response round trip: clone the
//! arguments (the scheduled call runs later and must own them), box them
//! into opaque host handles, schedule the host method call, await the
//! settlement of the promise the host produces, and translate the settlement
//! into a domain value or error.  Host-side failures are re-tagged with the
//! operation name and not retried; a single failed callback fails the whole
//! protocol operation.
//!
//! The adapter owns its store object's rooting handle alone, and releases it
//! exactly once, through [`NodeSenderKeyStore::finalize`], after the
//! protocol call that used the adapter has completed; concurrent in-flight
//! calls reference the object only by id, so no call path can release the
//! rooting on its own.

use vstd::prelude::*;
use crate::errors::{js_error_to_rust, CallbackFailure, Operation, ProtocolError};
use crate::handle::{FinalizeReceipt, ObjectHandle};
use crate::host::{boxed_object, unboxed_spec, HostValue, Settlement};
use crate::promise::HostPromise;
use crate::queue::{
    deliver, delivered_settlement_spec, ClosureOutcome, EventQueue, HostMethodCall,
};
use crate::values::{NativeValue, SenderKeyName, SenderKeyNameView, SenderKeyRecord};

verus! {

/// A capability store adapter bound to one host store object.
#[derive(Debug)]
pub struct NodeSenderKeyStore {
    store_object: ObjectHandle,
}

/// Whether `c` is the host-side load call on store object `object_id` with
/// the boxed sender key name `name`.
pub open spec fn is_get_call(c: HostMethodCall, object_id: u64, name: SenderKeyNameView) -> bool {
    &&& c matches HostMethodCall::GetSenderKey { object_id: oid, name: arg }
    &&& oid == object_id
    &&& arg matches HostValue::Boxed(NativeValue::Name(n)) && n@ == name
}

/// Whether `c` is the host-side save call on store object `object_id` with
/// the boxed sender key name `name` and boxed record `record`.
pub open spec fn is_save_call(
    c: HostMethodCall,
    object_id: u64,
    name: SenderKeyNameView,
    record: Seq<u8>,
) -> bool {
    &&& c matches HostMethodCall::SaveSenderKey { object_id: oid, name: narg, record: rarg }
    &&& oid == object_id
    &&& narg matches HostValue::Boxed(NativeValue::Name(n)) && n@ == name
    &&& rarg matches HostValue::Boxed(NativeValue::Record(r)) && r@ == record
}

/// How the load continuation reads a settlement: the host's null means the
/// record is absent; a boxed handle must hold a sender key record; any other
/// resolved shape exposes no native handle and is rejected as "result must
/// be an object"; a rejection carries the host error's description.
pub open spec fn interpret_get_settlement_spec(s: Settlement) -> Result<
    Option<SenderKeyRecord>,
    CallbackFailure,
> {
    match s {
        Settlement::Resolved(v) => match v {
            HostValue::Null => Ok(None),
            HostValue::Boxed(n) => match n {
                NativeValue::Record(rec) => Ok(Some(rec)),
                _ => Err(CallbackFailure::RecordHandleInvalid),
            },
            _ => Err(CallbackFailure::ResultMustBeObject),
        },
        Settlement::Rejected(e) => Err(CallbackFailure::HostThrew(e.description)),
    }
}

/// How the save continuation reads a settlement: only the host's "no value"
/// result means success; any other resolved value is rejected; a rejection
/// carries the host error's description.
pub open spec fn interpret_save_settlement_spec(s: Settlement) -> Result<(), CallbackFailure> {
    match s {
        Settlement::Resolved(v) => match v {
            HostValue::Undefined => Ok(()),
            _ => Err(CallbackFailure::UnexpectedSaveResult),
        },
        Settlement::Rejected(e) => Err(CallbackFailure::HostThrew(e.description)),
    }
}

/// The load continuation: translates the settlement of the host's load call
/// into the record, its absence, or a callback failure.
pub fn interpret_get_settlement(s: Settlement) -> (r: Result<
    Option<SenderKeyRecord>,
    CallbackFailure,
>)
    ensures
        r == interpret_get_settlement_spec(s),
{
    match s {
        Settlement::Resolved(v) => match v {
            HostValue::Null => Ok(None),
            HostValue::Boxed(n) => match n {
                NativeValue::Record(rec) => Ok(Some(rec)),
                _ => Err(CallbackFailure::RecordHandleInvalid),
            },
            _ => Err(CallbackFailure::ResultMustBeObject),
        },
        Settlement::Rejected(e) => Err(CallbackFailure::HostThrew(e.description)),
    }
}

/// The save continuation: translates the settlement of the host's save call
/// into success or a callback failure.
pub fn interpret_save_settlement(s: Settlement) -> (r: Result<(), CallbackFailure>)
    ensures
        r == interpret_save_settlement_spec(s),
{
    match s {
        Settlement::Resolved(v) => match v {
            HostValue::Undefined => Ok(()),
            _ => Err(CallbackFailure::UnexpectedSaveResult),
        },
        Settlement::Rejected(e) => Err(CallbackFailure::HostThrew(e.description)),
    }
}

/// A full load round trip re-tagged for the protocol library: callback
/// failures become application-callback errors naming the load operation.
pub open spec fn load_result_spec(o: ClosureOutcome) -> Result<
    Option<SenderKeyRecord>,
    ProtocolError,
> {
    match interpret_get_settlement_spec(delivered_settlement_spec(o)) {
        Ok(v) => Ok(v),
        Err(f) => Err(
            ProtocolError::ApplicationCallback { operation: Operation::GetSenderKey, cause: f },
        ),
    }
}

/// A full save round trip re-tagged for the protocol library: callback
/// failures become application-callback errors naming the save operation.
pub open spec fn store_result_spec(o: ClosureOutcome) -> Result<(), ProtocolError> {
    match interpret_save_settlement_spec(delivered_settlement_spec(o)) {
        Ok(v) => Ok(v),
        Err(f) => Err(
            ProtocolError::ApplicationCallback { operation: Operation::SaveSenderKey, cause: f },
        ),
    }
}

/// A load whose host callback resolves to the host's null yields the
/// absent record, not an error.
pub proof fn lemma_load_null_is_absent()
    ensures
        load_result_spec(ClosureOutcome::Produced(Settlement::Resolved(HostValue::Null)))
            == Ok::<Option<SenderKeyRecord>, ProtocolError>(None),
{
}

/// A load whose host callback resolves to a non-null value exposing no
/// native-handle accessor fails as "result must be an object", tagged with
/// the load operation.
pub proof fn lemma_load_non_object_is_error(v: HostValue)
    requires
        v != HostValue::Null,
        unboxed_spec(v) is None,
    ensures
        load_result_spec(ClosureOutcome::Produced(Settlement::Resolved(v)))
            == Err::<Option<SenderKeyRecord>, ProtocolError>(
            (ProtocolError::ApplicationCallback {
                operation: Operation::GetSenderKey,
                cause: CallbackFailure::ResultMustBeObject,
            }),
        ),
{
}

/// A save whose host callback resolves to anything but the host's
/// "no value" result fails with a descriptive error, tagged with the save
/// operation.
pub proof fn lemma_save_unexpected_value_is_error(v: HostValue)
    requires
        v != HostValue::Undefined,
    ensures
        store_result_spec(ClosureOutcome::Produced(Settlement::Resolved(v)))
            == Err::<(), ProtocolError>(
            (ProtocolError::ApplicationCallback {
                operation: Operation::SaveSenderKey,
                cause: CallbackFailure::UnexpectedSaveResult,
            }),
        ),
{
}

impl NodeSenderKeyStore {
    /// The id of the host store object the adapter delegates to.
    pub closed spec fn object_id(&self) -> u64 {
        self.store_object.id()
    }

    /// Wraps the rooted host store object in an adapter.  The adapter is the
    /// handle's single owner from here on.
    pub fn new(store_object: ObjectHandle) -> (s: NodeSenderKeyStore)
        ensures
            s.object_id() == store_object.id(),
    {
        NodeSenderKeyStore { store_object }
    }

    /// Releases the adapter's rooting of the store object.  Consumes the
    /// adapter, so each adapter instance is finalized at most once; the
    /// enclosing native call finalizes it exactly once, on the host thread,
    /// before returning its result to the host.
    pub fn finalize(self) -> (r: FinalizeReceipt)
        ensures
            r.object_id == self.object_id(),
    {
        self.store_object.finalize()
    }

    /// The scheduling half of a load: copies and boxes the name and posts
    /// the host-side load call; the returned pending promise will carry the
    /// call's settlement.
    pub fn begin_get_sender_key(&self, queue: &mut EventQueue, name: &SenderKeyName) -> (p:
        HostPromise)
        ensures
            final(queue).calls().len() == old(queue).calls().len() + 1,
            final(queue).calls().drop_last() == old(queue).calls(),
            is_get_call(final(queue).calls().last(), self.object_id(), name@),
            p.wf(),
            p.is_pending(),
            !p.is_observed(),
    {
        let copy = name.duplicate();
        let boxed = boxed_object(NativeValue::Name(copy));
        queue.schedule(
            HostMethodCall::GetSenderKey { object_id: self.store_object.object_id(), name: boxed },
        );
        proof {
            assert(queue.calls().drop_last() =~= old(queue).calls());
        }
        HostPromise::new()
    }

    /// The scheduling half of a save: copies and boxes the name and the
    /// record and posts the host-side save call; the returned pending
    /// promise will carry the call's settlement.
    pub fn begin_save_sender_key(
        &self,
        queue: &mut EventQueue,
        name: &SenderKeyName,
        record: &SenderKeyRecord,
    ) -> (p: HostPromise)
        ensures
            final(queue).calls().len() == old(queue).calls().len() + 1,
            final(queue).calls().drop_last() == old(queue).calls(),
            is_save_call(final(queue).calls().last(), self.object_id(), name@, record@),
            p.wf(),
            p.is_pending(),
            !p.is_observed(),
    {
        let name_copy = name.duplicate();
        let record_copy = record.duplicate();
        let boxed_name = boxed_object(NativeValue::Name(name_copy));
        let boxed_record = boxed_object(NativeValue::Record(record_copy));
        queue.schedule(
            HostMethodCall::SaveSenderKey {
                object_id: self.store_object.object_id(),
                name: boxed_name,
                record: boxed_record,
            },
        );
        proof {
            assert(queue.calls().drop_last() =~= old(queue).calls());
        }
        HostPromise::new()
    }
}

/// The continuation half of a load: observes the settlement — exactly once —
/// and interprets it.
pub fn finish_get_sender_key(promise: &mut HostPromise) -> (r: Result<
    Option<SenderKeyRecord>,
    CallbackFailure,
>)
    requires
        old(promise).wf(),
        old(promise).is_settled(),
        !old(promise).is_observed(),
    ensures
        final(promise).wf(),
        final(promise).times_settled() == old(promise).times_settled(),
        final(promise).times_observed() == 1,
        r == interpret_get_settlement_spec(old(promise).settlement()),
{
    let s = promise.observe();
    interpret_get_settlement(s)
}

/// The continuation half of a save: observes the settlement — exactly once —
/// and interprets it.
pub fn finish_save_sender_key(promise: &mut HostPromise) -> (r: Result<(), CallbackFailure>)
    requires
        old(promise).wf(),
        old(promise).is_settled(),
        !old(promise).is_observed(),
    ensures
        final(promise).wf(),
        final(promise).times_settled() == old(promise).times_settled(),
        final(promise).times_observed() == 1,
        r == interpret_save_settlement_spec(old(promise).settlement()),
{
    let s = promise.observe();
    interpret_save_settlement(s)
}

impl NodeSenderKeyStore {
    /// One whole load round trip against a given host response: schedule the
    /// load call, run the host loop step that executes it (its outcome is
    /// `host_outcome`), deliver the settlement, and interpret it.  The
    /// driver plays both sides of the round trip, so it starts with an idle
    /// host loop.  The promise comes back as evidence that the invocation
    /// settled exactly once and observed that settlement exactly once.
    pub fn do_get_sender_key(
        &self,
        queue: &mut EventQueue,
        name: &SenderKeyName,
        host_outcome: ClosureOutcome,
    ) -> (out: (Result<Option<SenderKeyRecord>, CallbackFailure>, HostPromise))
        requires
            old(queue).calls().len() == 0,
        ensures
            final(queue).calls().len() == 0,
            out.1.wf(),
            out.1.times_settled() == 1,
            out.1.times_observed() == 1,
            out.0 == interpret_get_settlement_spec(delivered_settlement_spec(host_outcome)),
    {
        let mut promise = self.begin_get_sender_key(queue, name);
        let _call = queue.take_next();
        deliver(&mut promise, host_outcome);
        let r = finish_get_sender_key(&mut promise);
        (r, promise)
    }

    /// One whole save round trip against a given host response, as
    /// [`Self::do_get_sender_key`] is for load.
    pub fn do_save_sender_key(
        &self,
        queue: &mut EventQueue,
        name: &SenderKeyName,
        record: &SenderKeyRecord,
        host_outcome: ClosureOutcome,
    ) -> (out: (Result<(), CallbackFailure>, HostPromise))
        requires
            old(queue).calls().len() == 0,
        ensures
            final(queue).calls().len() == 0,
            out.1.wf(),
            out.1.times_settled() == 1,
            out.1.times_observed() == 1,
            out.0 == interpret_save_settlement_spec(delivered_settlement_spec(host_outcome)),
    {
        let mut promise = self.begin_save_sender_key(queue, name, record);
        let _call = queue.take_next();
        deliver(&mut promise, host_outcome);
        let r = finish_save_sender_key(&mut promise);
        (r, promise)
    }

    /// The capability's `load`: a load round trip whose callback failures
    /// are re-tagged as application-callback errors naming the load
    /// operation.
    pub fn load_sender_key(
        &self,
        queue: &mut EventQueue,
        sender_key_name: &SenderKeyName,
        host_outcome: ClosureOutcome,
    ) -> (out: (Result<Option<SenderKeyRecord>, ProtocolError>, HostPromise))
        requires
            old(queue).calls().len() == 0,
        ensures
            final(queue).calls().len() == 0,
            out.1.wf(),
            out.1.times_settled() == 1,
            out.1.times_observed() == 1,
            out.0 == load_result_spec(host_outcome),
    {
        let (r, promise) = self.do_get_sender_key(queue, sender_key_name, host_outcome);
        let tagged = match r {
            Ok(v) => Ok(v),
            Err(f) => Err(js_error_to_rust(Operation::GetSenderKey, f)),
        };
        (tagged, promise)
    }

    /// The capability's `store`: a save round trip whose callback failures
    /// are re-tagged as application-callback errors naming the save
    /// operation.
    pub fn store_sender_key(
        &self,
        queue: &mut EventQueue,
        sender_key_name: &SenderKeyName,
        record: &SenderKeyRecord,
        host_outcome: ClosureOutcome,
    ) -> (out: (Result<(), ProtocolError>, HostPromise))
        requires
            old(queue).calls().len() == 0,
        ensures
            final(queue).calls().len() == 0,
            out.1.wf(),
            out.1.times_settled() == 1,
            out.1.times_observed() == 1,
            out.0 == store_result_spec(host_outcome),
    {
        let (r, promise) = self.do_save_sender_key(queue, sender_key_name, record, host_outcome);
        let tagged = match r {
            Ok(v) => Ok(v),
            Err(f) => Err(js_error_to_rust(Operation::SaveSenderKey, f)),
        };
        (tagged, promise)
    }
}

} // verus!
