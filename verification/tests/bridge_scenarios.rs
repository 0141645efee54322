//! Scenario tests: whole round trips through the bridge — concurrent
//! capability calls on one queue, the end-to-end entry calls, the panic
//! boundary, and the boxing round trip.

use host_bridge::bridge::{complete_entry_call, TaskOutcome};
use host_bridge::handle::ObjectHandle;
use host_bridge::host::{boxed_object, unbox_object, HostValue, Settlement};
use host_bridge::promise::HostPromise;
use host_bridge::queue::{deliver, ClosureOutcome, EventQueue, HostMethodCall};
use host_bridge::store::{finish_get_sender_key, finish_save_sender_key, NodeSenderKeyStore};
use host_bridge::values::{NativeValue, SenderKeyDistributionMessage, SenderKeyName, SenderKeyRecord};

fn sample_name() -> SenderKeyName {
    SenderKeyName {
        group_id: vec![10, 20],
        sender_name: vec![30],
        sender_device_id: 2,
    }
}

#[test]
fn boxing_round_trip_preserves_name() {
    let name = sample_name();
    let boxed = boxed_object(NativeValue::Name(name.clone()));
    let unboxed = unbox_object(boxed);
    assert_eq!(unboxed, Some(NativeValue::Name(name.clone())));
    // Rebox what the host handed back and unbox it again on return.
    let reboxed = boxed_object(unboxed.unwrap());
    assert_eq!(unbox_object(reboxed), Some(NativeValue::Name(name)));
}

#[test]
fn unboxing_non_boxed_values_yields_nothing() {
    assert_eq!(unbox_object(HostValue::Null), None);
    assert_eq!(unbox_object(HostValue::Undefined), None);
    assert_eq!(unbox_object(HostValue::Opaque), None);
}

#[test]
fn two_concurrent_calls_complete_in_order() {
    // Two capability calls against the same host object, in flight at once:
    // a load scheduled first, a save scheduled second.  The host thread
    // drains them one at a time, in order, and each call's own promise gets
    // its own settlement.
    let store = NodeSenderKeyStore::new(ObjectHandle::new(5));
    let mut queue = EventQueue::new();
    let name = sample_name();
    let record = SenderKeyRecord { data: vec![42] };

    let mut load_promise = store.begin_get_sender_key(&mut queue, &name);
    let mut save_promise = store.begin_save_sender_key(&mut queue, &name, &record);

    // The host loop takes the load call first: FIFO.
    let first = queue.take_next().unwrap();
    assert!(matches!(first, HostMethodCall::GetSenderKey { object_id: 5, .. }));
    deliver(
        &mut load_promise,
        ClosureOutcome::Produced(Settlement::Resolved(HostValue::Null)),
    );

    // Only then the save call.
    let second = queue.take_next().unwrap();
    assert!(matches!(second, HostMethodCall::SaveSenderKey { object_id: 5, .. }));
    deliver(
        &mut save_promise,
        ClosureOutcome::Produced(Settlement::Resolved(HostValue::Undefined)),
    );

    assert!(queue.is_empty());
    assert_eq!(finish_get_sender_key(&mut load_promise), Ok(None));
    assert_eq!(finish_save_sender_key(&mut save_promise), Ok(()));
}

#[test]
fn scheduled_calls_carry_boxed_arguments() {
    let store = NodeSenderKeyStore::new(ObjectHandle::new(9));
    let mut queue = EventQueue::new();
    let name = sample_name();
    let _promise = store.begin_get_sender_key(&mut queue, &name);
    match queue.take_next().unwrap() {
        HostMethodCall::GetSenderKey { object_id, name: arg } => {
            assert_eq!(object_id, 9);
            assert_eq!(unbox_object(arg), Some(NativeValue::Name(name)));
        },
        other => panic!("expected the load call, got {:?}", other),
    }
}

#[test]
fn create_then_process_end_to_end() {
    // "Create distribution message" against a store whose load callback
    // always answers null: the load resolves absent, the protocol library
    // (scripted here) produces a message, and the entry call settles with
    // that message boxed.
    let create_store = NodeSenderKeyStore::new(ObjectHandle::new(11));
    let mut queue = EventQueue::new();
    let name = sample_name();

    let (loaded, _evidence) = create_store.load_sender_key(
        &mut queue,
        &name,
        ClosureOutcome::Produced(Settlement::Resolved(HostValue::Null)),
    );
    assert_eq!(loaded, Ok(None));

    let message = SenderKeyDistributionMessage { data: vec![1, 2, 3, 4] };
    let mut create_promise = HostPromise::new();
    let receipt = complete_entry_call(
        create_store,
        &mut create_promise,
        TaskOutcome::Completed(Ok(NativeValue::Message(message.clone()))),
    );
    assert_eq!(receipt.object_id, 11);
    let settled = create_promise.observe();
    assert_eq!(
        settled,
        Settlement::Resolved(HostValue::Boxed(NativeValue::Message(message.clone())))
    );

    // "Process distribution message" with that message and the same host
    // store object succeeds with no error.
    let process_store = NodeSenderKeyStore::new(ObjectHandle::new(11));
    let (stored, _evidence) = process_store.store_sender_key(
        &mut queue,
        &name,
        &SenderKeyRecord { data: message.data.clone() },
        ClosureOutcome::Produced(Settlement::Resolved(HostValue::Undefined)),
    );
    assert_eq!(stored, Ok(()));

    let mut process_promise = HostPromise::new();
    let receipt = complete_entry_call(
        process_store,
        &mut process_promise,
        TaskOutcome::Completed(Ok(NativeValue::Unit)),
    );
    assert_eq!(receipt.object_id, 11);
    assert_eq!(
        process_promise.observe(),
        Settlement::Resolved(HostValue::Boxed(NativeValue::Unit))
    );
}

#[test]
fn panic_settles_as_rejection_and_still_finalizes() {
    let store = NodeSenderKeyStore::new(ObjectHandle::new(3));
    let mut promise = HostPromise::new();
    let receipt = complete_entry_call(
        store,
        &mut promise,
        TaskOutcome::Panicked(String::from("index out of range")),
    );
    // The handle was released even though the computation panicked.
    assert_eq!(receipt.object_id, 3);
    // The host sees only a rejected promise carrying the panic's text.
    match promise.observe() {
        Settlement::Rejected(e) => assert_eq!(e.description, String::from("index out of range")),
        other => panic!("expected a rejection, got {:?}", other),
    }
}

#[test]
fn protocol_failure_settles_with_description() {
    let store = NodeSenderKeyStore::new(ObjectHandle::new(4));
    let mut promise = HostPromise::new();
    let outcome = TaskOutcome::Completed(Err(
        host_bridge::errors::ProtocolError::Protocol { description: String::from("bad key") },
    ));
    let receipt = complete_entry_call(store, &mut promise, outcome);
    assert_eq!(receipt.object_id, 4);
    match promise.observe() {
        Settlement::Rejected(e) => assert_eq!(e.description, String::from("bad key")),
        other => panic!("expected a rejection, got {:?}", other),
    }
}

#[test]
fn queue_is_fifo() {
    let mut queue = EventQueue::new();
    assert!(queue.is_empty());
    assert_eq!(queue.take_next(), None);
    let a = HostMethodCall::GetSenderKey { object_id: 1, name: HostValue::Null };
    let b = HostMethodCall::GetSenderKey { object_id: 2, name: HostValue::Null };
    let c = HostMethodCall::GetSenderKey { object_id: 3, name: HostValue::Null };
    queue.schedule(a.clone());
    queue.schedule(b.clone());
    queue.schedule(c.clone());
    assert_eq!(queue.take_next(), Some(a));
    assert_eq!(queue.take_next(), Some(b));
    assert_eq!(queue.take_next(), Some(c));
    assert_eq!(queue.take_next(), None);
}

#[test]
fn drain_returns_calls_in_submission_order() {
    let mut queue = EventQueue::new();
    let a = HostMethodCall::GetSenderKey { object_id: 1, name: HostValue::Null };
    let b = HostMethodCall::SaveSenderKey {
        object_id: 1,
        name: HostValue::Null,
        record: HostValue::Null,
    };
    queue.schedule(a.clone());
    queue.schedule(b.clone());
    assert_eq!(queue.drain(), vec![a, b]);
    assert!(queue.is_empty());
}

#[test]
fn finalize_receipt_names_the_object() {
    let handle = ObjectHandle::new(77);
    assert_eq!(handle.object_id(), 77);
    let receipt = handle.finalize();
    assert_eq!(receipt.object_id, 77);
}
