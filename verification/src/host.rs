//! Host-side values, errors, and settlements.
//!
//! Host objects live in a single-threaded cooperative runtime and may only be
//! touched from its event-loop thread.  The bridge never reads into a host
//! value except to ask which of a few shapes it has: the null value, the
//! "no value" result, a boxed native value exposing its handle, or anything
//! else (a plain object, a string, a number, ...), which stays opaque.

use vstd::prelude::*;
use crate::values::NativeValue;

verus! {

/// A host value as the bridge observes it.
#[derive(Debug, Clone, PartialEq, Eq)]
pub enum HostValue {
    /// The host's null value.
    Null,
    /// The host's "no value" result (what a host callback returns when it
    /// returns nothing).
    Undefined,
    /// A host object that boxes a native value and exposes a
    /// handle-retrieval operation for it.
    Boxed(NativeValue),
    /// Any other host value; the bridge never looks inside it.
    Opaque,
}

/// A host-side error: the bridge keeps only its textual description.
#[derive(Debug, Clone, PartialEq, Eq)]
pub struct HostError {
    pub description: String,
}

/// The single terminal event of a host promise: a success value or a thrown
/// host error.
#[derive(Debug, Clone, PartialEq, Eq)]
pub enum Settlement {
    Resolved(HostValue),
    Rejected(HostError),
}

/// Boxes a native value into an opaque host handle usable as a call argument.
pub fn boxed_object(value: NativeValue) -> (r: HostValue)
    ensures
        r == HostValue::Boxed(value),
{
    HostValue::Boxed(value)
}

/// What unboxing yields for each host value shape: only a boxed native value
/// has a handle to retrieve.
pub open spec fn unboxed_spec(v: HostValue) -> Option<NativeValue> {
    match v {
        HostValue::Boxed(n) => Some(n),
        _ => None,
    }
}

/// Retrieves the native value boxed in a host value, if it is one: the
/// handle-retrieval operation a boxed object exposes.
pub fn unbox_object(v: HostValue) -> (r: Option<NativeValue>)
    ensures
        r == unboxed_spec(v),
{
    match v {
        HostValue::Boxed(n) => Some(n),
        _ => None,
    }
}

/// Boxing a native value and unboxing it on the host side yields the value
/// back; reboxing and unboxing again still does.  Native code therefore
/// observes a value sent through a host call round trip as equal to the
/// original.
pub proof fn lemma_box_round_trip(value: NativeValue)
    ensures
        unboxed_spec(HostValue::Boxed(value)) == Some(value),
        unboxed_spec(HostValue::Boxed(unboxed_spec(HostValue::Boxed(value))->Some_0))
            == Some(value),
{
}

} // verus!
