//! Domain values that cross the host boundary.
//!
//! On the host side these values are opaque: a host object exposes nothing of
//! them but a handle-retrieval operation.  Native code owns them as plain
//! data, and clones them before scheduling a host call, because the scheduled
//! closure runs later and must own its arguments.

use vstd::prelude::*;

verus! {

/// The key of a sender-key record: a group identifier together with the
/// sending party's identifier and device.
#[derive(Debug, Clone, PartialEq, Eq)]
pub struct SenderKeyName {
    pub group_id: Vec<u8>,
    pub sender_name: Vec<u8>,
    pub sender_device_id: u32,
}

/// The mathematical value of a [`SenderKeyName`].
pub ghost struct SenderKeyNameView {
    pub group_id: Seq<u8>,
    pub sender_name: Seq<u8>,
    pub sender_device_id: u32,
}

impl View for SenderKeyName {
    type V = SenderKeyNameView;

    open spec fn view(&self) -> SenderKeyNameView {
        SenderKeyNameView {
            group_id: self.group_id@,
            sender_name: self.sender_name@,
            sender_device_id: self.sender_device_id,
        }
    }
}

/// A sender-key record: serialized protocol state, opaque to the bridge.
#[derive(Debug, Clone, PartialEq, Eq)]
pub struct SenderKeyRecord {
    pub data: Vec<u8>,
}

impl View for SenderKeyRecord {
    type V = Seq<u8>;

    open spec fn view(&self) -> Seq<u8> {
        self.data@
    }
}

/// A sender-key distribution message, opaque to the bridge: the bridge only
/// carries it between the protocol library and the host.
#[derive(Debug, Clone, PartialEq, Eq)]
pub struct SenderKeyDistributionMessage {
    pub data: Vec<u8>,
}

impl View for SenderKeyDistributionMessage {
    type V = Seq<u8>;

    open spec fn view(&self) -> Seq<u8> {
        self.data@
    }
}

/// Copies a byte vector.  Scheduled host calls own their arguments, so the
/// bridge copies each argument before handing it to the scheduler.
pub fn copy_bytes(v: &Vec<u8>) -> (r: Vec<u8>)
    ensures
        r@ == v@,
{
    let mut out: Vec<u8> = Vec::new();
    let mut i: usize = 0;
    while i < v.len()
        invariant
            i <= v.len(),
            out@ == v@.subrange(0, i as int),
        decreases v.len() - i,
    {
        out.push(v[i]);
        i = i + 1;
    }
    proof {
        assert(out@ =~= v@);
    }
    out
}

impl SenderKeyName {
    /// An owned copy with the same value, for a scheduled host call.
    pub fn duplicate(&self) -> (r: Self)
        ensures
            r@ == self@,
    {
        SenderKeyName {
            group_id: copy_bytes(&self.group_id),
            sender_name: copy_bytes(&self.sender_name),
            sender_device_id: self.sender_device_id,
        }
    }
}

impl SenderKeyRecord {
    /// An owned copy with the same value, for a scheduled host call.
    pub fn duplicate(&self) -> (r: Self)
        ensures
            r@ == self@,
    {
        SenderKeyRecord { data: copy_bytes(&self.data) }
    }
}

impl SenderKeyDistributionMessage {
    /// An owned copy with the same value.
    pub fn duplicate(&self) -> (r: Self)
        ensures
            r@ == self@,
    {
        SenderKeyDistributionMessage { data: copy_bytes(&self.data) }
    }
}

/// A native value boxed for the host: the host sees only an opaque handle,
/// native code on the far side of a round trip gets the value back.
#[derive(Debug, Clone, PartialEq, Eq)]
pub enum NativeValue {
    Name(SenderKeyName),
    Record(SenderKeyRecord),
    Message(SenderKeyDistributionMessage),
    /// The result of an operation that returns nothing.
    Unit,
}

} // verus!
