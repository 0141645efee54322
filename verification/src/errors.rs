//! The bridge's error taxonomy.
//!
//! Host-callback failures — the host method threw, or returned a value of the
//! wrong shape — are tagged with the operation that raised them and carry the
//! host error's textual description, so upstream code can tell "host callback
//! failed" from "protocol logic failed".  Protocol failures are opaque to the
//! bridge and only forwarded.  A single failed callback fails the whole
//! protocol operation: nothing is retried, and every error branch produces an
//! explicit result.

use vstd::prelude::*;
use vstd::string::*;

verus! {

/// The capability operation during which a host callback failed.
#[derive(Debug, Clone, Copy, PartialEq, Eq, Structural)]
pub enum Operation {
    GetSenderKey,
    SaveSenderKey,
}

/// The tag each operation contributes to a callback error.
pub open spec fn operation_name_spec(op: Operation) -> Seq<char> {
    match op {
        Operation::GetSenderKey => "getSenderKey"@,
        Operation::SaveSenderKey => "saveSenderKey"@,
    }
}

impl Operation {
    /// The operation's name as it appears in error reports.
    pub fn name(&self) -> (r: String)
        ensures
            r@ == operation_name_spec(*self),
    {
        match self {
            Operation::GetSenderKey => String::from_str("getSenderKey"),
            Operation::SaveSenderKey => String::from_str("saveSenderKey"),
        }
    }
}

/// Why a host callback failed.
#[derive(Debug, Clone, PartialEq, Eq)]
pub enum CallbackFailure {
    /// The load callback resolved to a non-null value that exposes no
    /// native-handle accessor.
    ResultMustBeObject,
    /// The load callback resolved to a boxed handle that does not hold a
    /// sender key record.
    RecordHandleInvalid,
    /// The save callback resolved to something other than the host's
    /// "no value" result.
    UnexpectedSaveResult,
    /// The host method threw; the description of the thrown error.
    HostThrew(String),
}

/// The textual description of each callback failure.
pub open spec fn failure_description_spec(f: CallbackFailure) -> Seq<char> {
    match f {
        CallbackFailure::ResultMustBeObject => "result must be an object"@,
        CallbackFailure::RecordHandleInvalid => "returned handle is not a sender key record"@,
        CallbackFailure::UnexpectedSaveResult => "save callback did not return undefined"@,
        CallbackFailure::HostThrew(s) => s@,
    }
}

impl CallbackFailure {
    /// Renders the failure as the human-readable text reported upward.
    pub fn describe(&self) -> (r: String)
        ensures
            r@ == failure_description_spec(*self),
    {
        match self {
            CallbackFailure::ResultMustBeObject => String::from_str("result must be an object"),
            CallbackFailure::RecordHandleInvalid => {
                String::from_str("returned handle is not a sender key record")
            },
            CallbackFailure::UnexpectedSaveResult => {
                String::from_str("save callback did not return undefined")
            },
            CallbackFailure::HostThrew(s) => s.clone(),
        }
    }
}

/// A host-callback error as the protocol library's user reads it: the
/// rendered description of what went wrong on the host side.
#[derive(Debug, Clone, PartialEq, Eq)]
pub struct CallbackError {
    pub message: String,
}

impl CallbackError {
    pub fn new(message: String) -> (r: CallbackError)
        ensures
            r.message@ == message@,
    {
        CallbackError { message }
    }

    /// The error's report text.
    pub fn report(&self) -> (r: String)
        ensures
            r@ == "callback error "@ + self.message@,
    {
        let mut out = String::from_str("callback error ");
        out.append(self.message.as_str());
        out
    }
}

/// An error of the protocol operation as a whole.
#[derive(Debug, Clone, PartialEq, Eq)]
pub enum ProtocolError {
    /// A host callback failed: tagged with the operation it interrupted.
    ApplicationCallback { operation: Operation, cause: CallbackFailure },
    /// A failure intrinsic to protocol logic, opaque to the bridge and only
    /// forwarded; the bridge keeps its description.
    Protocol { description: String },
}

/// The description a protocol error settles a rejected promise with.
pub open spec fn protocol_error_description_spec(e: ProtocolError) -> Seq<char> {
    match e {
        ProtocolError::ApplicationCallback { operation, cause } => {
            operation_name_spec(operation) + ": callback error "@ + failure_description_spec(cause)
        },
        ProtocolError::Protocol { description } => description@,
    }
}

impl ProtocolError {
    /// Renders the error for the host: the text a rejected promise carries.
    pub fn describe(&self) -> (r: String)
        ensures
            r@ == protocol_error_description_spec(*self),
    {
        match self {
            ProtocolError::ApplicationCallback { operation, cause } => {
                let mut out = operation.name();
                out.append(": ");
                out.append(CallbackError::new(cause.describe()).report().as_str());
                proof {
                    reveal_strlit(": ");
                    reveal_strlit("callback error ");
                    reveal_strlit(": callback error ");
                    assert(out@ =~= operation_name_spec(*operation) + ": callback error "@
                        + failure_description_spec(*cause));
                }
                out
            },
            ProtocolError::Protocol { description } => description.clone(),
        }
    }
}

/// Tags a host-callback failure with the operation it interrupted, as a
/// protocol-library error.
pub fn js_error_to_rust(func: Operation, err: CallbackFailure) -> (r: ProtocolError)
    ensures
        r == (ProtocolError::ApplicationCallback { operation: func, cause: err }),
{
    ProtocolError::ApplicationCallback { operation: func, cause: err }
}

} // verus!
