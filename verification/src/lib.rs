//! A verified model of an asynchronous bridge between a single-threaded,
//! cooperative host runtime and a multi-threaded native task executor.
//!
//! The bridge lets native async code invoke methods on objects owned by the
//! host runtime, and lets the host observe native computations as promises
//! that settle exactly once.  Its pieces, leaves first:
//!
//! - [`values`]: the domain values that cross the boundary — sender key
//!   names, records, distribution messages — opaque to the host.
//! - [`host`]: host-side values, errors, and settlements, and the boxing of
//!   native values into opaque host handles.
//! - [`errors`]: the error taxonomy — host-callback failures tagged with the
//!   operation that raised them, and opaque protocol failures.
//! - [`promise`]: a host promise as a one-shot settlement slot, settled
//!   exactly once and observed exactly once.
//! - [`queue`]: the host-call scheduler — a FIFO queue of host method calls,
//!   drained one at a time on the host's event-loop thread.
//! - [`handle`]: a cross-thread object handle that roots a host object and
//!   is finalized exactly once, by consuming the handle.
//! - [`store`]: the sender-key-store capability adapter — schedules host
//!   method calls and interprets their settlements.
//! - [`bridge`]: the inverse adapter — settles a host promise from the
//!   outcome of a native computation, catching panics at that boundary and
//!   finalizing the adapter's handle whichever way the computation ended.

pub mod bridge;
pub mod errors;
pub mod handle;
pub mod host;
pub mod promise;
pub mod queue;
pub mod store;
pub mod values;
