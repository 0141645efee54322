//! The host-call scheduler: an event queue feeding the host's single
//! event-loop thread.
//!
//! Native threads enqueue host method calls; the host thread drains them one
//! at a time, so each call's host-side body runs to completion before the
//! next begins.  Scheduling appends at the back and the host takes from the
//! front, so calls scheduled by one native thread run in submission order.
//! A scheduled closure that throws while constructing its promise does not
//! lose the error: the throw is delivered as the rejected settlement.

use vstd::prelude::*;
use crate::host::{HostError, HostValue, Settlement};
use crate::promise::HostPromise;

verus! {

/// One host method call waiting to run on the event-loop thread: the method
/// to invoke on the rooted host object, with its boxed arguments.
#[derive(Debug, Clone, PartialEq, Eq)]
pub enum HostMethodCall {
    /// Invoke the store object's sender-key load method with the boxed name.
    GetSenderKey { object_id: u64, name: HostValue },
    /// Invoke the store object's sender-key save method with the boxed name
    /// and boxed record.
    SaveSenderKey { object_id: u64, name: HostValue, record: HostValue },
}

/// The queue of calls posted to the host's event loop, drained in FIFO
/// order by the host thread.
#[derive(Debug)]
pub struct EventQueue {
    pending: Vec<HostMethodCall>,
}

impl EventQueue {
    /// The scheduled calls, oldest first.
    pub closed spec fn calls(&self) -> Seq<HostMethodCall> {
        self.pending@
    }

    /// A queue with nothing scheduled.
    pub fn new() -> (q: EventQueue)
        ensures
            q.calls() == Seq::<HostMethodCall>::empty(),
    {
        EventQueue { pending: Vec::new() }
    }

    /// Whether the host loop has work left.
    pub fn is_empty(&self) -> (r: bool)
        ensures
            r == (self.calls().len() == 0),
    {
        self.pending.len() == 0
    }

    /// Posts a call for execution on the host event loop and returns
    /// immediately to the calling thread: the call goes to the back of the
    /// queue, behind everything the same thread scheduled before.
    pub fn schedule(&mut self, call: HostMethodCall)
        ensures
            final(self).calls() == old(self).calls().push(call),
    {
        self.pending.push(call);
    }

    /// Takes the next call for the host thread to run: the oldest scheduled
    /// one.  The host thread runs each taken call to completion before
    /// taking the next, so host-side call bodies never interleave.
    pub fn take_next(&mut self) -> (r: Option<HostMethodCall>)
        ensures
            old(self).calls().len() == 0 ==> (r is None
                && final(self).calls() == old(self).calls()),
            old(self).calls().len() > 0 ==> (r == Some(old(self).calls()[0])
                && final(self).calls() == old(self).calls().drop_first()),
    {
        if self.pending.len() == 0 {
            None
        } else {
            let c = self.pending.remove(0);
            proof {
                assert(self.pending@ =~= old(self).pending@.drop_first());
            }
            Some(c)
        }
    }

    /// Runs the host loop until the queue is idle: the host thread ends up
    /// having executed exactly the scheduled calls, in submission order.
    pub fn drain(&mut self) -> (calls: Vec<HostMethodCall>)
        ensures
            calls@ == old(self).calls(),
            final(self).calls().len() == 0,
    {
        let mut out: Vec<HostMethodCall> = Vec::new();
        while 0 < self.pending.len()
            invariant
                out@ + self.pending@ == old(self).pending@,
            decreases self.pending.len(),
        {
            let c = self.pending.remove(0);
            out.push(c);
            proof {
                assert(out@ + self.pending@ =~= old(self).pending@);
            }
        }
        proof {
            assert(out@ =~= old(self).pending@);
        }
        out
    }
}

/// What a scheduled closure's execution on the host thread came to: it
/// produced a promise that settled, or it threw while constructing the
/// promise.
#[derive(Debug, Clone, PartialEq, Eq)]
pub enum ClosureOutcome {
    /// The closure returned a promise, and the promise settled thus.
    Produced(Settlement),
    /// The closure threw this host error before producing a promise.
    Threw(HostError),
}

/// The settlement the awaiting native task receives for each way the
/// scheduled closure can end: a synchronous throw is delivered as the
/// rejected settlement, never silently dropped.
pub open spec fn delivered_settlement_spec(o: ClosureOutcome) -> Settlement {
    match o {
        ClosureOutcome::Produced(s) => s,
        ClosureOutcome::Threw(e) => Settlement::Rejected(e),
    }
}

/// Forwards a scheduled closure's outcome into the promise the native side
/// awaits, turning a synchronous throw into a rejection.
pub fn deliver(promise: &mut HostPromise, outcome: ClosureOutcome)
    requires
        old(promise).wf(),
        old(promise).is_pending(),
    ensures
        final(promise).wf(),
        final(promise).times_settled() == 1,
        !final(promise).is_observed(),
        final(promise).settlement() == delivered_settlement_spec(outcome),
{
    match outcome {
        ClosureOutcome::Produced(s) => promise.settle(s),
        ClosureOutcome::Threw(e) => promise.settle(Settlement::Rejected(e)),
    }
}

} // verus!
