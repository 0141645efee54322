//! A host promise, modeled as a one-shot settlement slot.
//!
//! A promise is created pending, settles at most once, and its settlement is
//! observed (handed to the awaiting native task over a one-shot channel) at
//! most once.  After the observation no further observation is possible: the
//! settlement value has moved to its consumer.  The promise counts its
//! settlements and observations, so a contract can say not just that a step
//! is possible at most once but that a completed round trip performed it
//! exactly once.

use vstd::prelude::*;
use crate::host::Settlement;

verus! {

/// A host promise.  The counts never decrease, so the promise walks the
/// three states pending, settled, observed in order and never leaves the
/// last one.
#[derive(Debug)]
pub struct HostPromise {
    /// The one-shot slot: filled by `settle`, drained by `observe`.
    inbox: Option<Settlement>,
    settle_count: u64,
    observe_count: u64,
}

impl HostPromise {
    /// How many times the promise has settled (0 or 1 for a well-formed
    /// promise).
    pub closed spec fn times_settled(&self) -> u64 {
        self.settle_count
    }

    /// How many times the settlement has been observed (0 or 1 for a
    /// well-formed promise).
    pub closed spec fn times_observed(&self) -> u64 {
        self.observe_count
    }

    /// The promise has not settled yet.
    pub open spec fn is_pending(&self) -> bool {
        self.times_settled() == 0
    }

    /// The promise has settled.
    pub open spec fn is_settled(&self) -> bool {
        self.times_settled() > 0
    }

    /// The settlement has been handed to its consumer.
    pub open spec fn is_observed(&self) -> bool {
        self.times_observed() > 0
    }

    /// The settlement the promise settled with, while it still sits in the
    /// slot.
    pub closed spec fn settlement(&self) -> Settlement
        recommends
            self.is_settled(),
            !self.is_observed(),
    {
        self.inbox->Some_0
    }

    /// A promise settles at most once and is observed at most once, only
    /// after settling; the slot holds the settlement exactly between the
    /// two events.
    pub closed spec fn wf(&self) -> bool {
        &&& self.settle_count <= 1
        &&& self.observe_count <= self.settle_count
        &&& (self.inbox is Some <==> (self.settle_count == 1 && self.observe_count == 0))
    }

    /// A new promise: pending, nothing observed.
    pub fn new() -> (p: HostPromise)
        ensures
            p.wf(),
            p.is_pending(),
            !p.is_observed(),
    {
        HostPromise { inbox: None, settle_count: 0, observe_count: 0 }
    }

    /// Settles the promise.  Settling a settled promise is excluded here,
    /// and every completed round trip settles, so a driven promise settles
    /// neither zero times nor twice.
    pub fn settle(&mut self, s: Settlement)
        requires
            old(self).wf(),
            old(self).is_pending(),
        ensures
            final(self).wf(),
            final(self).times_settled() == 1,
            !final(self).is_observed(),
            final(self).settlement() == s,
    {
        self.inbox = Some(s);
        self.settle_count = 1;
    }

    /// Hands the settlement to its consumer.  Only a settled, not yet
    /// observed promise can be observed, so each settlement is observed at
    /// most once.
    pub fn observe(&mut self) -> (r: Settlement)
        requires
            old(self).wf(),
            old(self).is_settled(),
            !old(self).is_observed(),
        ensures
            final(self).wf(),
            final(self).times_settled() == old(self).times_settled(),
            final(self).times_observed() == 1,
            r == old(self).settlement(),
    {
        let taken = self.inbox.take();
        self.observe_count = 1;
        match taken {
            Some(s) => s,
            None => vstd::pervasive::unreached(),
        }
    }
}

/// However a well-formed promise was driven, it has settled at most once
/// and its settlement has been observed at most once, and never observed
/// without having settled.
pub proof fn lemma_settlement_at_most_once(p: &HostPromise)
    requires
        p.wf(),
    ensures
        p.times_settled() <= 1,
        p.times_observed() <= 1,
        p.is_observed() ==> p.is_settled(),
{
}

} // verus!
