//! Bounded admission with backpressure: the accounting.
//!
//! Each model has a concurrency limit (`max_concurrency` permits) and a bounded
//! waiting room (`max_queue`). The flow is:
//!
//! 1. Reserve a queue slot. If the waiting room is full → reject (`QueueFull`).
//! 2. Wait for a concurrency permit, up to the queue timeout. On timeout →
//!    reject (`QueueTimeout`).
//! 3. On success, leave the waiting room and hold the permit until the request
//!    finishes.
//!
//! The waiting itself (a semaphore and a timer) is done by the server; this
//! type makes every decision and keeps the counts, so that the process never
//! queues more than `max_queue` waiters per model.

use vstd::prelude::*;

verus! {

#[derive(Debug, Clone, Copy, PartialEq, Eq, Structural)]
pub enum AdmitReject {
    QueueFull,
    QueueTimeout,
    /// The permit source was closed (shutting down).
    Closed,
}

/// How the wait for a concurrency permit ended.
#[derive(Debug, Clone, Copy, PartialEq, Eq, Structural)]
pub enum AcquireOutcome {
    Acquired,
    Closed,
    TimedOut,
}

/// The abstract state of a model's admission accounting.
pub struct AdmissionView {
    pub max_concurrency: usize,
    pub max_queue: usize,
    pub queue_timeout_ns: u128,
    /// Requests currently waiting for a permit.
    pub queue_depth: usize,
    /// Requests currently holding a permit.
    pub inflight: usize,
}

impl AdmissionView {
    /// The waiting room never holds more than its capacity, and no more than
    /// `max_concurrency` requests are in flight.
    pub open spec fn wf(self) -> bool {
        &&& self.queue_depth <= self.max_queue
        &&& self.inflight <= self.max_concurrency
    }

    /// A request asks for a place in the waiting room.
    pub open spec fn after_enter(self) -> (AdmissionView, Result<(), AdmitReject>) {
        if self.queue_depth >= self.max_queue {
            (self, Err(AdmitReject::QueueFull))
        } else {
            (AdmissionView { queue_depth: (self.queue_depth + 1) as usize, ..self }, Ok(()))
        }
    }

    /// A waiting request leaves the waiting room because its wait ended with
    /// `outcome`.
    pub open spec fn after_leave(self, outcome: AcquireOutcome) -> (
        AdmissionView,
        Result<(), AdmitReject>,
    ) {
        let left = AdmissionView { queue_depth: (self.queue_depth - 1) as usize, ..self };
        match outcome {
            AcquireOutcome::Acquired => (
                AdmissionView { inflight: (self.inflight + 1) as usize, ..left },
                Ok(()),
            ),
            AcquireOutcome::Closed => (left, Err(AdmitReject::Closed)),
            AcquireOutcome::TimedOut => (left, Err(AdmitReject::QueueTimeout)),
        }
    }

    /// An admitted request finished and gave its permit back.
    pub open spec fn after_release(self) -> AdmissionView {
        AdmissionView { inflight: (self.inflight - 1) as usize, ..self }
    }
}

/// One step of a model's admission accounting, as the server takes them
/// (each under the registry's lock): a request asks for a place in the
/// waiting room, a waiting request's wait ends, or an admitted request gives
/// its permit back.
#[derive(Debug, Clone, Copy, PartialEq, Eq, Structural)]
pub enum AdmissionStep {
    Enter,
    Leave(AcquireOutcome),
    Release,
}

impl AdmissionView {
    /// The step may be taken now: a wait can only end for a request that is
    /// waiting, a permit is only obtained while fewer than `max_concurrency`
    /// are held, and only a held permit can be given back.
    pub open spec fn can_take(self, s: AdmissionStep) -> bool {
        match s {
            AdmissionStep::Enter => true,
            AdmissionStep::Leave(o) => self.queue_depth > 0 && (o == AcquireOutcome::Acquired
                ==> self.inflight < self.max_concurrency),
            AdmissionStep::Release => self.inflight > 0,
        }
    }

    /// The state after step `s`.
    pub open spec fn after_step(self, s: AdmissionStep) -> AdmissionView {
        match s {
            AdmissionStep::Enter => self.after_enter().0,
            AdmissionStep::Leave(o) => self.after_leave(o).0,
            AdmissionStep::Release => self.after_release(),
        }
    }

    /// The state after the steps `steps`, in order.
    pub open spec fn after_steps(self, steps: Seq<AdmissionStep>) -> AdmissionView
        decreases steps.len(),
    {
        if steps.len() == 0 {
            self
        } else {
            self.after_steps(steps.drop_last()).after_step(steps.last())
        }
    }

    /// Each of the steps could be taken when its turn came.
    pub open spec fn can_take_all(self, steps: Seq<AdmissionStep>) -> bool
        decreases steps.len(),
    {
        if steps.len() == 0 {
            true
        } else {
            self.can_take_all(steps.drop_last()) && self.after_steps(steps.drop_last()).can_take(
                steps.last(),
            )
        }
    }
}

/// How many of the steps are waits that ended with a permit.
pub open spec fn acquired_count(steps: Seq<AdmissionStep>) -> nat
    decreases steps.len(),
{
    if steps.len() == 0 {
        0
    } else {
        acquired_count(steps.drop_last()) + if steps.last() == AdmissionStep::Leave(
            AcquireOutcome::Acquired,
        ) {
            1nat
        } else {
            0nat
        }
    }
}

/// How many of the steps give a permit back.
pub open spec fn released_count(steps: Seq<AdmissionStep>) -> nat
    decreases steps.len(),
{
    if steps.len() == 0 {
        0
    } else {
        released_count(steps.drop_last()) + if steps.last() == AdmissionStep::Release {
            1nat
        } else {
            0nat
        }
    }
}

pub struct Admission {
    max_concurrency: usize,
    max_queue: usize,
    queue_timeout_ns: u128,
    queue_depth: usize,
    inflight: usize,
}

impl View for Admission {
    type V = AdmissionView;

    closed spec fn view(&self) -> AdmissionView {
        AdmissionView {
            max_concurrency: self.max_concurrency,
            max_queue: self.max_queue,
            queue_timeout_ns: self.queue_timeout_ns,
            queue_depth: self.queue_depth,
            inflight: self.inflight,
        }
    }
}

impl Admission {
    /// The invariant of every admission value (see [`AdmissionView::wf`]).
    #[verifier::type_invariant]
    spec fn keeps_invariant(self) -> bool {
        self@.wf()
    }

    /// Accounting for a model with `max_concurrency` permits and a waiting
    /// room of `max_queue` places; waits last at most `queue_timeout_ns`.
    pub fn new(max_concurrency: usize, max_queue: usize, queue_timeout_ns: u128) -> (a: Self)
        ensures
            a@ == (AdmissionView {
                max_concurrency,
                max_queue,
                queue_timeout_ns,
                queue_depth: 0,
                inflight: 0,
            }),
    {
        Admission { max_concurrency, max_queue, queue_timeout_ns, queue_depth: 0, inflight: 0 }
    }

    /// Requests currently waiting; never more than the waiting room holds.
    pub fn queue_depth(&self) -> (n: usize)
        ensures
            n == self@.queue_depth,
            n <= self@.max_queue,
    {
        proof {
            use_type_invariant(self);
        }
        self.queue_depth
    }

    /// Requests currently in flight; never more than the concurrency limit.
    pub fn inflight(&self) -> (n: usize)
        ensures
            n == self@.inflight,
            n <= self@.max_concurrency,
    {
        proof {
            use_type_invariant(self);
        }
        self.inflight
    }

    pub fn max_concurrency(&self) -> (n: usize)
        ensures
            n == self@.max_concurrency,
    {
        self.max_concurrency
    }

    /// How long a request may wait for a permit, in nanoseconds.
    pub fn queue_timeout(&self) -> (ns: u128)
        ensures
            ns == self@.queue_timeout_ns,
    {
        self.queue_timeout_ns
    }

    /// Step 1: reserve a place in the bounded waiting room, or reject with
    /// `QueueFull` (changing nothing) when it is full.
    pub fn enter_queue(&mut self) -> (r: Result<(), AdmitReject>)
        ensures
            (final(self)@, r) == old(self)@.after_enter(),
    {
        proof {
            use_type_invariant(&*self);
        }
        if self.queue_depth >= self.max_queue {
            return Err(AdmitReject::QueueFull);
        }
        self.queue_depth = self.queue_depth + 1;
        Ok(())
    }

    /// Steps 2 and 3: a waiting request leaves the waiting room whatever the
    /// outcome of its wait; with a permit it becomes in-flight, otherwise it is
    /// rejected (`QueueTimeout` on timeout, `Closed` when the permit source
    /// closed). A permit is only obtained while fewer than `max_concurrency`
    /// requests hold one.
    pub fn leave_queue(&mut self, outcome: AcquireOutcome) -> (r: Result<(), AdmitReject>)
        requires
            old(self)@.queue_depth > 0,
            outcome == AcquireOutcome::Acquired ==> old(self)@.inflight < old(self)@.max_concurrency,
        ensures
            (final(self)@, r) == old(self)@.after_leave(outcome),
    {
        proof {
            use_type_invariant(&*self);
        }
        self.queue_depth = self.queue_depth - 1;
        match outcome {
            AcquireOutcome::Acquired => {
                self.inflight = self.inflight + 1;
                Ok(())
            },
            AcquireOutcome::Closed => Err(AdmitReject::Closed),
            AcquireOutcome::TimedOut => Err(AdmitReject::QueueTimeout),
        }
    }

    /// An admitted request finished (or was cancelled) and gives its permit
    /// back.
    pub fn release(&mut self)
        requires
            old(self)@.inflight > 0,
        ensures
            final(self)@ == old(self)@.after_release(),
    {
        proof {
            use_type_invariant(&*self);
        }
        self.inflight = self.inflight - 1;
    }
}

/// Every step keeps the waiting room within its capacity and the in-flight
/// requests within the concurrency limit.
pub proof fn lemma_steps_keep_wf(v: AdmissionView, outcome: AcquireOutcome)
    requires
        v.wf(),
    ensures
        v.after_enter().0.wf(),
        v.queue_depth > 0 && (outcome == AcquireOutcome::Acquired ==> v.inflight
            < v.max_concurrency) ==> v.after_leave(outcome).0.wf(),
        v.inflight > 0 ==> v.after_release().wf(),
{
}

/// A full waiting room rejects with `QueueFull` and changes nothing.
pub proof fn lemma_full_queue_rejects(v: AdmissionView)
    requires
        v.queue_depth >= v.max_queue,
    ensures
        v.after_enter() == (v, Err::<(), AdmitReject>(AdmitReject::QueueFull)),
{
}

/// A request that waited and was turned away leaves the counts exactly as it
/// found them; one that was admitted and then finished does too.
pub proof fn lemma_no_leak(v: AdmissionView, outcome: AcquireOutcome)
    requires
        v.wf(),
        v.queue_depth < v.max_queue,
        v.inflight < v.max_concurrency,
    ensures
        outcome != AcquireOutcome::Acquired ==> v.after_enter().0.after_leave(outcome).0 == v,
        outcome == AcquireOutcome::Acquired ==> v.after_enter().0.after_leave(
            outcome,
        ).0.after_release() == v,
{
}

/// Over any interleaving of the requests' steps, each taken when it could be,
/// the waiting room never holds more than `max_queue` requests and no more than
/// `max_concurrency` hold a permit; the limits never change, and the requests
/// in flight are exactly those that obtained a permit and have not given it
/// back.
pub proof fn lemma_any_interleaving_stays_bounded(v: AdmissionView, steps: Seq<AdmissionStep>)
    requires
        v.wf(),
        v.can_take_all(steps),
    ensures
        v.after_steps(steps).wf(),
        v.after_steps(steps).queue_depth <= v.max_queue,
        v.after_steps(steps).inflight <= v.max_concurrency,
        v.after_steps(steps).max_queue == v.max_queue,
        v.after_steps(steps).max_concurrency == v.max_concurrency,
        v.after_steps(steps).queue_timeout_ns == v.queue_timeout_ns,
        v.after_steps(steps).inflight + released_count(steps) == v.inflight + acquired_count(steps),
    decreases steps.len(),
{
    if steps.len() > 0 {
        let prefix = steps.drop_last();
        lemma_any_interleaving_stays_bounded(v, prefix);
        lemma_steps_keep_wf(v.after_steps(prefix), AcquireOutcome::Acquired);
        match steps.last() {
            AdmissionStep::Leave(o) => {
                lemma_steps_keep_wf(v.after_steps(prefix), o);
            },
            _ => {},
        }
    }
}

} // verus!
