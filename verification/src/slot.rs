//! The service slot: a mailbox for one request between the HTTP engine, which
//! fills it, and the host, which drains it.

use vstd::prelude::*;

verus! {

/// A mailbox that holds at most one pending request of the engine.
///
/// The engine asks `poll_ready` before it hands a request over with `call`;
/// the host takes the request out with `take`, and then wakes the engine, so
/// that the engine accepts the next request only once the slot is empty.
pub struct ServiceSlot<T> {
    inner: Option<T>,
}

impl<T> View for ServiceSlot<T> {
    type V = Option<T>;

    closed spec fn view(&self) -> Option<T> {
        self.inner
    }
}

impl<T> ServiceSlot<T> {
    /// An empty slot.
    pub fn new() -> (slot: ServiceSlot<T>)
        ensures
            slot@ is None,
    {
        ServiceSlot { inner: None }
    }

    /// Whether the engine may hand over a request: the slot is empty.
    pub fn poll_ready(&self) -> (ready: bool)
        ensures
            ready == (self@ is None),
    {
        self.inner.is_none()
    }

    /// Deposits a request. What the slot held before leaves it and is handed
    /// back: nothing, where the engine asked `poll_ready` first.
    pub fn call(&mut self, request: T) -> (displaced: Option<T>)
        ensures
            final(self)@ == Some(request),
            displaced == old(self)@,
    {
        let displaced = self.inner.take();
        self.inner = Some(request);
        displaced
    }

    /// Takes the pending request out, if there is one. The slot is empty
    /// afterwards.
    pub fn take(&mut self) -> (request: Option<T>)
        ensures
            request == old(self)@,
            final(self)@ is None,
    {
        self.inner.take()
    }
}

/// One event at a slot.
pub enum SlotEvent<T> {
    /// The engine has parsed a request and offers it: it asks `poll_ready`,
    /// and calls only where the slot is ready.
    Offer(T),
    /// The host asks for the pending request.
    Take,
}

/// A slot together with what went through it.
pub struct SlotTrace<T> {
    /// What the slot holds.
    pub pending: Option<T>,
    /// The requests that the engine handed over, in that order.
    pub accepted: Seq<T>,
    /// The requests that the host received, in that order.
    pub delivered: Seq<T>,
}

/// The slot and its history after one more event.
pub open spec fn slot_step<T>(trace: SlotTrace<T>, event: SlotEvent<T>) -> SlotTrace<T> {
    match event {
        SlotEvent::Offer(request) => if trace.pending is None {
            SlotTrace {
                pending: Some(request),
                accepted: trace.accepted.push(request),
                delivered: trace.delivered,
            }
        } else {
            trace
        },
        SlotEvent::Take => match trace.pending {
            Some(request) => SlotTrace {
                pending: None,
                accepted: trace.accepted,
                delivered: trace.delivered.push(request),
            },
            None => trace,
        },
    }
}

/// The slot and its history after a run of events, from an empty slot.
pub open spec fn slot_run<T>(events: Seq<SlotEvent<T>>) -> SlotTrace<T>
    decreases events.len(),
{
    if events.len() == 0 {
        SlotTrace { pending: None, accepted: Seq::empty(), delivered: Seq::empty() }
    } else {
        slot_step(slot_run(events.drop_last()), events.last())
    }
}

/// What a trace holds in flight: the pending request, if any.
pub open spec fn in_flight<T>(pending: Option<T>) -> Seq<T> {
    match pending {
        Some(request) => seq![request],
        None => Seq::empty(),
    }
}

/// Requests reach the host in the order in which the engine handed them
/// over: after any run of offers and takes, what was delivered, followed by
/// what is pending, is what was accepted. So the delivered requests are the
/// first of the accepted ones, none left out and none out of turn.
pub proof fn lemma_requests_in_order<T>(events: Seq<SlotEvent<T>>)
    ensures
        slot_run(events).accepted == slot_run(events).delivered + in_flight(
            slot_run(events).pending,
        ),
        slot_run(events).delivered.is_prefix_of(slot_run(events).accepted),
    decreases events.len(),
{
    if events.len() > 0 {
        lemma_requests_in_order(events.drop_last());
        let before = slot_run(events.drop_last());
        let after = slot_run(events);
        assert(after.accepted =~= after.delivered + in_flight(after.pending));
    } else {
        let trace = slot_run(events);
        assert(trace.accepted =~= trace.delivered + in_flight(trace.pending));
    }
}

} // verus!
