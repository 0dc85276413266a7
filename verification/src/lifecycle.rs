//! The per-call state machine: `Created → Dispatched → Completed →
//! Delivered` (terminal), with `Completed → Discarded` (terminal) for calls
//! that registered no continuation. No transition is ever retried or taken
//! twice; the laws below pin down that a continuation, once registered, is
//! invoked exactly once, only after dispatch and completion.

use vstd::prelude::*;

verus! {

/// Where one call stands in its life.
#[derive(Clone, Copy, Debug, PartialEq, Eq, Structural)]
pub enum CallState {
    /// Arguments validated, nothing dispatched yet.
    Created,
    /// Handed to a worker; the entry point has returned to the host.
    Dispatched,
    /// The collaborator call returned and the outcome exists.
    Completed,
    /// The continuation was invoked with the encoded outcome. Terminal.
    Delivered,
    /// No continuation was registered; the outcome was observed for
    /// diagnostics and dropped. Terminal.
    Discarded,
}

/// One step in a call's life.
#[derive(Clone, Copy, Debug, PartialEq, Eq, Structural)]
pub enum CallEvent {
    /// The work leaves the host thread.
    Dispatch,
    /// The collaborator call returns an outcome on the worker.
    Complete,
    /// The continuation is invoked on the host thread.
    Deliver,
    /// The outcome is dropped because no continuation was registered.
    Discard,
}

/// One call's progress: its state, and whether a continuation was registered
/// at creation (that never changes afterwards).
#[derive(Clone, Copy, Debug, PartialEq, Eq, Structural)]
pub struct CallRecord {
    pub state: CallState,
    pub has_handle: bool,
}

impl CallRecord {
    /// A call as it stands right after validation, before dispatch.
    pub open spec fn spec_fresh(has_handle: bool) -> CallRecord {
        CallRecord { state: CallState::Created, has_handle }
    }

    /// Begins tracking a call: validated, not yet dispatched.
    pub fn fresh(has_handle: bool) -> (r: CallRecord)
        ensures
            r == CallRecord::spec_fresh(has_handle),
    {
        CallRecord { state: CallState::Created, has_handle }
    }

    /// A call in a terminal state will never move again.
    pub open spec fn is_terminal(self) -> bool {
        self.state is Delivered || self.state is Discarded
    }

    /// Advances the call by one event, or refuses: the record after a legal
    /// event, `None` for an event the state machine does not admit.
    pub fn step(self, event: CallEvent) -> (r: Option<CallRecord>)
        ensures
            r == spec_step(self, event),
    {
        match (self.state, event) {
            (CallState::Created, CallEvent::Dispatch) => Some(
                CallRecord { state: CallState::Dispatched, has_handle: self.has_handle },
            ),
            (CallState::Dispatched, CallEvent::Complete) => Some(
                CallRecord { state: CallState::Completed, has_handle: self.has_handle },
            ),
            (CallState::Completed, CallEvent::Deliver) => if self.has_handle {
                Some(CallRecord { state: CallState::Delivered, has_handle: self.has_handle })
            } else {
                None
            },
            (CallState::Completed, CallEvent::Discard) => if !self.has_handle {
                Some(CallRecord { state: CallState::Discarded, has_handle: self.has_handle })
            } else {
                None
            },
            _ => None,
        }
    }
}

/// The transition relation of the per-call state machine. Delivery is legal
/// only with a registered continuation, discarding only without one, and the
/// two terminal states admit nothing further.
pub open spec fn spec_step(rec: CallRecord, event: CallEvent) -> Option<CallRecord> {
    match (rec.state, event) {
        (CallState::Created, CallEvent::Dispatch) => Some(
            CallRecord { state: CallState::Dispatched, has_handle: rec.has_handle },
        ),
        (CallState::Dispatched, CallEvent::Complete) => Some(
            CallRecord { state: CallState::Completed, has_handle: rec.has_handle },
        ),
        (CallState::Completed, CallEvent::Deliver) => if rec.has_handle {
            Some(CallRecord { state: CallState::Delivered, has_handle: rec.has_handle })
        } else {
            None
        },
        (CallState::Completed, CallEvent::Discard) => if !rec.has_handle {
            Some(CallRecord { state: CallState::Discarded, has_handle: rec.has_handle })
        } else {
            None
        },
        _ => None,
    }
}

/// The record a call reaches after a sequence of events, or `None` as soon
/// as any event in the sequence is illegal.
pub open spec fn spec_run(init: CallRecord, events: Seq<CallEvent>) -> Option<CallRecord>
    decreases events.len(),
{
    if events.len() == 0 {
        Some(init)
    } else {
        match spec_run(init, events.drop_last()) {
            Some(rec) => spec_step(rec, events.last()),
            None => None,
        }
    }
}

/// How many times a sequence of events invokes the continuation.
pub open spec fn delivery_count(events: Seq<CallEvent>) -> nat
    decreases events.len(),
{
    if events.len() == 0 {
        0nat
    } else {
        delivery_count(events.drop_last()) + if events.last() is Deliver {
            1nat
        } else {
            0nat
        }
    }
}

/// The state machine's invariant over any legal run from a fresh call: the
/// continuation has been invoked exactly as often as the state says — once
/// in `Delivered`, never in any other state — delivery happens only for
/// calls with a registered continuation, discarding only for calls without
/// one, and whether a continuation was registered never changes.
pub proof fn lemma_lifecycle_invariant(init: CallRecord, events: Seq<CallEvent>)
    requires
        init.state is Created,
    ensures
        spec_run(init, events) matches Some(r) ==> {
            &&& r.has_handle == init.has_handle
            &&& delivery_count(events) == if r.state is Delivered {
                1nat
            } else {
                0nat
            }
            &&& (r.state is Delivered ==> r.has_handle)
            &&& (r.state is Discarded ==> !r.has_handle)
        },
    decreases events.len(),
{
    if events.len() > 0 {
        lemma_lifecycle_invariant(init, events.drop_last());
    }
}

/// Law: a call that registered a continuation and runs to a terminal state
/// has invoked that continuation exactly once — never zero times, never
/// twice. (And on any legal run, terminal or not, it is invoked at most
/// once.)
pub proof fn lemma_continuation_invoked_exactly_once(events: Seq<CallEvent>)
    requires
        spec_run(CallRecord::spec_fresh(true), events) matches Some(r) && r.is_terminal(),
    ensures
        spec_run(CallRecord::spec_fresh(true), events) matches Some(r) && r.state is Delivered,
        delivery_count(events) == 1,
{
    lemma_lifecycle_invariant(CallRecord::spec_fresh(true), events);
}

/// Law: on any legal run of any call, the continuation is invoked at most
/// once, whether or not the call has finished.
pub proof fn lemma_at_most_one_delivery(init: CallRecord, events: Seq<CallEvent>)
    requires
        init.state is Created,
        spec_run(init, events) is Some,
    ensures
        delivery_count(events) <= 1,
{
    lemma_lifecycle_invariant(init, events);
}

/// Law: the entry point hands control back to the host as soon as the call
/// is dispatched, and at that moment no continuation has run — completion
/// and delivery are strictly later events on the worker's side.
pub proof fn lemma_no_delivery_before_completion(init: CallRecord, events: Seq<CallEvent>)
    requires
        init.state is Created,
        spec_run(init, events) matches Some(r) && !(r.state is Delivered),
    ensures
        delivery_count(events) == 0,
{
    lemma_lifecycle_invariant(init, events);
}

/// Law: a call that is never dispatched — as after an argument error, which
/// is reported synchronously at the call site — admits no events at all: no
/// worker ever sees it and no continuation is ever invoked.
pub proof fn lemma_rejected_call_stays_put(events: Seq<CallEvent>, has_handle: bool)
    requires
        spec_run(CallRecord::spec_fresh(has_handle), events) is Some,
        forall|i: int| 0 <= i < events.len() ==> !((#[trigger] events[i]) is Dispatch),
    ensures
        events.len() == 0,
        delivery_count(events) == 0,
    decreases events.len(),
{
    if events.len() > 0 {
        lemma_rejected_call_stays_put(events.drop_last(), has_handle);
    }
}

} // verus!
