//! The completion handle: an exclusively-owned reference to the host-side
//! continuation, anchored at registration and consumed by its single
//! invocation.
//!
//! Exactly-once is enforced structurally: the handle's field is private, so
//! the only way to obtain one is [`CompletionHandle::register`], and the only
//! way to reach the continuation again is [`CompletionHandle::deliver`],
//! which takes the handle by value — after delivery the handle is gone and
//! cannot be invoked a second time.

use vstd::prelude::*;

use crate::outcome::{spec_error_arg, spec_value_arg, DeliveryValue, Outcome, SuccessValue};

verus! {

/// An exclusively-owned reference to a host continuation. `F` is the host's
/// continuation reference type; the bridge never inspects it.
#[derive(Debug)]
pub struct CompletionHandle<F> {
    target: F,
}

/// One invocation of a continuation, fully determined: which continuation,
/// and the error-first pair of arguments it receives. The host schedules
/// this on its own thread and performs the call there.
#[derive(Debug, PartialEq, Eq)]
pub struct Delivery<F> {
    /// The continuation to invoke.
    pub target: F,
    /// The first argument: null on success, the failure description on
    /// failure.
    pub error: DeliveryValue,
    /// The second argument: the success value, or null.
    pub value: DeliveryValue,
}

/// The one invocation an outcome owes a continuation: the error-first pair
/// for the outcome, addressed to that continuation and no other.
pub open spec fn spec_delivery<F>(target: F, o: Outcome) -> Delivery<F> {
    Delivery { target, error: spec_error_arg(o), value: spec_value_arg(o) }
}

impl<F> CompletionHandle<F> {
    /// The continuation this handle will invoke.
    pub closed spec fn target(&self) -> F {
        self.target
    }

    /// Anchors a host continuation for transfer to a worker: from here until
    /// delivery the handle is the only reference the bridge holds to it.
    pub fn register(continuation: F) -> (h: CompletionHandle<F>)
        ensures
            h.target() == continuation,
    {
        CompletionHandle { target: continuation }
    }

    /// Consumes the handle and converts the outcome into the error-first
    /// invocation the continuation is owed. Taking `self` by value releases
    /// the anchor: no second delivery can ever be formed from this handle.
    pub fn deliver(self, outcome: Outcome) -> (d: Delivery<F>)
        ensures
            d == spec_delivery(self.target(), outcome),
    {
        Delivery { target: self.target, error: error_arg(&outcome), value: value_arg(outcome) }
    }
}

/// Computes the error argument of the error-first pair.
fn error_arg(o: &Outcome) -> (r: DeliveryValue)
    ensures
        r == spec_error_arg(*o),
{
    match o {
        Outcome::Success(_) => DeliveryValue::Null,
        Outcome::Failure(m) => DeliveryValue::Text(m.clone()),
    }
}

/// Computes the value argument of the error-first pair.
fn value_arg(o: Outcome) -> (r: DeliveryValue)
    ensures
        r == spec_value_arg(o),
{
    match o {
        Outcome::Success(v) => match v {
            SuccessValue::Nothing => DeliveryValue::Null,
            SuccessValue::Text(t) => DeliveryValue::Text(t),
            SuccessValue::Number(n) => DeliveryValue::Number(n),
        },
        Outcome::Failure(_) => DeliveryValue::Null,
    }
}

/// Law: deliveries never cross. Each delivery goes to the continuation of
/// the handle it was formed from and carries the encoding of its own
/// outcome; two calls with distinct continuations can never invoke each
/// other's.
pub proof fn lemma_no_cross_delivery<F>(t1: F, t2: F, o1: Outcome, o2: Outcome)
    requires
        t1 != t2,
    ensures
        spec_delivery(t1, o1).target == t1,
        spec_delivery(t1, o1).error == spec_error_arg(o1),
        spec_delivery(t1, o1).value == spec_value_arg(o1),
        spec_delivery(t1, o1).target != spec_delivery(t2, o2).target,
{
}

} // verus!
