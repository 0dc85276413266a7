//! The result of one dispatched operation, and its encoding into the host's
//! result conventions: the error-first pair for callback-style operations,
//! and the direct-return-or-raise shape for the synchronous operation.

use vstd::prelude::*;

verus! {

/// The payload carried by a successful outcome. Which shape applies depends
/// on the operation: most report nothing, the parallel computation reports a
/// number, and the synchronous read reports text.
#[derive(Clone, Debug, PartialEq, Eq)]
pub enum SuccessValue {
    /// The operation succeeded and produces no value.
    Nothing,
    /// The operation produced text.
    Text(String),
    /// The operation produced a number.
    Number(i32),
}

/// The tagged result of one dispatched operation: exactly one of success
/// (with an operation-dependent value) or failure (with a human-readable
/// description). Produced once, on the worker, when the collaborator call
/// returns; consumed exactly once by delivery.
#[derive(Clone, Debug, PartialEq, Eq)]
pub enum Outcome {
    /// The collaborator call succeeded.
    Success(SuccessValue),
    /// The collaborator call failed; the text describes why.
    Failure(String),
}

/// One argument of a continuation invocation. A continuation is never handed
/// another continuation, so this is the callback-free subset of host values.
#[derive(Clone, Debug, PartialEq, Eq)]
pub enum DeliveryValue {
    /// The host's null value.
    Null,
    /// A text value.
    Text(String),
    /// A numeric value.
    Number(i32),
}

/// The first (error) argument of the error-first pair for an outcome:
/// null on success, the failure description on failure.
pub open spec fn spec_error_arg(o: Outcome) -> DeliveryValue {
    match o {
        Outcome::Success(_) => DeliveryValue::Null,
        Outcome::Failure(m) => DeliveryValue::Text(m),
    }
}

/// The second (value) argument of the error-first pair for an outcome:
/// the success value (null when the operation produces none), and null on
/// failure.
pub open spec fn spec_value_arg(o: Outcome) -> DeliveryValue {
    match o {
        Outcome::Success(SuccessValue::Nothing) => DeliveryValue::Null,
        Outcome::Success(SuccessValue::Text(t)) => DeliveryValue::Text(t),
        Outcome::Success(SuccessValue::Number(n)) => DeliveryValue::Number(n),
        Outcome::Failure(_) => DeliveryValue::Null,
    }
}

/// Law: the error-first convention is total and loses nothing. A success is
/// always reported as `(null, value)` — with the value itself null only when
/// the operation produces none — and a failure is always reported as
/// `(description, null)`, the description carried verbatim.
pub proof fn lemma_error_first_convention(o: Outcome)
    ensures
        o is Success ==> spec_error_arg(o) is Null,
        o matches Outcome::Success(SuccessValue::Nothing) ==> spec_value_arg(o) is Null,
        o matches Outcome::Success(SuccessValue::Text(t)) ==> spec_value_arg(o)
            == DeliveryValue::Text(t),
        o matches Outcome::Success(SuccessValue::Number(n)) ==> spec_value_arg(o)
            == DeliveryValue::Number(n),
        o matches Outcome::Failure(m) ==> spec_error_arg(o) == DeliveryValue::Text(m)
            && spec_value_arg(o) is Null,
{
}

/// How the one synchronous operation reports: it either hands its value
/// straight back to the caller or raises a host-native error — never a
/// callback pair.
#[derive(Clone, Debug, PartialEq, Eq)]
pub enum SyncOutcome {
    /// The value is returned directly to the caller.
    Value(String),
    /// A host-native error carrying this description is raised at the call
    /// site.
    Raise(String),
}

/// Encodes a collaborator result for the synchronous operation: a success is
/// returned directly, a failure is raised — the failure never turns into a
/// returned value, and the success text is passed through verbatim.
pub fn sync_outcome(result: Result<String, String>) -> (o: SyncOutcome)
    ensures
        result matches Ok(t) ==> o == SyncOutcome::Value(t),
        result matches Err(m) ==> o == SyncOutcome::Raise(m),
{
    match result {
        Ok(t) => SyncOutcome::Value(t),
        Err(m) => SyncOutcome::Raise(m),
    }
}

} // verus!
