//! What the host hands across the boundary: the values an entry point
//! receives as arguments, and the errors reported when those arguments have
//! the wrong shape.
//!
//! The continuation type is a parameter `F` everywhere: the bridge never
//! looks inside a continuation reference, it only carries it — exclusively
//! owned — from registration to its single invocation.

use vstd::prelude::*;

verus! {

/// One argument as the host supplied it, already narrowed at the boundary to
/// the plain shapes the bridge reads: numbers arrive as the integer range the
/// operations use, and a continuation reference arrives as an opaque `F`.
#[derive(Clone, Debug, PartialEq, Eq)]
pub enum HostValue<F> {
    /// The host's null value.
    Null,
    /// The host's undefined value.
    Undefined,
    /// A text argument.
    Text(String),
    /// A numeric argument.
    Number(i32),
    /// A host continuation reference.
    Callback(F),
}

/// Why argument extraction failed. Raised synchronously at the call site,
/// before any dispatch, via the host's native invocation-error mechanism —
/// never through a continuation.
#[derive(Clone, Copy, Debug, PartialEq, Eq, Structural)]
pub enum ArgumentError {
    /// The host supplied fewer arguments than the operation requires; this
    /// position was absent.
    Missing { index: usize },
    /// The argument at this position does not have the type the operation
    /// requires.
    WrongType { index: usize },
}

} // verus!
