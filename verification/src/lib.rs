//! A bridge that lets a single-threaded, non-reentrant host invoke slow or
//! blocking operations without blocking the host's own thread, and receive
//! the result back in the host's error-first calling convention.
//!
//! The bridge itself is the verified part: argument validation, the per-call
//! lifecycle (a registered continuation is invoked exactly once, and only
//! after dispatch and completion), and the encoding of every outcome into the
//! host's result convention. The external collaborators (network, storage,
//! child processes) are opaque; the one collaborator that is pure computation
//! is called through a trusted wrapper with an exact contract.

pub mod bridge;
pub mod handle;
pub mod lifecycle;
pub mod host;
pub mod outcome;
