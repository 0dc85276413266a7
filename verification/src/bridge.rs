//! The five bridge operations. Each entry point validates the host's
//! arguments synchronously — an argument error is reported at the call site
//! and nothing is dispatched (see
//! [`crate::lifecycle::lemma_rejected_call_stays_put`]) — and otherwise
//! produces a [`DispatchPlan`]: the immutable request for the worker, the
//! dispatch mode, and the completion handle when the operation reports back
//! through a continuation.
//!
//! The collaborator calls themselves are opaque I/O and run outside this
//! library, except the parallel computation, which is pure and is called
//! here through a trusted wrapper. The converters in this module turn each
//! collaborator result into the [`Outcome`] the delivery convention encodes.

use vstd::prelude::*;

use crate::handle::CompletionHandle;
use crate::host::{ArgumentError, HostValue};
use crate::outcome::{spec_error_arg, Outcome, SuccessValue};

verus! {

/// The immutable bundle of arguments for one collaborator call. Transferred
/// to the worker at dispatch; the host keeps no way to touch it afterwards.
#[derive(Clone, Debug, PartialEq, Eq)]
pub enum Request {
    /// Fetch a URL.
    NetworkCall { url: String },
    /// Write text to a storage path.
    StorageWrite { path: String, data: String },
    /// Run a command in a child process.
    CommandRun { command: String },
    /// Run the multi-threaded computation from a seed.
    ParallelComputation { seed: i32 },
    /// Read the text stored at a path.
    StorageRead { path: String },
}

/// Where the work runs.
#[derive(Clone, Copy, Debug, PartialEq, Eq, Structural)]
pub enum DispatchMode {
    /// On a cooperative asynchronous runtime, off the host thread.
    AsyncRuntime,
    /// On a dedicated thread of its own, off the host thread.
    RawThread,
    /// On the host thread itself — only the synchronous read does this.
    HostThread,
}

/// Everything an entry point decides: what to run, where to run it, and the
/// handle owed a delivery, when the operation reports through a
/// continuation.
#[derive(Debug)]
pub struct DispatchPlan<F> {
    pub request: Request,
    pub mode: DispatchMode,
    pub handle: Option<CompletionHandle<F>>,
}

/// The argument error, if any, for an operation taking one text argument —
/// checked in order, first failure reported.
pub open spec fn text_arg_error<F>(args: Seq<HostValue<F>>) -> Option<ArgumentError> {
    if args.len() < 1 {
        Some(ArgumentError::Missing { index: 0 })
    } else if !(args[0] is Text) {
        Some(ArgumentError::WrongType { index: 0 })
    } else {
        None
    }
}

/// The argument error, if any, for an operation taking a text argument and a
/// continuation — checked in order, first failure reported.
pub open spec fn text_callback_args_error<F>(args: Seq<HostValue<F>>) -> Option<ArgumentError> {
    if args.len() < 1 {
        Some(ArgumentError::Missing { index: 0 })
    } else if !(args[0] is Text) {
        Some(ArgumentError::WrongType { index: 0 })
    } else if args.len() < 2 {
        Some(ArgumentError::Missing { index: 1 })
    } else if !(args[1] is Callback) {
        Some(ArgumentError::WrongType { index: 1 })
    } else {
        None
    }
}

/// The argument error, if any, for an operation taking a number argument and
/// a continuation — checked in order, first failure reported.
pub open spec fn number_callback_args_error<F>(args: Seq<HostValue<F>>) -> Option<ArgumentError> {
    if args.len() < 1 {
        Some(ArgumentError::Missing { index: 0 })
    } else if !(args[0] is Number) {
        Some(ArgumentError::WrongType { index: 0 })
    } else if args.len() < 2 {
        Some(ArgumentError::Missing { index: 1 })
    } else if !(args[1] is Callback) {
        Some(ArgumentError::WrongType { index: 1 })
    } else {
        None
    }
}

/// The argument error, if any, for an operation taking two text arguments
/// and a continuation — checked in order, first failure reported.
pub open spec fn text_text_callback_args_error<F>(
    args: Seq<HostValue<F>>,
) -> Option<ArgumentError> {
    if args.len() < 1 {
        Some(ArgumentError::Missing { index: 0 })
    } else if !(args[0] is Text) {
        Some(ArgumentError::WrongType { index: 0 })
    } else if args.len() < 2 {
        Some(ArgumentError::Missing { index: 1 })
    } else if !(args[1] is Text) {
        Some(ArgumentError::WrongType { index: 1 })
    } else if args.len() < 3 {
        Some(ArgumentError::Missing { index: 2 })
    } else if !(args[2] is Callback) {
        Some(ArgumentError::WrongType { index: 2 })
    } else {
        None
    }
}

/// Entry point of the fire-and-forget network call: one text argument, the
/// URL. No continuation is registered, so nothing is ever owed a delivery;
/// the work goes to the asynchronous runtime and its outcome is observed for
/// diagnostics only.
pub fn plan_perform_network_call<F>(args: Vec<HostValue<F>>) -> (r: Result<
    DispatchPlan<F>,
    ArgumentError,
>)
    ensures
        match r {
            Ok(plan) => {
                &&& text_arg_error(args@) is None
                &&& args@[0] matches HostValue::Text(url)
                &&& plan.request == (Request::NetworkCall { url })
                &&& plan.mode is AsyncRuntime
                &&& plan.handle is None
            },
            Err(e) => text_arg_error(args@) == Some(e),
        },
{
    let mut rest = args;
    if rest.len() == 0 {
        return Err(ArgumentError::Missing { index: 0 });
    }
    let url = match rest.remove(0) {
        HostValue::Text(s) => s,
        _ => {
            return Err(ArgumentError::WrongType { index: 0 });
        },
    };
    Ok(
        DispatchPlan {
            request: Request::NetworkCall { url },
            mode: DispatchMode::AsyncRuntime,
            handle: None,
        },
    )
}

/// Entry point of the asynchronous storage write: a path, the text to
/// write, and the continuation. The work goes to the asynchronous runtime
/// and the continuation is owed one error-first delivery.
pub fn plan_write_to_storage<F>(args: Vec<HostValue<F>>) -> (r: Result<
    DispatchPlan<F>,
    ArgumentError,
>)
    ensures
        match r {
            Ok(plan) => {
                &&& text_text_callback_args_error(args@) is None
                &&& args@[0] matches HostValue::Text(path)
                &&& args@[1] matches HostValue::Text(data)
                &&& args@[2] matches HostValue::Callback(continuation)
                &&& plan.request == (Request::StorageWrite { path, data })
                &&& plan.mode is AsyncRuntime
                &&& plan.handle matches Some(h) && h.target() == continuation
            },
            Err(e) => text_text_callback_args_error(args@) == Some(e),
        },
{
    let mut rest = args;
    if rest.len() == 0 {
        return Err(ArgumentError::Missing { index: 0 });
    }
    let path = match rest.remove(0) {
        HostValue::Text(s) => s,
        _ => {
            return Err(ArgumentError::WrongType { index: 0 });
        },
    };
    if rest.len() == 0 {
        return Err(ArgumentError::Missing { index: 1 });
    }
    let data = match rest.remove(0) {
        HostValue::Text(s) => s,
        _ => {
            return Err(ArgumentError::WrongType { index: 1 });
        },
    };
    if rest.len() == 0 {
        return Err(ArgumentError::Missing { index: 2 });
    }
    let continuation = match rest.remove(0) {
        HostValue::Callback(f) => f,
        _ => {
            return Err(ArgumentError::WrongType { index: 2 });
        },
    };
    Ok(
        DispatchPlan {
            request: Request::StorageWrite { path, data },
            mode: DispatchMode::AsyncRuntime,
            handle: Some(CompletionHandle::register(continuation)),
        },
    )
}

/// Entry point of the blocking command run: the command text and the
/// continuation. The work gets a dedicated thread and the continuation is
/// owed one error-first delivery.
pub fn plan_run_external_command<F>(args: Vec<HostValue<F>>) -> (r: Result<
    DispatchPlan<F>,
    ArgumentError,
>)
    ensures
        match r {
            Ok(plan) => {
                &&& text_callback_args_error(args@) is None
                &&& args@[0] matches HostValue::Text(command)
                &&& args@[1] matches HostValue::Callback(continuation)
                &&& plan.request == (Request::CommandRun { command })
                &&& plan.mode is RawThread
                &&& plan.handle matches Some(h) && h.target() == continuation
            },
            Err(e) => text_callback_args_error(args@) == Some(e),
        },
{
    let mut rest = args;
    if rest.len() == 0 {
        return Err(ArgumentError::Missing { index: 0 });
    }
    let command = match rest.remove(0) {
        HostValue::Text(s) => s,
        _ => {
            return Err(ArgumentError::WrongType { index: 0 });
        },
    };
    if rest.len() == 0 {
        return Err(ArgumentError::Missing { index: 1 });
    }
    let continuation = match rest.remove(0) {
        HostValue::Callback(f) => f,
        _ => {
            return Err(ArgumentError::WrongType { index: 1 });
        },
    };
    Ok(
        DispatchPlan {
            request: Request::CommandRun { command },
            mode: DispatchMode::RawThread,
            handle: Some(CompletionHandle::register(continuation)),
        },
    )
}

/// Entry point of the blocking parallel computation: the seed and the
/// continuation. The work gets a dedicated thread and the continuation is
/// owed one error-first delivery carrying the computed number.
pub fn plan_run_parallel_computation<F>(args: Vec<HostValue<F>>) -> (r: Result<
    DispatchPlan<F>,
    ArgumentError,
>)
    ensures
        match r {
            Ok(plan) => {
                &&& number_callback_args_error(args@) is None
                &&& args@[0] matches HostValue::Number(seed)
                &&& args@[1] matches HostValue::Callback(continuation)
                &&& plan.request == (Request::ParallelComputation { seed })
                &&& plan.mode is RawThread
                &&& plan.handle matches Some(h) && h.target() == continuation
            },
            Err(e) => number_callback_args_error(args@) == Some(e),
        },
{
    let mut rest = args;
    if rest.len() == 0 {
        return Err(ArgumentError::Missing { index: 0 });
    }
    let seed = match rest.remove(0) {
        HostValue::Number(n) => n,
        _ => {
            return Err(ArgumentError::WrongType { index: 0 });
        },
    };
    if rest.len() == 0 {
        return Err(ArgumentError::Missing { index: 1 });
    }
    let continuation = match rest.remove(0) {
        HostValue::Callback(f) => f,
        _ => {
            return Err(ArgumentError::WrongType { index: 1 });
        },
    };
    Ok(
        DispatchPlan {
            request: Request::ParallelComputation { seed },
            mode: DispatchMode::RawThread,
            handle: Some(CompletionHandle::register(continuation)),
        },
    )
}

/// Entry point of the synchronous storage read: one text argument, the
/// path. The collaborator runs on the host thread itself; success returns
/// the stored text directly and failure raises a host-native error — see
/// [`crate::outcome::sync_outcome`].
pub fn plan_read_from_storage<F>(args: Vec<HostValue<F>>) -> (r: Result<
    DispatchPlan<F>,
    ArgumentError,
>)
    ensures
        match r {
            Ok(plan) => {
                &&& text_arg_error(args@) is None
                &&& args@[0] matches HostValue::Text(path)
                &&& plan.request == (Request::StorageRead { path })
                &&& plan.mode is HostThread
                &&& plan.handle is None
            },
            Err(e) => text_arg_error(args@) == Some(e),
        },
{
    let mut rest = args;
    if rest.len() == 0 {
        return Err(ArgumentError::Missing { index: 0 });
    }
    let path = match rest.remove(0) {
        HostValue::Text(s) => s,
        _ => {
            return Err(ArgumentError::WrongType { index: 0 });
        },
    };
    Ok(
        DispatchPlan {
            request: Request::StorageRead { path },
            mode: DispatchMode::HostThread,
            handle: None,
        },
    )
}

/// Turns the result of a collaborator that returns no value — the storage
/// write and the command run — into the outcome owed the continuation:
/// success carries nothing, failure carries the description verbatim.
pub fn unit_call_outcome(result: Result<(), String>) -> (o: Outcome)
    ensures
        result is Ok ==> o == Outcome::Success(SuccessValue::Nothing),
        result matches Err(m) ==> o == Outcome::Failure(m),
{
    match result {
        Ok(_) => Outcome::Success(SuccessValue::Nothing),
        Err(m) => Outcome::Failure(m),
    }
}

/// What the fire-and-forget network call reports to the diagnostic sink:
/// the fetched body on success, the failure description otherwise. No
/// continuation exists for this operation, so this report is all that is
/// ever observed of it.
#[derive(Clone, Debug, PartialEq, Eq)]
pub enum NetworkReport {
    /// The call succeeded; the fetched body.
    Fetched(String),
    /// The call failed; the description.
    FetchFailed(String),
}

/// Encodes the fire-and-forget network result for the diagnostic sink,
/// verbatim in both cases.
pub fn network_call_report(result: Result<String, String>) -> (rep: NetworkReport)
    ensures
        result matches Ok(body) ==> rep == NetworkReport::Fetched(body),
        result matches Err(m) ==> rep == NetworkReport::FetchFailed(m),
{
    match result {
        Ok(body) => NetworkReport::Fetched(body),
        Err(m) => NetworkReport::FetchFailed(m),
    }
}

/// How many increments the parallel computation applies to its seed: it
/// joins ten worker threads, each adding one.
pub const PARALLEL_INCREMENTS: i32 = 10;

/// Relies on `sampleworkflowlib::multithreading::start_threads`: it spawns
/// ten threads that each add one, under a mutex, to a counter seeded with
/// the argument, joins them all, and returns the final counter — the seed
/// plus ten, whatever the interleaving. An increment would abort on
/// overflow, so the seed must leave room for all ten.
#[verifier::external_body]
fn start_threads_collab(seed: i32) -> (r: i32)
    requires
        seed + PARALLEL_INCREMENTS <= i32::MAX,
    ensures
        r == seed + PARALLEL_INCREMENTS,
{
    sampleworkflowlib::multithreading::start_threads(seed)
}

/// The outcome of the parallel computation for a seed that leaves room for
/// the ten increments: a success carrying the computed number.
pub open spec fn spec_parallel_success(seed: i32) -> Outcome
    recommends
        seed + PARALLEL_INCREMENTS <= i32::MAX,
{
    Outcome::Success(SuccessValue::Number((seed + PARALLEL_INCREMENTS) as i32))
}

/// Runs the parallel computation to its outcome. For every seed that leaves
/// room for the ten increments the outcome is the computed number — the
/// seed plus ten, deterministically. A seed too large for the increments
/// would abort the worker; instead of risking a lost delivery, it becomes a
/// failure outcome, so the continuation still hears back.
pub fn run_parallel_computation(seed: i32) -> (o: Outcome)
    ensures
        seed + PARALLEL_INCREMENTS <= i32::MAX ==> o == spec_parallel_success(seed),
        seed + PARALLEL_INCREMENTS > i32::MAX ==> (o matches Outcome::Failure(m) && m@
            == "seed leaves no room for the parallel increments"@),
{
    if seed <= i32::MAX - PARALLEL_INCREMENTS {
        let n = start_threads_collab(seed);
        Outcome::Success(SuccessValue::Number(n))
    } else {
        Outcome::Failure(String::from_str("seed leaves no room for the parallel increments"))
    }
}

/// Law: the parallel computation is deterministic in its seed — two calls
/// with equal seeds produce equal outcomes — and whenever the seed leaves
/// room for the increments the outcome is a success, so the continuation's
/// error argument is null.
pub proof fn lemma_parallel_computation_deterministic(s1: i32, s2: i32)
    requires
        s1 == s2,
        s1 + PARALLEL_INCREMENTS <= i32::MAX,
    ensures
        spec_parallel_success(s1) == spec_parallel_success(s2),
        spec_error_arg(spec_parallel_success(s1)) is Null,
{
}

} // verus!
