use host_bridge::bridge::{
    network_call_report, plan_perform_network_call, plan_read_from_storage,
    plan_run_external_command, plan_run_parallel_computation, plan_write_to_storage,
    run_parallel_computation, unit_call_outcome, DispatchMode, NetworkReport, Request,
    PARALLEL_INCREMENTS,
};
use host_bridge::host::{ArgumentError, HostValue};
use host_bridge::outcome::{sync_outcome, DeliveryValue, Outcome, SuccessValue, SyncOutcome};

type Args = Vec<HostValue<u32>>;

#[test]
fn network_plan_is_fire_and_forget() {
    let args: Args = vec![HostValue::Text("http://example.com".to_string())];
    let plan = plan_perform_network_call(args).unwrap();
    assert_eq!(
        plan.request,
        Request::NetworkCall { url: "http://example.com".to_string() }
    );
    assert_eq!(plan.mode, DispatchMode::AsyncRuntime);
    assert!(plan.handle.is_none());
}

#[test]
fn network_plan_rejects_bad_arguments() {
    let none: Args = vec![];
    assert_eq!(
        plan_perform_network_call(none).unwrap_err(),
        ArgumentError::Missing { index: 0 }
    );
    let not_text: Args = vec![HostValue::Number(3)];
    assert_eq!(
        plan_perform_network_call(not_text).unwrap_err(),
        ArgumentError::WrongType { index: 0 }
    );
}

#[test]
fn write_plan_carries_path_data_and_continuation() {
    let args: Args = vec![
        HostValue::Text("notes.txt".to_string()),
        HostValue::Text("hello".to_string()),
        HostValue::Callback(11),
    ];
    let plan = plan_write_to_storage(args).unwrap();
    assert_eq!(
        plan.request,
        Request::StorageWrite { path: "notes.txt".to_string(), data: "hello".to_string() }
    );
    assert_eq!(plan.mode, DispatchMode::AsyncRuntime);
    let delivery = plan
        .handle
        .unwrap()
        .deliver(Outcome::Success(SuccessValue::Nothing));
    assert_eq!(delivery.target, 11);
}

#[test]
fn write_plan_reports_first_bad_argument() {
    let none: Args = vec![];
    assert_eq!(
        plan_write_to_storage(none).unwrap_err(),
        ArgumentError::Missing { index: 0 }
    );
    let one: Args = vec![HostValue::Text("p".to_string())];
    assert_eq!(
        plan_write_to_storage(one).unwrap_err(),
        ArgumentError::Missing { index: 1 }
    );
    let two: Args = vec![
        HostValue::Text("p".to_string()),
        HostValue::Text("d".to_string()),
    ];
    assert_eq!(
        plan_write_to_storage(two).unwrap_err(),
        ArgumentError::Missing { index: 2 }
    );
    let bad_first: Args = vec![
        HostValue::Null,
        HostValue::Text("d".to_string()),
        HostValue::Callback(1),
    ];
    assert_eq!(
        plan_write_to_storage(bad_first).unwrap_err(),
        ArgumentError::WrongType { index: 0 }
    );
    let bad_second: Args = vec![
        HostValue::Text("p".to_string()),
        HostValue::Number(4),
        HostValue::Callback(1),
    ];
    assert_eq!(
        plan_write_to_storage(bad_second).unwrap_err(),
        ArgumentError::WrongType { index: 1 }
    );
    let bad_third: Args = vec![
        HostValue::Text("p".to_string()),
        HostValue::Text("d".to_string()),
        HostValue::Undefined,
    ];
    assert_eq!(
        plan_write_to_storage(bad_third).unwrap_err(),
        ArgumentError::WrongType { index: 2 }
    );
}

#[test]
fn command_plan_gets_a_dedicated_thread() {
    let args: Args = vec![HostValue::Text("ls".to_string()), HostValue::Callback(1)];
    let plan = plan_run_external_command(args).unwrap();
    assert_eq!(plan.request, Request::CommandRun { command: "ls".to_string() });
    assert_eq!(plan.mode, DispatchMode::RawThread);
    assert!(plan.handle.is_some());
}

#[test]
fn command_plan_requires_a_continuation() {
    let args: Args = vec![HostValue::Text("ls".to_string())];
    assert_eq!(
        plan_run_external_command(args).unwrap_err(),
        ArgumentError::Missing { index: 1 }
    );
    let args: Args = vec![HostValue::Text("ls".to_string()), HostValue::Text("x".to_string())];
    assert_eq!(
        plan_run_external_command(args).unwrap_err(),
        ArgumentError::WrongType { index: 1 }
    );
}

#[test]
fn computation_plan_takes_a_number_seed() {
    let args: Args = vec![HostValue::Number(5), HostValue::Callback(2)];
    let plan = plan_run_parallel_computation(args).unwrap();
    assert_eq!(plan.request, Request::ParallelComputation { seed: 5 });
    assert_eq!(plan.mode, DispatchMode::RawThread);
    assert!(plan.handle.is_some());
}

#[test]
fn computation_plan_rejects_a_text_seed() {
    let args: Args = vec![HostValue::Text("5".to_string()), HostValue::Callback(2)];
    assert_eq!(
        plan_run_parallel_computation(args).unwrap_err(),
        ArgumentError::WrongType { index: 0 }
    );
    let args: Args = vec![HostValue::Number(5)];
    assert_eq!(
        plan_run_parallel_computation(args).unwrap_err(),
        ArgumentError::Missing { index: 1 }
    );
}

#[test]
fn read_plan_stays_on_the_host_thread() {
    let args: Args = vec![HostValue::Text("notes.txt".to_string())];
    let plan = plan_read_from_storage(args).unwrap();
    assert_eq!(plan.request, Request::StorageRead { path: "notes.txt".to_string() });
    assert_eq!(plan.mode, DispatchMode::HostThread);
    assert!(plan.handle.is_none());
}

#[test]
fn unit_outcome_keeps_the_failure_text() {
    assert_eq!(
        unit_call_outcome(Ok(())),
        Outcome::Success(SuccessValue::Nothing)
    );
    assert_eq!(
        unit_call_outcome(Err("write denied".to_string())),
        Outcome::Failure("write denied".to_string())
    );
}

#[test]
fn network_report_mirrors_the_result() {
    assert_eq!(
        network_call_report(Ok("body".to_string())),
        NetworkReport::Fetched("body".to_string())
    );
    assert_eq!(
        network_call_report(Err("unreachable".to_string())),
        NetworkReport::FetchFailed("unreachable".to_string())
    );
}

#[test]
fn read_failure_raises_instead_of_returning() {
    assert_eq!(
        sync_outcome(Err("no such file".to_string())),
        SyncOutcome::Raise("no such file".to_string())
    );
    assert_eq!(
        sync_outcome(Ok("stored contents".to_string())),
        SyncOutcome::Value("stored contents".to_string())
    );
}

#[test]
fn parallel_computation_is_deterministic() {
    let first = run_parallel_computation(5);
    let second = run_parallel_computation(5);
    assert_eq!(first, second);
    assert_eq!(first, Outcome::Success(SuccessValue::Number(5 + PARALLEL_INCREMENTS)));
}

#[test]
fn parallel_computation_overflow_becomes_a_failure() {
    let o = run_parallel_computation(i32::MAX);
    assert_eq!(
        o,
        Outcome::Failure("seed leaves no room for the parallel increments".to_string())
    );
}
