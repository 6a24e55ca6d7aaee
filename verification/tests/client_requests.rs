use temporal::client::{
    decode_workflow_result, decode_workflow_update_result, signal_error_context, signal_input_context,
    signal_request, signal_with_start_error_context, signal_with_start_input_context,
    signal_with_start_request, start_workflow_error_context, start_workflow_request,
    update_error_context, update_request, Client, Payloads, SignalWithStartWorkflowOptions,
    SignalWorkflowOptions, StartWorkflowOptions, UpdateOutcome, UpdateOutcomeValue,
    UpdateWorkflowOptions, WorkflowExecutionResult, WorkflowIdReusePolicy, WorkflowUpdateResult,
};
use temporal::decode::{decode_workflow_output, decode_workflow_update_output, DecodeError};

fn parse_number(p: String) -> Result<u32, String> {
    p.parse::<u32>().map_err(|_| format!("not a number: {p}"))
}

fn rejected<T: std::fmt::Debug>(r: Result<T, DecodeError<String>>) -> String {
    match r {
        Err(DecodeError::Rejected { message }) => message,
        other => panic!("expected a rejection, got {:?}", other),
    }
}

#[test]
fn workflow_output_needs_exactly_one_payload() {
    let ok = decode_workflow_output("greet", vec!["42".to_string()], parse_number);
    assert_eq!(ok.unwrap(), 42);

    let none = decode_workflow_output("greet", Vec::<String>::new(), parse_number);
    assert_eq!(rejected(none), "workflow `greet` completed without an output payload");

    let many = decode_workflow_output(
        "greet",
        vec!["1".to_string(), "2".to_string(), "3".to_string()],
        parse_number,
    );
    assert_eq!(
        rejected(many),
        "workflow `greet` completed with 3 output payloads; expected exactly one"
    );

    match decode_workflow_output("greet", vec!["x".to_string()], parse_number) {
        Err(DecodeError::Deserialize { context, source }) => {
            assert_eq!(context, "failed to deserialize output for workflow `greet`");
            assert_eq!(source, "not a number: x");
        }
        other => panic!("unexpected {:?}", other),
    }
}

#[test]
fn update_output_messages_name_the_update() {
    let none = decode_workflow_update_output("rename", Vec::<String>::new(), parse_number);
    assert_eq!(rejected(none), "workflow update `rename` completed without an output payload");
    let many = decode_workflow_update_output(
        "rename",
        vec!["1".to_string(), "2".to_string()],
        parse_number,
    );
    assert_eq!(
        rejected(many),
        "workflow update `rename` completed with 2 output payloads; expected exactly one"
    );
    match decode_workflow_update_output("rename", vec!["?".to_string()], parse_number) {
        Err(DecodeError::Deserialize { context, .. }) => {
            assert_eq!(context, "failed to deserialize output for workflow update `rename`")
        }
        other => panic!("unexpected {:?}", other),
    }
}

#[test]
fn workflow_result_decodes_success_and_keeps_other_states() {
    let raw: WorkflowExecutionResult<Vec<String>, &str, u8> =
        WorkflowExecutionResult::Succeeded(vec!["7".to_string()]);
    match decode_workflow_result("w", raw, parse_number) {
        Ok(WorkflowExecutionResult::Succeeded(7)) => {}
        other => panic!("unexpected {:?}", other),
    }

    let failed: WorkflowExecutionResult<Vec<String>, &str, u8> = WorkflowExecutionResult::Failed("boom");
    assert!(matches!(
        decode_workflow_result("w", failed, parse_number),
        Ok(WorkflowExecutionResult::Failed("boom"))
    ));
    let cancelled: WorkflowExecutionResult<Vec<String>, &str, u8> = WorkflowExecutionResult::Cancelled(1);
    assert!(matches!(
        decode_workflow_result("w", cancelled, parse_number),
        Ok(WorkflowExecutionResult::Cancelled(1))
    ));
    let terminated: WorkflowExecutionResult<Vec<String>, &str, u8> = WorkflowExecutionResult::Terminated(2);
    assert!(matches!(
        decode_workflow_result("w", terminated, parse_number),
        Ok(WorkflowExecutionResult::Terminated(2))
    ));
    let timed_out: WorkflowExecutionResult<Vec<String>, &str, u8> = WorkflowExecutionResult::TimedOut;
    assert!(matches!(
        decode_workflow_result("w", timed_out, parse_number),
        Ok(WorkflowExecutionResult::TimedOut)
    ));
    let continued: WorkflowExecutionResult<Vec<String>, &str, u8> =
        WorkflowExecutionResult::ContinuedAsNew;
    assert!(matches!(
        decode_workflow_result("w", continued, parse_number),
        Ok(WorkflowExecutionResult::ContinuedAsNew)
    ));

    let empty: WorkflowExecutionResult<Vec<String>, &str, u8> = WorkflowExecutionResult::Succeeded(vec![]);
    assert_eq!(
        rejected(decode_workflow_result("w", empty, parse_number)),
        "workflow `w` completed without an output payload"
    );
}

#[test]
fn update_result_handles_every_outcome_shape() {
    let missing: Option<UpdateOutcome<String, &str>> = None;
    assert_eq!(
        rejected(decode_workflow_update_result("u", missing, parse_number)),
        "workflow update response did not include an outcome"
    );
    let no_value: Option<UpdateOutcome<String, &str>> = Some(UpdateOutcome { value: None });
    assert_eq!(
        rejected(decode_workflow_update_result("u", no_value, parse_number)),
        "workflow update outcome did not include a value"
    );
    let failed = Some(UpdateOutcome { value: Some(UpdateOutcomeValue::<String, &str>::Failure("nope")) });
    match decode_workflow_update_result("u", failed, parse_number) {
        Ok(r) => {
            assert!(!r.is_success());
            assert_eq!(r.into_result(), Err("nope"));
        }
        Err(e) => panic!("unexpected {:?}", e),
    }
    let ok = Some(UpdateOutcome {
        value: Some(UpdateOutcomeValue::<String, &str>::Success(Payloads { payloads: vec!["5".to_string()] })),
    });
    match decode_workflow_update_result("u", ok, parse_number) {
        Ok(r) => {
            assert!(r.is_success());
            assert_eq!(r.into_result(), Ok(5));
        }
        Err(e) => panic!("unexpected {:?}", e),
    }
}

#[test]
fn update_result_success_iff_ok() {
    let s: WorkflowUpdateResult<u8, &str> = WorkflowUpdateResult::Succeeded(1);
    assert!(s.is_success());
    assert_eq!(s.into_result(), Ok(1));
    let f: WorkflowUpdateResult<u8, &str> = WorkflowUpdateResult::Failed("x");
    assert!(!f.is_success());
    assert_eq!(f.into_result(), Err("x"));
}

#[test]
fn start_request_carries_options_and_single_input() {
    let options = StartWorkflowOptions::<u8>::new("queue")
        .with_workflow_id("wf-1")
        .with_request_id("req-1")
        .with_workflow_id_reuse_policy(WorkflowIdReusePolicy::AllowDuplicate);
    let request = start_workflow_request(options, "greet-workflow", vec![1u8, 2]);
    assert_eq!(request.input, vec![vec![1u8, 2]]);
    assert_eq!(request.task_queue, "queue");
    assert_eq!(request.workflow_id, "wf-1");
    assert_eq!(request.workflow_type, "greet-workflow");
    assert_eq!(request.request_id.as_deref(), Some("req-1"));
    assert_eq!(request.workflow_options.id_reuse_policy, WorkflowIdReusePolicy::AllowDuplicate);
    assert_eq!(start_workflow_error_context("greet-workflow"), "failed to start workflow `greet-workflow`");
}

#[test]
fn signal_with_start_request_carries_both_inputs() {
    let options = SignalWithStartWorkflowOptions::<()>::new("q").with_workflow_id("wf");
    let request = signal_with_start_request(options, "greet", "rename", "wf-input", "sig-input");
    assert_eq!(request.input.unwrap().payloads, vec!["wf-input"]);
    assert_eq!(request.signal_input.unwrap().payloads, vec!["sig-input"]);
    assert_eq!(request.workflow_type, "greet");
    assert_eq!(request.signal_name, "rename");
    assert_eq!(request.workflow_id, "wf");
    assert_eq!(request.task_queue, "q");
    assert_eq!(request.request_id, None);
    assert_eq!(
        signal_with_start_error_context("greet", "rename"),
        "failed to signal-with-start workflow `greet` with signal `rename`"
    );
    assert_eq!(
        signal_with_start_input_context("greet"),
        "failed to serialize input for signal-with-start workflow `greet`"
    );
    assert_eq!(signal_input_context("rename"), "failed to serialize input for workflow signal `rename`");
}

#[test]
fn signal_request_targets_latest_run_without_run_id() {
    let latest = signal_request("wf", None, "rename", 9u8, SignalWorkflowOptions::default());
    assert_eq!(latest.run_id, "");
    assert_eq!(latest.workflow_id, "wf");
    assert_eq!(latest.signal_name, "rename");
    assert_eq!(latest.input.unwrap().payloads, vec![9u8]);
    assert_eq!(latest.request_id, None);

    let pinned = signal_request(
        "wf",
        Some("run-7".to_string()),
        "rename",
        9u8,
        SignalWorkflowOptions::default().with_request_id("r"),
    );
    assert_eq!(pinned.run_id, "run-7");
    assert_eq!(pinned.request_id.as_deref(), Some("r"));
    assert_eq!(signal_error_context("greet", "rename"), "failed to signal workflow `greet` with signal `rename`");
}

#[test]
fn update_request_uses_wait_policy() {
    let request = update_request("wf", None, "set-name", "x", UpdateWorkflowOptions::default());
    assert_eq!(request.run_id, "");
    assert_eq!(request.update_name, "set-name");
    assert_eq!(request.wait_policy.lifecycle_stage, 3);
    assert_eq!(request.args.unwrap().payloads, vec!["x"]);
    assert_eq!(
        update_error_context("set-name", "greet"),
        "failed to execute workflow update `set-name` for workflow `greet`"
    );
}

#[test]
fn client_wraps_and_returns_inner() {
    let client = Client::new(41u32);
    assert_eq!(*client.inner(), 41);
    assert_eq!(client.clone().into_inner(), 41);
}
