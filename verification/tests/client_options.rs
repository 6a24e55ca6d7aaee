use temporal::client::{
    into_payloads, one_payloads, SignalWithStartWorkflowOptions, SignalWorkflowOptions,
    StartWorkflowOptions, UpdateWorkflowOptions, WorkflowIdConflictPolicy,
    WorkflowIdReusePolicy, WorkflowOptions,
};

fn json_object(key: &str, value: &str) -> Vec<u8> {
    let mut map = serde_json::Map::new();
    map.insert(key.to_string(), serde_json::Value::String(value.to_string()));
    serde_json::to_vec(&serde_json::Value::Object(map)).unwrap()
}

fn is_uuid_v4_simple(id: &str) -> bool {
    let chars: Vec<char> = id.chars().collect();
    chars.len() == 32
        && chars.iter().all(|c| c.is_ascii_digit() || ('a'..='f').contains(c))
        && chars[12] == '4'
        && matches!(chars[16], '8' | '9' | 'a' | 'b')
}

#[test]
fn signal_workflow_options_sets_request_id() {
    let options = SignalWorkflowOptions::default().with_request_id("request-001");

    assert_eq!(options.request_id.as_deref(), Some("request-001"));
}

#[test]
fn signal_with_start_workflow_options_set_fields() {
    let options = SignalWithStartWorkflowOptions::<()>::new("queue")
        .with_workflow_id("workflow-001")
        .with_request_id("request-001");

    assert_eq!(options.task_queue, "queue");
    assert_eq!(options.workflow_id, "workflow-001");
    assert_eq!(options.request_id.as_deref(), Some("request-001"));
}

#[test]
fn start_workflow_options_sets_workflow_id_reuse_policy() {
    let options = StartWorkflowOptions::<()>::new("queue")
        .with_workflow_id_reuse_policy(WorkflowIdReusePolicy::AllowDuplicate);

    assert_eq!(
        options.workflow_options.id_reuse_policy,
        WorkflowIdReusePolicy::AllowDuplicate
    );
}

#[test]
fn start_workflow_options_sets_workflow_id_conflict_policy() {
    let options = StartWorkflowOptions::<()>::new("queue")
        .with_workflow_id_conflict_policy(WorkflowIdConflictPolicy::UseExisting);

    assert_eq!(
        options.workflow_options.id_conflict_policy,
        WorkflowIdConflictPolicy::UseExisting
    );
}

#[test]
fn start_workflow_options_sets_workflow_id_policies() {
    let options = StartWorkflowOptions::<()>::new("queue").with_workflow_id_policies(
        WorkflowIdReusePolicy::AllowDuplicate,
        WorkflowIdConflictPolicy::UseExisting,
    );

    assert_eq!(
        options.workflow_options.id_reuse_policy,
        WorkflowIdReusePolicy::AllowDuplicate
    );
    assert_eq!(
        options.workflow_options.id_conflict_policy,
        WorkflowIdConflictPolicy::UseExisting
    );
}

#[test]
fn signal_with_start_workflow_options_sets_workflow_id_reuse_policy() {
    let options = SignalWithStartWorkflowOptions::<()>::new("queue")
        .with_workflow_id_reuse_policy(WorkflowIdReusePolicy::AllowDuplicate);

    assert_eq!(
        options.workflow_options.id_reuse_policy,
        WorkflowIdReusePolicy::AllowDuplicate
    );
}

#[test]
fn signal_with_start_workflow_options_sets_workflow_id_conflict_policy() {
    let options = SignalWithStartWorkflowOptions::<()>::new("queue")
        .with_workflow_id_conflict_policy(WorkflowIdConflictPolicy::UseExisting);

    assert_eq!(
        options.workflow_options.id_conflict_policy,
        WorkflowIdConflictPolicy::UseExisting
    );
}

#[test]
fn signal_with_start_workflow_options_sets_workflow_id_policies() {
    let options = SignalWithStartWorkflowOptions::<()>::new("queue").with_workflow_id_policies(
        WorkflowIdReusePolicy::AllowDuplicate,
        WorkflowIdConflictPolicy::UseExisting,
    );

    assert_eq!(
        options.workflow_options.id_reuse_policy,
        WorkflowIdReusePolicy::AllowDuplicate
    );
    assert_eq!(
        options.workflow_options.id_conflict_policy,
        WorkflowIdConflictPolicy::UseExisting
    );
}

#[test]
fn one_payloads_wraps_single_json_payload() {
    let payload = json_object("value", "hello");

    let payloads = one_payloads(payload).unwrap();

    assert_eq!(payloads.payloads.len(), 1);
}

#[test]
fn into_payloads_of_nothing_is_none() {
    assert!(into_payloads(Vec::<u8>::new()).is_none());
    let ps = into_payloads(vec![1u8, 2, 3]).unwrap();
    assert_eq!(ps.payloads, vec![1u8, 2, 3]);
}

#[test]
fn new_start_options_have_random_uuid_and_unspecified_policies() {
    let a = StartWorkflowOptions::<()>::new("queue");
    let b = StartWorkflowOptions::<()>::new("queue");
    assert!(is_uuid_v4_simple(&a.workflow_id), "{}", a.workflow_id);
    assert!(is_uuid_v4_simple(&b.workflow_id), "{}", b.workflow_id);
    assert_ne!(a.workflow_id, b.workflow_id);
    assert_eq!(a.task_queue, "queue");
    assert_eq!(a.request_id, None);
    assert_eq!(a.workflow_options.id_reuse_policy, WorkflowIdReusePolicy::Unspecified);
    assert_eq!(a.workflow_options.id_conflict_policy, WorkflowIdConflictPolicy::Unspecified);
    let s = SignalWithStartWorkflowOptions::<()>::new("q2");
    assert!(is_uuid_v4_simple(&s.workflow_id), "{}", s.workflow_id);
}

#[test]
fn start_options_builders_keep_other_fields() {
    let options = StartWorkflowOptions::<u32>::new("queue")
        .with_workflow_id("wf")
        .with_request_id("req")
        .with_workflow_options(WorkflowOptions {
            id_reuse_policy: WorkflowIdReusePolicy::RejectDuplicate,
            id_conflict_policy: WorkflowIdConflictPolicy::Fail,
            other: 7,
        })
        .with_workflow_id_conflict_policy(WorkflowIdConflictPolicy::TerminateExisting);
    assert_eq!(options.task_queue, "queue");
    assert_eq!(options.workflow_id, "wf");
    assert_eq!(options.request_id.as_deref(), Some("req"));
    assert_eq!(options.workflow_options.id_reuse_policy, WorkflowIdReusePolicy::RejectDuplicate);
    assert_eq!(
        options.workflow_options.id_conflict_policy,
        WorkflowIdConflictPolicy::TerminateExisting
    );
    assert_eq!(options.workflow_options.other, 7);
}

#[test]
fn policies_together_equal_policies_one_by_one() {
    let both = StartWorkflowOptions::<u8>::new("q")
        .with_workflow_id("id")
        .with_workflow_id_policies(
            WorkflowIdReusePolicy::AllowDuplicateFailedOnly,
            WorkflowIdConflictPolicy::Fail,
        );
    let one_by_one = StartWorkflowOptions::<u8>::new("q")
        .with_workflow_id("id")
        .with_workflow_id_conflict_policy(WorkflowIdConflictPolicy::Fail)
        .with_workflow_id_reuse_policy(WorkflowIdReusePolicy::AllowDuplicateFailedOnly);
    assert_eq!(both.workflow_options.id_reuse_policy, one_by_one.workflow_options.id_reuse_policy);
    assert_eq!(
        both.workflow_options.id_conflict_policy,
        one_by_one.workflow_options.id_conflict_policy
    );
    assert_eq!(both.workflow_id, one_by_one.workflow_id);
}

#[test]
fn last_policy_wins() {
    let options = SignalWithStartWorkflowOptions::<()>::new("q")
        .with_workflow_id_reuse_policy(WorkflowIdReusePolicy::AllowDuplicate)
        .with_workflow_id_reuse_policy(WorkflowIdReusePolicy::RejectDuplicate);
    assert_eq!(options.workflow_options.id_reuse_policy, WorkflowIdReusePolicy::RejectDuplicate);
}

#[test]
fn policy_codes_match_protocol_numbers() {
    assert_eq!(WorkflowIdReusePolicy::Unspecified.as_i32(), 0);
    assert_eq!(WorkflowIdReusePolicy::AllowDuplicate.as_i32(), 1);
    assert_eq!(WorkflowIdReusePolicy::TerminateIfRunning.as_i32(), 4);
    assert_eq!(WorkflowIdConflictPolicy::UseExisting.as_i32(), 2);
    assert_eq!(WorkflowIdConflictPolicy::TerminateExisting.as_i32(), 3);
    assert_eq!(WorkflowIdReusePolicy::from_i32(3), Some(WorkflowIdReusePolicy::RejectDuplicate));
    assert_eq!(WorkflowIdReusePolicy::from_i32(5), None);
    assert_eq!(WorkflowIdConflictPolicy::from_i32(1), Some(WorkflowIdConflictPolicy::Fail));
    assert_eq!(WorkflowIdConflictPolicy::from_i32(-1), None);
}

#[test]
fn update_options_default_waits_for_completion() {
    let options = UpdateWorkflowOptions::default();
    assert_eq!(options.wait_policy.lifecycle_stage, 3);
}
