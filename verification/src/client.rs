//! Client-side options, request shapes and result decoding for starting,
//! signaling, updating and observing workflows.
//!
//! The asynchronous client turns a [`StartWorkflowRequest`],
//! [`SignalWithStartRequest`], [`SignalRequest`] or [`UpdateRequest`] into one
//! RPC and decodes what comes back with [`decode_workflow_result`] and
//! [`decode_workflow_update_result`].
use vstd::prelude::*;

use crate::decode::{
    decode_workflow_output, decode_workflow_update_output, named, named_message, output_context,
    output_extra, output_missing, single_payload_decoded, DecodeError,
};

verus! {

/// What the server does when a workflow id was used by a closed workflow.
#[derive(Debug, Clone, Copy, PartialEq, Eq, Hash, Structural)]
pub enum WorkflowIdReusePolicy {
    Unspecified,
    AllowDuplicate,
    AllowDuplicateFailedOnly,
    RejectDuplicate,
    TerminateIfRunning,
}

/// What the server does when a workflow id is used by a running workflow.
#[derive(Debug, Clone, Copy, PartialEq, Eq, Hash, Structural)]
pub enum WorkflowIdConflictPolicy {
    Unspecified,
    Fail,
    UseExisting,
    TerminateExisting,
}

impl WorkflowIdReusePolicy {
    /// The protocol number of the policy.
    pub open spec fn code(self) -> i32 {
        match self {
            WorkflowIdReusePolicy::Unspecified => 0,
            WorkflowIdReusePolicy::AllowDuplicate => 1,
            WorkflowIdReusePolicy::AllowDuplicateFailedOnly => 2,
            WorkflowIdReusePolicy::RejectDuplicate => 3,
            WorkflowIdReusePolicy::TerminateIfRunning => 4,
        }
    }

    /// Returns the protocol number of the policy.
    pub fn as_i32(self) -> (r: i32)
        ensures
            r == self.code(),
            self is Unspecified ==> r == 0,
            self is AllowDuplicate ==> r == 1,
            self is AllowDuplicateFailedOnly ==> r == 2,
            self is RejectDuplicate ==> r == 3,
            self is TerminateIfRunning ==> r == 4,
    {
        match self {
            WorkflowIdReusePolicy::Unspecified => 0,
            WorkflowIdReusePolicy::AllowDuplicate => 1,
            WorkflowIdReusePolicy::AllowDuplicateFailedOnly => 2,
            WorkflowIdReusePolicy::RejectDuplicate => 3,
            WorkflowIdReusePolicy::TerminateIfRunning => 4,
        }
    }

    /// The policy with protocol number `code`, if there is one.
    pub fn from_i32(code: i32) -> (r: Option<Self>)
        ensures
            code == 0 ==> r == Some(WorkflowIdReusePolicy::Unspecified),
            code == 1 ==> r == Some(WorkflowIdReusePolicy::AllowDuplicate),
            code == 2 ==> r == Some(WorkflowIdReusePolicy::AllowDuplicateFailedOnly),
            code == 3 ==> r == Some(WorkflowIdReusePolicy::RejectDuplicate),
            code == 4 ==> r == Some(WorkflowIdReusePolicy::TerminateIfRunning),
            (code < 0 || code > 4) ==> r is None,
            match r {
                Some(p) => p.code() == code,
                None => 0 > code || code > 4,
            },
    {
        match code {
            0 => Some(WorkflowIdReusePolicy::Unspecified),
            1 => Some(WorkflowIdReusePolicy::AllowDuplicate),
            2 => Some(WorkflowIdReusePolicy::AllowDuplicateFailedOnly),
            3 => Some(WorkflowIdReusePolicy::RejectDuplicate),
            4 => Some(WorkflowIdReusePolicy::TerminateIfRunning),
            _ => None,
        }
    }
}

impl WorkflowIdConflictPolicy {
    /// The protocol number of the policy.
    pub open spec fn code(self) -> i32 {
        match self {
            WorkflowIdConflictPolicy::Unspecified => 0,
            WorkflowIdConflictPolicy::Fail => 1,
            WorkflowIdConflictPolicy::UseExisting => 2,
            WorkflowIdConflictPolicy::TerminateExisting => 3,
        }
    }

    /// Returns the protocol number of the policy.
    pub fn as_i32(self) -> (r: i32)
        ensures
            r == self.code(),
            self is Unspecified ==> r == 0,
            self is Fail ==> r == 1,
            self is UseExisting ==> r == 2,
            self is TerminateExisting ==> r == 3,
    {
        match self {
            WorkflowIdConflictPolicy::Unspecified => 0,
            WorkflowIdConflictPolicy::Fail => 1,
            WorkflowIdConflictPolicy::UseExisting => 2,
            WorkflowIdConflictPolicy::TerminateExisting => 3,
        }
    }

    /// The policy with protocol number `code`, if there is one.
    pub fn from_i32(code: i32) -> (r: Option<Self>)
        ensures
            code == 0 ==> r == Some(WorkflowIdConflictPolicy::Unspecified),
            code == 1 ==> r == Some(WorkflowIdConflictPolicy::Fail),
            code == 2 ==> r == Some(WorkflowIdConflictPolicy::UseExisting),
            code == 3 ==> r == Some(WorkflowIdConflictPolicy::TerminateExisting),
            (code < 0 || code > 3) ==> r is None,
            match r {
                Some(p) => p.code() == code,
                None => 0 > code || code > 3,
            },
    {
        match code {
            0 => Some(WorkflowIdConflictPolicy::Unspecified),
            1 => Some(WorkflowIdConflictPolicy::Fail),
            2 => Some(WorkflowIdConflictPolicy::UseExisting),
            3 => Some(WorkflowIdConflictPolicy::TerminateExisting),
            _ => None,
        }
    }
}

/// The protocol numbers of the workflow-id policies are Temporal's:
/// reuse Unspecified 0, AllowDuplicate 1, AllowDuplicateFailedOnly 2,
/// RejectDuplicate 3, TerminateIfRunning 4; conflict Unspecified 0, Fail 1,
/// UseExisting 2, TerminateExisting 3.
pub proof fn lemma_policy_protocol_numbers()
    ensures
        WorkflowIdReusePolicy::Unspecified.code() == 0,
        WorkflowIdReusePolicy::AllowDuplicate.code() == 1,
        WorkflowIdReusePolicy::AllowDuplicateFailedOnly.code() == 2,
        WorkflowIdReusePolicy::RejectDuplicate.code() == 3,
        WorkflowIdReusePolicy::TerminateIfRunning.code() == 4,
        WorkflowIdConflictPolicy::Unspecified.code() == 0,
        WorkflowIdConflictPolicy::Fail.code() == 1,
        WorkflowIdConflictPolicy::UseExisting.code() == 2,
        WorkflowIdConflictPolicy::TerminateExisting.code() == 3,
        forall|a: WorkflowIdReusePolicy, b: WorkflowIdReusePolicy| a.code() == b.code() ==> a == b,
        forall|a: WorkflowIdConflictPolicy, b: WorkflowIdConflictPolicy|
            a.code() == b.code() ==> a == b,
{
}

/// Temporal workflow start options: the two workflow-id policies that this
/// library sets, and `other`, the remaining start options (timeouts, retry
/// policy, cron schedule, search attributes, eager start, ...) that it
/// carries to the server unchanged.
#[derive(Debug, Clone)]
pub struct WorkflowOptions<X> {
    /// Policy for reusing a workflow id of a closed workflow.
    pub id_reuse_policy: WorkflowIdReusePolicy,
    /// Policy for a workflow id that a running workflow holds.
    pub id_conflict_policy: WorkflowIdConflictPolicy,
    /// The other start options.
    pub other: X,
}

impl<X> WorkflowOptions<X> {
    /// These options with the reuse policy replaced.
    pub open spec fn with_reuse(self, policy: WorkflowIdReusePolicy) -> Self {
        WorkflowOptions { id_reuse_policy: policy, ..self }
    }

    /// These options with the conflict policy replaced.
    pub open spec fn with_conflict(self, policy: WorkflowIdConflictPolicy) -> Self {
        WorkflowOptions { id_conflict_policy: policy, ..self }
    }

    /// These options with both policies replaced.
    pub open spec fn with_policies(
        self,
        reuse_policy: WorkflowIdReusePolicy,
        conflict_policy: WorkflowIdConflictPolicy,
    ) -> Self {
        WorkflowOptions {
            id_reuse_policy: reuse_policy,
            id_conflict_policy: conflict_policy,
            ..self
        }
    }
}

impl<X: Default> Default for WorkflowOptions<X> {
    /// Both policies unspecified, the other options at their defaults.
    fn default() -> (r: Self)
        ensures
            r.id_reuse_policy == WorkflowIdReusePolicy::Unspecified,
            r.id_conflict_policy == WorkflowIdConflictPolicy::Unspecified,
    {
        WorkflowOptions {
            id_reuse_policy: WorkflowIdReusePolicy::Unspecified,
            id_conflict_policy: WorkflowIdConflictPolicy::Unspecified,
            other: X::default(),
        }
    }
}

/// Setting both policies at once is setting the reuse policy and then the
/// conflict policy, or the other way round: the two setters touch different
/// fields and leave the other start options alone.
pub proof fn lemma_policies_set_both<X>(
    options: WorkflowOptions<X>,
    reuse_policy: WorkflowIdReusePolicy,
    conflict_policy: WorkflowIdConflictPolicy,
)
    ensures
        options.with_policies(reuse_policy, conflict_policy) == options.with_reuse(
            reuse_policy,
        ).with_conflict(conflict_policy),
        options.with_policies(reuse_policy, conflict_policy) == options.with_conflict(
            conflict_policy,
        ).with_reuse(reuse_policy),
        options.with_policies(reuse_policy, conflict_policy).other == options.other,
{
}

/// Setting the reuse policy to `p` makes it `p` and keeps the conflict
/// policy and the other options; likewise for the conflict policy; setting
/// both makes each the given one.
pub proof fn lemma_policy_setters_set_their_field<X>(
    options: WorkflowOptions<X>,
    reuse_policy: WorkflowIdReusePolicy,
    conflict_policy: WorkflowIdConflictPolicy,
)
    ensures
        options.with_reuse(reuse_policy).id_reuse_policy == reuse_policy,
        options.with_reuse(reuse_policy).id_conflict_policy == options.id_conflict_policy,
        options.with_reuse(reuse_policy).other == options.other,
        options.with_conflict(conflict_policy).id_conflict_policy == conflict_policy,
        options.with_conflict(conflict_policy).id_reuse_policy == options.id_reuse_policy,
        options.with_conflict(conflict_policy).other == options.other,
        options.with_policies(reuse_policy, conflict_policy).id_reuse_policy == reuse_policy,
        options.with_policies(reuse_policy, conflict_policy).id_conflict_policy == conflict_policy,
{
}

/// Setting a policy twice keeps the last value.
pub proof fn lemma_policy_last_write_wins<X>(
    options: WorkflowOptions<X>,
    r1: WorkflowIdReusePolicy,
    r2: WorkflowIdReusePolicy,
    c1: WorkflowIdConflictPolicy,
    c2: WorkflowIdConflictPolicy,
)
    ensures
        options.with_reuse(r1).with_reuse(r2) == options.with_reuse(r2),
        options.with_conflict(c1).with_conflict(c2) == options.with_conflict(c2),
{
}

/// Whether `c` is a lowercase hexadecimal digit.
pub open spec fn is_lower_hex(c: char) -> bool {
    ('0' <= c && c <= '9') || ('a' <= c && c <= 'f')
}

/// Whether `s` is a random (version 4) UUID in the simple format: 32
/// lowercase hex digits, the version digit `4` at index 12 and the variant
/// digit `8`, `9`, `a` or `b` at index 16.
pub open spec fn is_uuid_v4_simple(s: Seq<char>) -> bool {
    &&& s.len() == 32
    &&& forall|i: int| 0 <= i < 32 ==> is_lower_hex(#[trigger] s[i])
    &&& s[12] == '4'
    &&& (s[16] == '8' || s[16] == '9' || s[16] == 'a' || s[16] == 'b')
}

/// A fresh random workflow id: `uuid::Uuid::new_v4().simple().to_string()`.
/// The uuid crate sets the version and variant bits of the random value and
/// writes its 16 bytes as 32 lowercase hex digits; which digits come out is
/// left to chance.
#[verifier::external_body]
pub fn random_workflow_id() -> (r: String)
    ensures
        is_uuid_v4_simple(r@),
{
    uuid::Uuid::new_v4().simple().to_string()
}

/// Every id that the random source hands out is a UUID v4 in simple form;
/// the options built by `new` carry the id drawn by that call.
pub proof fn lemma_drawn_workflow_ids_are_uuid_v4(id: String)
    requires
        call_ensures(random_workflow_id, (), id),
    ensures
        is_uuid_v4_simple(id@),
        id@.len() == 32,
        id@[12] == '4',
{
}

/// Options for starting a workflow execution; `X` holds the start options
/// that the library carries unchanged (see [`WorkflowOptions`]).
#[derive(Debug, Clone)]
pub struct StartWorkflowOptions<X> {
    /// Target task queue to schedule the workflow execution on.
    pub task_queue: String,
    /// Workflow id to use for the execution.
    pub workflow_id: String,
    /// Optional request id for idempotent start semantics.
    pub request_id: Option<String>,
    /// Additional Temporal workflow start options.
    pub workflow_options: WorkflowOptions<X>,
}

impl<X: Default> StartWorkflowOptions<X> {
    /// Creates workflow start options with default [`WorkflowOptions`] and a
    /// random workflow id (a UUID v4 in simple hex form).
    pub fn new(task_queue: &str) -> (r: Self)
        ensures
            r.task_queue@ == task_queue@,
            is_uuid_v4_simple(r.workflow_id@),
            call_ensures(random_workflow_id, (), r.workflow_id),
            r.request_id is None,
            r.workflow_options.id_reuse_policy == WorkflowIdReusePolicy::Unspecified,
            r.workflow_options.id_conflict_policy == WorkflowIdConflictPolicy::Unspecified,
    {
        let draw = random_workflow_id;
        let workflow_id = draw();
        StartWorkflowOptions {
            task_queue: task_queue.to_owned(),
            workflow_id,
            request_id: None,
            workflow_options: WorkflowOptions::default(),
        }
    }
}

impl<X> StartWorkflowOptions<X> {
    /// Sets the workflow id.
    pub fn with_workflow_id(self, workflow_id: &str) -> (r: Self)
        ensures
            r.workflow_id@ == workflow_id@,
            r.task_queue == self.task_queue,
            r.request_id == self.request_id,
            r.workflow_options == self.workflow_options,
    {
        StartWorkflowOptions { workflow_id: workflow_id.to_owned(), ..self }
    }

    /// Sets the request id used for workflow start idempotency.
    pub fn with_request_id(self, request_id: &str) -> (r: Self)
        ensures
            r.request_id matches Some(id) && id@ == request_id@,
            r.task_queue == self.task_queue,
            r.workflow_id == self.workflow_id,
            r.workflow_options == self.workflow_options,
    {
        StartWorkflowOptions { request_id: Some(request_id.to_owned()), ..self }
    }

    /// Sets the policy for reusing a workflow id from a previously closed workflow.
    pub fn with_workflow_id_reuse_policy(self, policy: WorkflowIdReusePolicy) -> (r: Self)
        ensures
            r == (StartWorkflowOptions {
                workflow_options: self.workflow_options.with_reuse(policy),
                ..self
            }),
            r.workflow_options.id_reuse_policy == policy,
            r.workflow_options.id_conflict_policy == self.workflow_options.id_conflict_policy,
            r.workflow_options.other == self.workflow_options.other,
            r.task_queue == self.task_queue,
            r.workflow_id == self.workflow_id,
            r.request_id == self.request_id,
    {
        let StartWorkflowOptions { task_queue, workflow_id, request_id, workflow_options } = self;
        StartWorkflowOptions {
            task_queue,
            workflow_id,
            request_id,
            workflow_options: WorkflowOptions { id_reuse_policy: policy, ..workflow_options },
        }
    }

    /// Sets the policy for resolving conflicts with a running workflow of the same id.
    pub fn with_workflow_id_conflict_policy(self, policy: WorkflowIdConflictPolicy) -> (r: Self)
        ensures
            r == (StartWorkflowOptions {
                workflow_options: self.workflow_options.with_conflict(policy),
                ..self
            }),
            r.workflow_options.id_conflict_policy == policy,
            r.workflow_options.id_reuse_policy == self.workflow_options.id_reuse_policy,
            r.workflow_options.other == self.workflow_options.other,
            r.task_queue == self.task_queue,
            r.workflow_id == self.workflow_id,
            r.request_id == self.request_id,
    {
        let StartWorkflowOptions { task_queue, workflow_id, request_id, workflow_options } = self;
        StartWorkflowOptions {
            task_queue,
            workflow_id,
            request_id,
            workflow_options: WorkflowOptions { id_conflict_policy: policy, ..workflow_options },
        }
    }

    /// Sets both workflow id reuse and running-workflow conflict policies.
    pub fn with_workflow_id_policies(
        self,
        reuse_policy: WorkflowIdReusePolicy,
        conflict_policy: WorkflowIdConflictPolicy,
    ) -> (r: Self)
        ensures
            r == (StartWorkflowOptions {
                workflow_options: self.workflow_options.with_policies(
                    reuse_policy,
                    conflict_policy,
                ),
                ..self
            }),
            r.workflow_options.id_reuse_policy == reuse_policy,
            r.workflow_options.id_conflict_policy == conflict_policy,
            r.workflow_options.other == self.workflow_options.other,
            r.task_queue == self.task_queue,
            r.workflow_id == self.workflow_id,
            r.request_id == self.request_id,
    {
        let StartWorkflowOptions { task_queue, workflow_id, request_id, workflow_options } = self;
        StartWorkflowOptions {
            task_queue,
            workflow_id,
            request_id,
            workflow_options: WorkflowOptions {
                id_reuse_policy: reuse_policy,
                id_conflict_policy: conflict_policy,
                ..workflow_options
            },
        }
    }

    /// Replaces Temporal workflow options used at start time.
    pub fn with_workflow_options(self, workflow_options: WorkflowOptions<X>) -> (r: Self)
        ensures
            r == (StartWorkflowOptions { workflow_options, ..self }),
            r.workflow_options == workflow_options,
            r.task_queue == self.task_queue,
            r.workflow_id == self.workflow_id,
            r.request_id == self.request_id,
    {
        StartWorkflowOptions { workflow_options, ..self }
    }
}


/// Options for sending a workflow signal.
#[derive(Debug, Clone)]
pub struct SignalWorkflowOptions {
    /// Optional request id for idempotent signal semantics.
    pub request_id: Option<String>,
}

impl Default for SignalWorkflowOptions {
    /// No request id.
    fn default() -> (r: Self)
        ensures
            r.request_id is None,
    {
        SignalWorkflowOptions { request_id: None }
    }
}

impl SignalWorkflowOptions {
    /// Sets the request id used for signal idempotency.
    pub fn with_request_id(self, request_id: &str) -> (r: Self)
        ensures
            r.request_id matches Some(id) && id@ == request_id@,
    {
        SignalWorkflowOptions { request_id: Some(request_id.to_owned()) }
    }
}

/// Options for atomically signaling or starting a workflow execution; `X`
/// holds the start options that the library carries unchanged.
#[derive(Debug, Clone)]
pub struct SignalWithStartWorkflowOptions<X> {
    /// Target task queue to schedule the workflow execution on when started.
    pub task_queue: String,
    /// Workflow id to signal or start.
    pub workflow_id: String,
    /// Optional request id for idempotent signal-with-start semantics.
    pub request_id: Option<String>,
    /// Additional Temporal workflow start options used when the workflow is started.
    pub workflow_options: WorkflowOptions<X>,
}

impl<X: Default> SignalWithStartWorkflowOptions<X> {
    /// Creates signal-with-start options with default [`WorkflowOptions`] and
    /// a random workflow id (a UUID v4 in simple hex form).
    pub fn new(task_queue: &str) -> (r: Self)
        ensures
            r.task_queue@ == task_queue@,
            is_uuid_v4_simple(r.workflow_id@),
            call_ensures(random_workflow_id, (), r.workflow_id),
            r.request_id is None,
            r.workflow_options.id_reuse_policy == WorkflowIdReusePolicy::Unspecified,
            r.workflow_options.id_conflict_policy == WorkflowIdConflictPolicy::Unspecified,
    {
        let draw = random_workflow_id;
        let workflow_id = draw();
        SignalWithStartWorkflowOptions {
            task_queue: task_queue.to_owned(),
            workflow_id,
            request_id: None,
            workflow_options: WorkflowOptions::default(),
        }
    }
}

impl<X> SignalWithStartWorkflowOptions<X> {
    /// Sets the workflow id.
    pub fn with_workflow_id(self, workflow_id: &str) -> (r: Self)
        ensures
            r.workflow_id@ == workflow_id@,
            r.task_queue == self.task_queue,
            r.request_id == self.request_id,
            r.workflow_options == self.workflow_options,
    {
        SignalWithStartWorkflowOptions { workflow_id: workflow_id.to_owned(), ..self }
    }

    /// Sets the request id used for signal-with-start idempotency.
    pub fn with_request_id(self, request_id: &str) -> (r: Self)
        ensures
            r.request_id matches Some(id) && id@ == request_id@,
            r.task_queue == self.task_queue,
            r.workflow_id == self.workflow_id,
            r.workflow_options == self.workflow_options,
    {
        SignalWithStartWorkflowOptions { request_id: Some(request_id.to_owned()), ..self }
    }

    /// Sets the policy for reusing a workflow id from a previously closed workflow.
    pub fn with_workflow_id_reuse_policy(self, policy: WorkflowIdReusePolicy) -> (r: Self)
        ensures
            r == (SignalWithStartWorkflowOptions {
                workflow_options: self.workflow_options.with_reuse(policy),
                ..self
            }),
            r.workflow_options.id_reuse_policy == policy,
            r.workflow_options.id_conflict_policy == self.workflow_options.id_conflict_policy,
            r.workflow_options.other == self.workflow_options.other,
            r.task_queue == self.task_queue,
            r.workflow_id == self.workflow_id,
            r.request_id == self.request_id,
    {
        let SignalWithStartWorkflowOptions { task_queue, workflow_id, request_id, workflow_options } =
            self;
        SignalWithStartWorkflowOptions {
            task_queue,
            workflow_id,
            request_id,
            workflow_options: WorkflowOptions { id_reuse_policy: policy, ..workflow_options },
        }
    }

    /// Sets the policy for resolving conflicts with a running workflow of the same id.
    pub fn with_workflow_id_conflict_policy(self, policy: WorkflowIdConflictPolicy) -> (r: Self)
        ensures
            r == (SignalWithStartWorkflowOptions {
                workflow_options: self.workflow_options.with_conflict(policy),
                ..self
            }),
            r.workflow_options.id_conflict_policy == policy,
            r.workflow_options.id_reuse_policy == self.workflow_options.id_reuse_policy,
            r.workflow_options.other == self.workflow_options.other,
            r.task_queue == self.task_queue,
            r.workflow_id == self.workflow_id,
            r.request_id == self.request_id,
    {
        let SignalWithStartWorkflowOptions { task_queue, workflow_id, request_id, workflow_options } =
            self;
        SignalWithStartWorkflowOptions {
            task_queue,
            workflow_id,
            request_id,
            workflow_options: WorkflowOptions { id_conflict_policy: policy, ..workflow_options },
        }
    }

    /// Sets both workflow id reuse and running-workflow conflict policies.
    pub fn with_workflow_id_policies(
        self,
        reuse_policy: WorkflowIdReusePolicy,
        conflict_policy: WorkflowIdConflictPolicy,
    ) -> (r: Self)
        ensures
            r == (SignalWithStartWorkflowOptions {
                workflow_options: self.workflow_options.with_policies(
                    reuse_policy,
                    conflict_policy,
                ),
                ..self
            }),
            r.workflow_options.id_reuse_policy == reuse_policy,
            r.workflow_options.id_conflict_policy == conflict_policy,
            r.workflow_options.other == self.workflow_options.other,
            r.task_queue == self.task_queue,
            r.workflow_id == self.workflow_id,
            r.request_id == self.request_id,
    {
        let SignalWithStartWorkflowOptions { task_queue, workflow_id, request_id, workflow_options } =
            self;
        SignalWithStartWorkflowOptions {
            task_queue,
            workflow_id,
            request_id,
            workflow_options: WorkflowOptions {
                id_reuse_policy: reuse_policy,
                id_conflict_policy: conflict_policy,
                ..workflow_options
            },
        }
    }

    /// Replaces Temporal workflow options used when starting the workflow.
    pub fn with_workflow_options(self, workflow_options: WorkflowOptions<X>) -> (r: Self)
        ensures
            r == (SignalWithStartWorkflowOptions { workflow_options, ..self }),
            r.workflow_options == workflow_options,
            r.task_queue == self.task_queue,
            r.workflow_id == self.workflow_id,
            r.request_id == self.request_id,
    {
        SignalWithStartWorkflowOptions { workflow_options, ..self }
    }
}

/// The stages of a workflow update's lifecycle that a caller can wait for.
#[derive(Debug, Clone, Copy, PartialEq, Eq, Hash, Structural)]
pub enum UpdateWorkflowExecutionLifecycleStage {
    Unspecified,
    Admitted,
    Accepted,
    Completed,
}

impl UpdateWorkflowExecutionLifecycleStage {
    /// The protocol number of the stage.
    pub open spec fn code(self) -> i32 {
        match self {
            UpdateWorkflowExecutionLifecycleStage::Unspecified => 0,
            UpdateWorkflowExecutionLifecycleStage::Admitted => 1,
            UpdateWorkflowExecutionLifecycleStage::Accepted => 2,
            UpdateWorkflowExecutionLifecycleStage::Completed => 3,
        }
    }

    /// Returns the protocol number of the stage.
    pub fn as_i32(self) -> (r: i32)
        ensures
            r == self.code(),
            self is Unspecified ==> r == 0,
            self is Admitted ==> r == 1,
            self is Accepted ==> r == 2,
            self is Completed ==> r == 3,
    {
        match self {
            UpdateWorkflowExecutionLifecycleStage::Unspecified => 0,
            UpdateWorkflowExecutionLifecycleStage::Admitted => 1,
            UpdateWorkflowExecutionLifecycleStage::Accepted => 2,
            UpdateWorkflowExecutionLifecycleStage::Completed => 3,
        }
    }
}

/// The protocol numbers of the update lifecycle stages are Temporal's:
/// Unspecified 0, Admitted 1, Accepted 2, Completed 3, and distinct stages
/// have distinct numbers.
pub proof fn lemma_lifecycle_stage_protocol_numbers()
    ensures
        UpdateWorkflowExecutionLifecycleStage::Unspecified.code() == 0,
        UpdateWorkflowExecutionLifecycleStage::Admitted.code() == 1,
        UpdateWorkflowExecutionLifecycleStage::Accepted.code() == 2,
        UpdateWorkflowExecutionLifecycleStage::Completed.code() == 3,
        forall|a: UpdateWorkflowExecutionLifecycleStage, b: UpdateWorkflowExecutionLifecycleStage|
            a.code() == b.code() ==> a == b,
{
}

/// When the server answers an update request: once the update has reached
/// `lifecycle_stage` (a protocol number of
/// [`UpdateWorkflowExecutionLifecycleStage`]).
#[derive(Debug, Clone, Copy, PartialEq, Eq, Structural)]
pub struct WaitPolicy {
    pub lifecycle_stage: i32,
}

/// Options for executing a workflow update.
#[derive(Debug, Clone, Copy)]
pub struct UpdateWorkflowOptions {
    /// Temporal wait policy controlling when the update response is returned.
    pub wait_policy: WaitPolicy,
}

impl Default for UpdateWorkflowOptions {
    /// Waits until the update has completed.
    fn default() -> (r: Self)
        ensures
            r.wait_policy.lifecycle_stage
                == UpdateWorkflowExecutionLifecycleStage::Completed.code(),
            r.wait_policy.lifecycle_stage == 3,
    {
        UpdateWorkflowOptions {
            wait_policy: WaitPolicy {
                lifecycle_stage: UpdateWorkflowExecutionLifecycleStage::Completed.as_i32(),
            },
        }
    }
}

/// Typed result of a workflow update execution; `F` is the failure that the
/// server reports.
#[derive(Debug, Clone)]
pub enum WorkflowUpdateResult<T, F> {
    Succeeded(T),
    Failed(F),
}

impl<T, F> WorkflowUpdateResult<T, F> {
    /// The update result as a standard result.
    pub open spec fn to_result(self) -> Result<T, F> {
        match self {
            WorkflowUpdateResult::Succeeded(value) => Ok(value),
            WorkflowUpdateResult::Failed(failure) => Err(failure),
        }
    }

    /// Returns `true` when the update completed successfully.
    pub fn is_success(&self) -> (r: bool)
        ensures
            r == (self is Succeeded),
    {
        match self {
            WorkflowUpdateResult::Succeeded(_) => true,
            WorkflowUpdateResult::Failed(_) => false,
        }
    }

    /// Converts the update result into a standard result.
    pub fn into_result(self) -> (r: Result<T, F>)
        ensures
            r == self.to_result(),
    {
        match self {
            WorkflowUpdateResult::Succeeded(value) => Ok(value),
            WorkflowUpdateResult::Failed(failure) => Err(failure),
        }
    }
}

/// An update result is a success exactly when it converts to `Ok`, and the
/// conversion keeps the value or the failure.
pub proof fn lemma_update_result_success_iff_ok<T, F>(r: WorkflowUpdateResult<T, F>)
    ensures
        (r is Succeeded) <==> (r.to_result() is Ok),
        r matches WorkflowUpdateResult::Succeeded(v) ==> r.to_result() == Ok::<T, F>(v),
        r matches WorkflowUpdateResult::Failed(f) ==> r.to_result() == Err::<T, F>(f),
{
}

/// High-level type-safe wrapper for Temporal clients.
#[derive(Clone)]
pub struct Client<C> {
    inner: C,
}

impl<C> Client<C> {
    /// The wrapped client.
    pub closed spec fn wrapped(&self) -> C {
        self.inner
    }

    /// Wraps an existing client implementation.
    pub fn new(inner: C) -> (r: Self)
        ensures
            r.wrapped() == inner,
    {
        Client { inner }
    }

    /// Returns a shared reference to the underlying client.
    pub fn inner(&self) -> (r: &C)
        ensures
            *r == self.wrapped(),
    {
        &self.inner
    }

    /// Consumes this wrapper and returns the underlying client.
    pub fn into_inner(self) -> (r: C)
        ensures
            r == self.wrapped(),
    {
        self.inner
    }
}


/// Temporal's optional payload collection: a non-empty list of payloads.
#[derive(Debug, Clone)]
pub struct Payloads<P> {
    pub payloads: Vec<P>,
}

/// Collects payloads into Temporal's optional collection shape: `None` for
/// an empty list, otherwise all of them in order.
pub fn into_payloads<P>(items: Vec<P>) -> (r: Option<Payloads<P>>)
    ensures
        items.len() == 0 ==> r is None,
        items.len() > 0 ==> (r matches Some(ps) && ps.payloads@ == items@),
{
    if items.len() == 0 {
        None
    } else {
        Some(Payloads { payloads: items })
    }
}

/// Converts a single payload into Temporal's optional payload collection shape.
pub fn one_payloads<P>(payload: P) -> (r: Option<Payloads<P>>)
    ensures
        r matches Some(ps) && ps.payloads@ == seq![payload],
{
    let mut items = Vec::new();
    items.push(payload);
    into_payloads(items)
}

/// The arguments of a start-workflow RPC.
#[derive(Debug, Clone)]
pub struct StartWorkflowRequest<P, X> {
    /// The workflow's input: one payload.
    pub input: Vec<P>,
    pub task_queue: String,
    pub workflow_id: String,
    pub workflow_type: String,
    pub request_id: Option<String>,
    pub workflow_options: WorkflowOptions<X>,
}

/// Context of an input that does not serialize when a workflow is started.
pub const START_INPUT_CONTEXT: &'static str = "failed to serialize workflow input to payload";

/// Builds the start request for a workflow of type `workflow_type` whose
/// input serialized to `input`: the input as the only argument, and the
/// queue, id, request id and workflow options taken from `options`.
pub fn start_workflow_request<P, X>(
    options: StartWorkflowOptions<X>,
    workflow_type: &str,
    input: P,
) -> (r: StartWorkflowRequest<P, X>)
    ensures
        r.input@ == seq![input],
        r.task_queue == options.task_queue,
        r.workflow_id == options.workflow_id,
        r.workflow_type@ == workflow_type@,
        r.request_id == options.request_id,
        r.workflow_options == options.workflow_options,
{
    let StartWorkflowOptions { task_queue, workflow_id, request_id, workflow_options } = options;
    let mut args = Vec::new();
    args.push(input);
    StartWorkflowRequest {
        input: args,
        task_queue,
        workflow_id,
        workflow_type: workflow_type.to_owned(),
        request_id,
        workflow_options,
    }
}

/// Context of a start-workflow RPC that fails.
pub fn start_workflow_error_context(workflow_type: &str) -> (r: String)
    ensures
        r@ == named("failed to start workflow `"@, workflow_type@, "`"@),
{
    named_message("failed to start workflow `", workflow_type, "`")
}

/// The arguments of a signal-with-start RPC.
#[derive(Debug, Clone)]
pub struct SignalWithStartRequest<P, X> {
    /// The workflow's input, used when the workflow is started.
    pub input: Option<Payloads<P>>,
    pub task_queue: String,
    pub workflow_id: String,
    pub workflow_type: String,
    pub request_id: Option<String>,
    pub signal_name: String,
    /// The signal's input.
    pub signal_input: Option<Payloads<P>>,
    pub workflow_options: WorkflowOptions<X>,
}

/// Builds the signal-with-start request that sends signal `signal_name`
/// (with `signal_input`) to the workflow of type `workflow_type` named by
/// `options`, or starts it (with `workflow_input`) if it is not running.
pub fn signal_with_start_request<P, X>(
    options: SignalWithStartWorkflowOptions<X>,
    workflow_type: &str,
    signal_name: &str,
    workflow_input: P,
    signal_input: P,
) -> (r: SignalWithStartRequest<P, X>)
    ensures
        r.input matches Some(ps) && ps.payloads@ == seq![workflow_input],
        r.signal_input matches Some(ps) && ps.payloads@ == seq![signal_input],
        r.task_queue == options.task_queue,
        r.workflow_id == options.workflow_id,
        r.workflow_type@ == workflow_type@,
        r.request_id == options.request_id,
        r.signal_name@ == signal_name@,
        r.workflow_options == options.workflow_options,
{
    let SignalWithStartWorkflowOptions { task_queue, workflow_id, request_id, workflow_options } =
        options;
    SignalWithStartRequest {
        input: one_payloads(workflow_input),
        task_queue,
        workflow_id,
        workflow_type: workflow_type.to_owned(),
        request_id,
        signal_name: signal_name.to_owned(),
        signal_input: one_payloads(signal_input),
        workflow_options,
    }
}

/// Context of a workflow input that does not serialize for signal-with-start.
pub fn signal_with_start_input_context(workflow_type: &str) -> (r: String)
    ensures
        r@ == named(
            "failed to serialize input for signal-with-start workflow `"@,
            workflow_type@,
            "`"@,
        ),
{
    named_message("failed to serialize input for signal-with-start workflow `", workflow_type, "`")
}

/// Context of a signal input that does not serialize.
pub fn signal_input_context(signal_name: &str) -> (r: String)
    ensures
        r@ == named("failed to serialize input for workflow signal `"@, signal_name@, "`"@),
{
    named_message("failed to serialize input for workflow signal `", signal_name, "`")
}

/// Context of a signal-with-start RPC that fails.
pub fn signal_with_start_error_context(workflow_type: &str, signal_name: &str) -> (r: String)
    ensures
        r@ == named("failed to signal-with-start workflow `"@, workflow_type@, "` with signal `"@)
            + signal_name@ + "`"@,
{
    let mut r = named_message(
        "failed to signal-with-start workflow `",
        workflow_type,
        "` with signal `",
    );
    r.append(signal_name);
    r.append("`");
    r
}

/// The run id to address: the known one, or the empty id, which targets the
/// latest run.
pub open spec fn run_id_or_latest(run_id: Option<String>) -> Seq<char> {
    match run_id {
        Some(id) => id@,
        None => Seq::empty(),
    }
}

/// A known run id is kept as it is; without one the empty id is used.
pub proof fn lemma_run_id_or_latest(run_id: Option<String>)
    ensures
        run_id matches Some(id) ==> run_id_or_latest(run_id) == id@,
        run_id is None ==> run_id_or_latest(run_id).len() == 0,
{
}

fn run_id_or_empty(run_id: Option<String>) -> (r: String)
    ensures
        r@ == run_id_or_latest(run_id),
{
    match run_id {
        Some(id) => id,
        None => String::new(),
    }
}

/// The arguments of a signal RPC.
#[derive(Debug, Clone)]
pub struct SignalRequest<P> {
    pub workflow_id: String,
    pub run_id: String,
    pub signal_name: String,
    pub input: Option<Payloads<P>>,
    pub request_id: Option<String>,
}

/// Builds the request that sends signal `signal_name` with `input` to the
/// run `run_id` of workflow `workflow_id` (the latest run when `run_id` is
/// `None`).
pub fn signal_request<P>(
    workflow_id: &str,
    run_id: Option<String>,
    signal_name: &str,
    input: P,
    options: SignalWorkflowOptions,
) -> (r: SignalRequest<P>)
    ensures
        r.workflow_id@ == workflow_id@,
        r.run_id@ == run_id_or_latest(run_id),
        r.signal_name@ == signal_name@,
        r.input matches Some(ps) && ps.payloads@ == seq![input],
        r.request_id == options.request_id,
{
    SignalRequest {
        workflow_id: workflow_id.to_owned(),
        run_id: run_id_or_empty(run_id),
        signal_name: signal_name.to_owned(),
        input: one_payloads(input),
        request_id: options.request_id,
    }
}

/// Context of a signal RPC that fails.
pub fn signal_error_context(workflow_type: &str, signal_name: &str) -> (r: String)
    ensures
        r@ == named("failed to signal workflow `"@, workflow_type@, "` with signal `"@)
            + signal_name@ + "`"@,
{
    let mut r = named_message("failed to signal workflow `", workflow_type, "` with signal `");
    r.append(signal_name);
    r.append("`");
    r
}

/// The arguments of an update RPC.
#[derive(Debug, Clone)]
pub struct UpdateRequest<P> {
    pub workflow_id: String,
    pub run_id: String,
    pub update_name: String,
    pub wait_policy: WaitPolicy,
    pub args: Option<Payloads<P>>,
}

/// Context of an update input that does not serialize.
pub const UPDATE_INPUT_CONTEXT: &'static str = "failed to serialize workflow update input to payload";

/// Builds the request that runs update `update_name` with `input` on the run
/// `run_id` of workflow `workflow_id` (the latest run when `run_id` is
/// `None`), answered as `options` asks.
pub fn update_request<P>(
    workflow_id: &str,
    run_id: Option<String>,
    update_name: &str,
    input: P,
    options: UpdateWorkflowOptions,
) -> (r: UpdateRequest<P>)
    ensures
        r.workflow_id@ == workflow_id@,
        r.run_id@ == run_id_or_latest(run_id),
        r.update_name@ == update_name@,
        r.wait_policy == options.wait_policy,
        r.args matches Some(ps) && ps.payloads@ == seq![input],
{
    let mut items = Vec::new();
    items.push(input);
    UpdateRequest {
        workflow_id: workflow_id.to_owned(),
        run_id: run_id_or_empty(run_id),
        update_name: update_name.to_owned(),
        wait_policy: options.wait_policy,
        args: into_payloads(items),
    }
}

/// Context of an update RPC that fails.
pub fn update_error_context(update_name: &str, workflow_type: &str) -> (r: String)
    ensures
        r@ == named("failed to execute workflow update `"@, update_name@, "` for workflow `"@)
            + workflow_type@ + "`"@,
{
    let mut r = named_message(
        "failed to execute workflow update `",
        update_name,
        "` for workflow `",
    );
    r.append(workflow_type);
    r.append("`");
    r
}


/// Terminal state of a workflow execution: the output on success (`T`), the
/// failure (`F`), or the details of a cancellation or termination (`D`).
#[derive(Debug, Clone)]
pub enum WorkflowExecutionResult<T, F, D> {
    /// The workflow finished successfully.
    Succeeded(T),
    /// The workflow finished in failure.
    Failed(F),
    /// The workflow was cancelled.
    Cancelled(D),
    /// The workflow was terminated.
    Terminated(D),
    /// The workflow timed out.
    TimedOut,
    /// The workflow continued as new.
    ContinuedAsNew,
}

/// The output part of a decoded execution result: `Some(Ok(t))` for a
/// decoded success, `Some(Err(e))` for a decoding error, `None` for a
/// non-success state.
pub open spec fn decoded_output<T, F, D, E>(
    r: Result<WorkflowExecutionResult<T, F, D>, DecodeError<E>>,
) -> Option<Result<T, DecodeError<E>>> {
    match r {
        Ok(WorkflowExecutionResult::Succeeded(t)) => Some(Ok(t)),
        Ok(_) => None,
        Err(e) => Some(Err(e)),
    }
}

/// Converts an untyped workflow execution result into a typed one: the
/// success payload list of workflow `workflow_type` is decoded as
/// [`decode_workflow_output`] does, every other terminal state is kept as it is.
pub fn decode_workflow_result<P, T, E, Fl, D, F: Fn(P) -> Result<T, E>>(
    workflow_type: &str,
    raw: WorkflowExecutionResult<Vec<P>, Fl, D>,
    decode: F,
) -> (r: Result<WorkflowExecutionResult<T, Fl, D>, DecodeError<E>>)
    requires
        raw matches WorkflowExecutionResult::Succeeded(ps) ==> (ps.len() == 1 ==> decode.requires(
            (ps@[0],),
        )),
    ensures
        match raw {
            WorkflowExecutionResult::Succeeded(ps) => decoded_output(r) matches Some(o)
                && single_payload_decoded(
                ps@,
                decode,
                output_missing("workflow"@, workflow_type@),
                output_extra("workflow"@, workflow_type@, ps.len() as nat),
                output_context("workflow"@, workflow_type@),
                o,
            ),
            WorkflowExecutionResult::Failed(f) => r == Ok::<
                WorkflowExecutionResult<T, Fl, D>,
                DecodeError<E>,
            >(WorkflowExecutionResult::Failed(f)),
            WorkflowExecutionResult::Cancelled(d) => r == Ok::<
                WorkflowExecutionResult<T, Fl, D>,
                DecodeError<E>,
            >(WorkflowExecutionResult::Cancelled(d)),
            WorkflowExecutionResult::Terminated(d) => r == Ok::<
                WorkflowExecutionResult<T, Fl, D>,
                DecodeError<E>,
            >(WorkflowExecutionResult::Terminated(d)),
            WorkflowExecutionResult::TimedOut => r == Ok::<
                WorkflowExecutionResult<T, Fl, D>,
                DecodeError<E>,
            >(WorkflowExecutionResult::TimedOut),
            WorkflowExecutionResult::ContinuedAsNew => r == Ok::<
                WorkflowExecutionResult<T, Fl, D>,
                DecodeError<E>,
            >(WorkflowExecutionResult::ContinuedAsNew),
        },
{
    match raw {
        WorkflowExecutionResult::Succeeded(payloads) => {
            match decode_workflow_output(workflow_type, payloads, decode) {
                Ok(output) => Ok(WorkflowExecutionResult::Succeeded(output)),
                Err(e) => Err(e),
            }
        },
        WorkflowExecutionResult::Failed(failure) => Ok(WorkflowExecutionResult::Failed(failure)),
        WorkflowExecutionResult::Cancelled(details) => Ok(
            WorkflowExecutionResult::Cancelled(details),
        ),
        WorkflowExecutionResult::Terminated(details) => Ok(
            WorkflowExecutionResult::Terminated(details),
        ),
        WorkflowExecutionResult::TimedOut => Ok(WorkflowExecutionResult::TimedOut),
        WorkflowExecutionResult::ContinuedAsNew => Ok(WorkflowExecutionResult::ContinuedAsNew),
    }
}

/// Only a success carries an output: a decoded success gives `Some(Ok(t))`,
/// an error `Some(Err(e))`, and every other terminal state `None`.
pub proof fn lemma_decoded_output_shape<T, F, D, E>(
    r: Result<WorkflowExecutionResult<T, F, D>, DecodeError<E>>,
)
    ensures
        r matches Ok(WorkflowExecutionResult::Succeeded(t)) ==> decoded_output(r) == Some(
            Ok::<T, DecodeError<E>>(t),
        ),
        r matches Err(e) ==> decoded_output(r) == Some(Err::<T, DecodeError<E>>(e)),
        r matches Ok(x) ==> (!(x is Succeeded) ==> decoded_output(r) is None),
{
}

/// What an update produced: its output payloads, or the failure it raised.
#[derive(Debug, Clone)]
pub enum UpdateOutcomeValue<P, F> {
    Success(Payloads<P>),
    Failure(F),
}

/// The outcome part of an update response.
#[derive(Debug, Clone)]
pub struct UpdateOutcome<P, F> {
    pub value: Option<UpdateOutcomeValue<P, F>>,
}

/// Message when an update response carries no outcome.
pub open spec fn update_outcome_missing() -> Seq<char> {
    "workflow update response did not include an outcome"@
}

/// Message when an update outcome carries no value.
pub open spec fn update_value_missing() -> Seq<char> {
    "workflow update outcome did not include a value"@
}

/// The output part of a decoded update result: `Some(Ok(t))` for a decoded
/// success, `Some(Err(e))` for an error, `None` for a failed update.
pub open spec fn decoded_update_output<T, F, E>(
    r: Result<WorkflowUpdateResult<T, F>, DecodeError<E>>,
) -> Option<Result<T, DecodeError<E>>> {
    match r {
        Ok(WorkflowUpdateResult::Succeeded(t)) => Some(Ok(t)),
        Ok(WorkflowUpdateResult::Failed(_)) => None,
        Err(e) => Some(Err(e)),
    }
}

/// The update messages are "workflow update response did not include an
/// outcome" and "workflow update outcome did not include a value"; only a
/// succeeded update carries an output.
pub proof fn lemma_update_decoding_texts_and_shape<T, F, E>(
    r: Result<WorkflowUpdateResult<T, F>, DecodeError<E>>,
)
    ensures
        update_outcome_missing() == "workflow update response did not include an outcome"@,
        update_value_missing() == "workflow update outcome did not include a value"@,
        r matches Ok(WorkflowUpdateResult::Succeeded(t)) ==> decoded_update_output(r) == Some(
            Ok::<T, DecodeError<E>>(t),
        ),
        r matches Ok(WorkflowUpdateResult::Failed(f)) ==> decoded_update_output(r) is None,
        r matches Err(e) ==> decoded_update_output(r) == Some(Err::<T, DecodeError<E>>(e)),
{
}

/// Converts the outcome of an update response into a typed update result:
/// a missing outcome or value is refused, a failure is kept, and the success
/// payloads of update `update_name` are decoded as
/// [`decode_workflow_update_output`] does.
pub fn decode_workflow_update_result<P, T, E, Fl, F: Fn(P) -> Result<T, E>>(
    update_name: &str,
    outcome: Option<UpdateOutcome<P, Fl>>,
    decode: F,
) -> (r: Result<WorkflowUpdateResult<T, Fl>, DecodeError<E>>)
    requires
        outcome matches Some(o) ==> (o.value matches Some(UpdateOutcomeValue::Success(ps)) ==> (
        ps.payloads.len() == 1 ==> decode.requires((ps.payloads@[0],)))),
    ensures
        match outcome {
            None => r matches Err(DecodeError::Rejected { message }) && message@
                == update_outcome_missing(),
            Some(o) => match o.value {
                None => r matches Err(DecodeError::Rejected { message }) && message@
                    == update_value_missing(),
                Some(UpdateOutcomeValue::Failure(f)) => r == Ok::<
                    WorkflowUpdateResult<T, Fl>,
                    DecodeError<E>,
                >(WorkflowUpdateResult::Failed(f)),
                Some(UpdateOutcomeValue::Success(ps)) => decoded_update_output(r) matches Some(x)
                    && single_payload_decoded(
                    ps.payloads@,
                    decode,
                    output_missing("workflow update"@, update_name@),
                    output_extra("workflow update"@, update_name@, ps.payloads.len() as nat),
                    output_context("workflow update"@, update_name@),
                    x,
                ),
            },
        },
{
    let outcome = match outcome {
        Some(o) => o,
        None => {
            return Err(
                DecodeError::Rejected {
                    message: "workflow update response did not include an outcome".to_owned(),
                },
            )
        },
    };
    match outcome.value {
        None => Err(
            DecodeError::Rejected {
                message: "workflow update outcome did not include a value".to_owned(),
            },
        ),
        Some(UpdateOutcomeValue::Success(payloads)) => {
            match decode_workflow_update_output(update_name, payloads.payloads, decode) {
                Ok(output) => Ok(WorkflowUpdateResult::Succeeded(output)),
                Err(e) => Err(e),
            }
        },
        Some(UpdateOutcomeValue::Failure(failure)) => Ok(WorkflowUpdateResult::Failed(failure)),
    }
}

} // verus!
