//! Worker configuration: defaults, builders and the reading of the
//! `TEMPORAL_*` environment variables.
use vstd::prelude::*;

use crate::text::{
    decimal, lemma_parse_decimal_roundtrip, parse_usize, parse_usize_result, parse_usize_spec,
    ParseUsizeError,
};

verus! {

/// Name of this package, the stem of the default build id.
pub const PACKAGE_NAME: &'static str = "temporal";

/// Namespace used when none is configured.
pub const DEFAULT_NAMESPACE: &'static str = "default";

/// Task queue used when none is configured.
pub const DEFAULT_TASK_QUEUE: &'static str = "default-task-queue";

/// Activity concurrency used when none is configured.
pub const DEFAULT_MAX_CONCURRENT_ACTIVITIES: usize = 16;

/// The default build id: the package name followed by `-dev`.
pub open spec fn default_build_id_spec() -> Seq<char> {
    PACKAGE_NAME@ + "-dev"@
}

/// Computes the default build id used when none is configured.
pub fn default_build_id() -> (r: String)
    ensures
        r@ == default_build_id_spec(),
        r@ == "temporal-dev"@,
{
    proof {
        reveal_strlit("temporal");
        reveal_strlit("-dev");
        reveal_strlit("temporal-dev");
        assert(default_build_id_spec() =~= "temporal-dev"@);
    }
    let mut r = PACKAGE_NAME.to_owned();
    r.append("-dev");
    r
}

/// Configuration for connecting and starting a Temporal worker.
#[derive(Debug, Clone)]
pub struct WorkerOptions {
    /// Temporal server URL, for example `http://localhost:7233`.
    pub temporal_address: String,
    /// Namespace to poll for workflow and activity tasks.
    pub namespace: String,
    /// Task queue this worker should poll.
    pub task_queue: String,
    /// Maximum number of concurrently outstanding activity tasks.
    pub max_concurrent_activities: usize,
    /// Build identifier used for worker versioning metadata.
    pub build_id: String,
}

/// The content of [`WorkerOptions`], with strings as character sequences.
pub struct WorkerOptionsView {
    pub temporal_address: Seq<char>,
    pub namespace: Seq<char>,
    pub task_queue: Seq<char>,
    pub max_concurrent_activities: nat,
    pub build_id: Seq<char>,
}

impl View for WorkerOptions {
    type V = WorkerOptionsView;

    open spec fn view(&self) -> WorkerOptionsView {
        WorkerOptionsView {
            temporal_address: self.temporal_address@,
            namespace: self.namespace@,
            task_queue: self.task_queue@,
            max_concurrent_activities: self.max_concurrent_activities as nat,
            build_id: self.build_id@,
        }
    }
}

impl WorkerOptionsView {
    /// The options that [`WorkerOptions::new`] builds for `temporal_address`.
    pub open spec fn defaults(temporal_address: Seq<char>) -> Self {
        WorkerOptionsView {
            temporal_address,
            namespace: DEFAULT_NAMESPACE@,
            task_queue: DEFAULT_TASK_QUEUE@,
            max_concurrent_activities: DEFAULT_MAX_CONCURRENT_ACTIVITIES as nat,
            build_id: default_build_id_spec(),
        }
    }

    pub open spec fn with_namespace(self, namespace: Seq<char>) -> Self {
        WorkerOptionsView { namespace, ..self }
    }

    pub open spec fn with_task_queue(self, task_queue: Seq<char>) -> Self {
        WorkerOptionsView { task_queue, ..self }
    }

    pub open spec fn with_max_concurrent_activities(self, max: nat) -> Self {
        WorkerOptionsView { max_concurrent_activities: max, ..self }
    }

    pub open spec fn with_build_id(self, build_id: Seq<char>) -> Self {
        WorkerOptionsView { build_id, ..self }
    }
}

/// The text of an optional setting.
pub open spec fn opt_text(value: Option<String>) -> Option<Seq<char>> {
    match value {
        Some(v) => Some(v@),
        None => None,
    }
}

/// The text of an optional setting, or `default` when it is absent.
pub open spec fn text_or(value: Option<Seq<char>>, default: Seq<char>) -> Seq<char> {
    match value {
        Some(v) => v,
        None => default,
    }
}

/// The options that the environment describes, once `TEMPORAL_ADDRESS` is
/// known and `TEMPORAL_MAX_CONCURRENT_ACTIVITIES`, when set, parses.
pub open spec fn env_options(
    temporal_address: Seq<char>,
    namespace: Option<Seq<char>>,
    task_queue: Option<Seq<char>>,
    max_concurrent_activities: Option<Seq<char>>,
    build_id: Option<Seq<char>>,
) -> WorkerOptionsView {
    WorkerOptionsView {
        temporal_address,
        namespace: text_or(namespace, DEFAULT_NAMESPACE@),
        task_queue: text_or(task_queue, DEFAULT_TASK_QUEUE@),
        max_concurrent_activities: match max_concurrent_activities {
            Some(v) => parse_usize_spec(v)->0,
            None => DEFAULT_MAX_CONCURRENT_ACTIVITIES as nat,
        },
        build_id: text_or(build_id, default_build_id_spec()),
    }
}

/// With only `TEMPORAL_ADDRESS` set, the environment describes exactly the
/// options that `WorkerOptions::new` builds for that address.
pub proof fn lemma_env_without_settings_is_new(temporal_address: Seq<char>)
    ensures
        env_options(temporal_address, None, None, None, None) == WorkerOptionsView::defaults(
            temporal_address,
        ),
{
}

/// Setting `TEMPORAL_MAX_CONCURRENT_ACTIVITIES` to the decimal rendering of
/// `n` is accepted and gives a limit of `n`.
pub proof fn lemma_env_max_from_decimal(
    temporal_address: Seq<char>,
    namespace: Option<Seq<char>>,
    task_queue: Option<Seq<char>>,
    n: usize,
    build_id: Option<Seq<char>>,
)
    ensures
        parse_usize_spec(decimal(n as nat)) is Some,
        env_options(
            temporal_address,
            namespace,
            task_queue,
            Some(decimal(n as nat)),
            build_id,
        ).max_concurrent_activities == n,
{
    lemma_parse_decimal_roundtrip(n);
}

/// Each setting of the environment decides its own field alone: an unset
/// setting gives that field's default, whatever the others hold, and a set
/// one gives its own text.
pub proof fn lemma_env_fields_are_independent(
    temporal_address: Seq<char>,
    namespace: Option<Seq<char>>,
    task_queue: Option<Seq<char>>,
    max_concurrent_activities: Option<Seq<char>>,
    build_id: Option<Seq<char>>,
)
    ensures
        ({
            let o = env_options(temporal_address, namespace, task_queue, max_concurrent_activities, build_id);
            &&& o.temporal_address == temporal_address
            &&& (namespace is None ==> o.namespace == "default"@)
            &&& (namespace matches Some(n) ==> o.namespace == n)
            &&& (task_queue is None ==> o.task_queue == "default-task-queue"@)
            &&& (task_queue matches Some(t) ==> o.task_queue == t)
            &&& (max_concurrent_activities is None ==> o.max_concurrent_activities == 16)
            &&& (max_concurrent_activities matches Some(m) ==> (parse_usize_result(m) is Ok
                ==> parse_usize_result(m) == Ok::<nat, ParseUsizeError>(o.max_concurrent_activities)))
            &&& (build_id is None ==> o.build_id == "temporal-dev"@)
            &&& (build_id matches Some(b) ==> o.build_id == b)
        }),
{
    reveal_strlit("temporal");
    reveal_strlit("-dev");
    reveal_strlit("temporal-dev");
    assert(default_build_id_spec() =~= "temporal-dev"@);
}

/// The defaults are namespace `default`, task queue `default-task-queue`,
/// 16 concurrent activities and build id `temporal-dev`, and each builder
/// changes its own field only.
pub proof fn lemma_defaults_and_builders(
    temporal_address: Seq<char>,
    o: WorkerOptionsView,
    text: Seq<char>,
    n: nat,
)
    ensures
        WorkerOptionsView::defaults(temporal_address).temporal_address == temporal_address,
        WorkerOptionsView::defaults(temporal_address).namespace == "default"@,
        WorkerOptionsView::defaults(temporal_address).task_queue == "default-task-queue"@,
        WorkerOptionsView::defaults(temporal_address).max_concurrent_activities == 16,
        WorkerOptionsView::defaults(temporal_address).build_id == "temporal-dev"@,
        o.with_namespace(text).namespace == text,
        o.with_namespace(text).temporal_address == o.temporal_address,
        o.with_namespace(text).task_queue == o.task_queue,
        o.with_namespace(text).max_concurrent_activities == o.max_concurrent_activities,
        o.with_namespace(text).build_id == o.build_id,
        o.with_task_queue(text).task_queue == text,
        o.with_task_queue(text).temporal_address == o.temporal_address,
        o.with_task_queue(text).namespace == o.namespace,
        o.with_task_queue(text).max_concurrent_activities == o.max_concurrent_activities,
        o.with_task_queue(text).build_id == o.build_id,
        o.with_max_concurrent_activities(n).max_concurrent_activities == n,
        o.with_max_concurrent_activities(n).temporal_address == o.temporal_address,
        o.with_max_concurrent_activities(n).namespace == o.namespace,
        o.with_max_concurrent_activities(n).task_queue == o.task_queue,
        o.with_max_concurrent_activities(n).build_id == o.build_id,
        o.with_build_id(text).build_id == text,
        o.with_build_id(text).temporal_address == o.temporal_address,
        o.with_build_id(text).namespace == o.namespace,
        o.with_build_id(text).task_queue == o.task_queue,
        o.with_build_id(text).max_concurrent_activities == o.max_concurrent_activities,
{
    reveal_strlit("temporal");
    reveal_strlit("-dev");
    reveal_strlit("temporal-dev");
    assert(default_build_id_spec() =~= "temporal-dev"@);
}

/// Why the environment does not describe a worker.
#[derive(Debug, Clone)]
pub enum WorkerOptionsError {
    /// `TEMPORAL_ADDRESS` is not set (or is not valid unicode).
    MissingAddress,
    /// `TEMPORAL_MAX_CONCURRENT_ACTIVITIES` is set to a value that is not a
    /// `usize`; `kind` says why.
    InvalidMaxConcurrentActivities { value: String, kind: ParseUsizeError },
}

impl WorkerOptionsError {
    /// The text of the error, as the worker reports it.
    pub open spec fn message_spec(&self) -> Seq<char> {
        match self {
            WorkerOptionsError::MissingAddress => "missing TEMPORAL_ADDRESS"@,
            WorkerOptionsError::InvalidMaxConcurrentActivities { value, .. } =>
                "failed to parse TEMPORAL_MAX_CONCURRENT_ACTIVITIES as usize: "@ + value@,
        }
    }

    /// The error texts: "missing TEMPORAL_ADDRESS", and "failed to parse
    /// TEMPORAL_MAX_CONCURRENT_ACTIVITIES as usize: " followed by the value.
    pub proof fn lemma_message_texts(self)
        ensures
            self is MissingAddress ==> self.message_spec() == "missing TEMPORAL_ADDRESS"@,
            self matches WorkerOptionsError::InvalidMaxConcurrentActivities { value, .. }
                ==> self.message_spec()
                == "failed to parse TEMPORAL_MAX_CONCURRENT_ACTIVITIES as usize: "@ + value@,
    {
    }

    /// Renders the error message.
    pub fn message(&self) -> (r: String)
        ensures
            r@ == self.message_spec(),
    {
        match self {
            WorkerOptionsError::MissingAddress => "missing TEMPORAL_ADDRESS".to_owned(),
            WorkerOptionsError::InvalidMaxConcurrentActivities { value, .. } => {
                let mut r = "failed to parse TEMPORAL_MAX_CONCURRENT_ACTIVITIES as usize: ".to_owned();
                r.append(value.as_str());
                r
            },
        }
    }
}

fn string_or(value: Option<String>, default: &str) -> (r: String)
    ensures
        r@ == text_or(opt_text(value), default@),
{
    match value {
        Some(v) => v,
        None => default.to_owned(),
    }
}

impl WorkerOptions {
    /// Creates worker options with the defaults: namespace `default`, task
    /// queue `default-task-queue`, 16 concurrent activities and the build id
    /// `<package-name>-dev`.
    pub fn new(temporal_address: &str) -> (r: Self)
        ensures
            r@ == WorkerOptionsView::defaults(temporal_address@),
            r.temporal_address@ == temporal_address@,
            r.namespace@ == "default"@,
            r.task_queue@ == "default-task-queue"@,
            r.max_concurrent_activities == 16,
            r.build_id@ == "temporal-dev"@,
    {
        WorkerOptions {
            temporal_address: temporal_address.to_owned(),
            namespace: DEFAULT_NAMESPACE.to_owned(),
            task_queue: DEFAULT_TASK_QUEUE.to_owned(),
            max_concurrent_activities: DEFAULT_MAX_CONCURRENT_ACTIVITIES,
            build_id: default_build_id(),
        }
    }

    /// Builds options from the values of the environment variables
    /// `TEMPORAL_ADDRESS` (required), `TEMPORAL_NAMESPACE`,
    /// `TEMPORAL_TASK_QUEUE`, `TEMPORAL_MAX_CONCURRENT_ACTIVITIES` and
    /// `TEMPORAL_BUILD_ID` (each `None` when unset); absent optional values
    /// take the defaults of [`WorkerOptions::new`].
    pub fn from_env_values(
        temporal_address: Option<String>,
        namespace: Option<String>,
        task_queue: Option<String>,
        max_concurrent_activities: Option<String>,
        build_id: Option<String>,
    ) -> (r: Result<Self, WorkerOptionsError>)
        ensures
            temporal_address is None ==> r == Err::<Self, WorkerOptionsError>(
                WorkerOptionsError::MissingAddress,
            ),
            temporal_address is Some && max_concurrent_activities is Some && parse_usize_spec(
                max_concurrent_activities->0@,
            ) is None ==> (r matches Err(WorkerOptionsError::InvalidMaxConcurrentActivities {
                value,
                kind,
            }) && value@ == max_concurrent_activities->0@ && parse_usize_result(value@)
                == Err::<nat, ParseUsizeError>(kind)),
            r is Ok <==> (temporal_address is Some && (max_concurrent_activities is Some
                ==> parse_usize_spec(max_concurrent_activities->0@) is Some)),
            r matches Ok(o) ==> o@ == env_options(
                temporal_address->0@,
                opt_text(namespace),
                opt_text(task_queue),
                opt_text(max_concurrent_activities),
                opt_text(build_id),
            ),
            r matches Ok(o) ==> {
                &&& o.temporal_address == temporal_address->0
                &&& (namespace matches Some(n) ==> o.namespace@ == n@)
                &&& (namespace is None ==> o.namespace@ == "default"@)
                &&& (task_queue matches Some(t) ==> o.task_queue@ == t@)
                &&& (task_queue is None ==> o.task_queue@ == "default-task-queue"@)
                &&& (max_concurrent_activities matches Some(m) ==> parse_usize_result(m@) == Ok::<
                    nat,
                    ParseUsizeError,
                >(o.max_concurrent_activities as nat))
                &&& (max_concurrent_activities is None ==> o.max_concurrent_activities == 16)
                &&& (build_id matches Some(b) ==> o.build_id@ == b@)
                &&& (build_id is None ==> o.build_id@ == "temporal-dev"@)
            },
    {
        proof {
            reveal_strlit("temporal");
            reveal_strlit("-dev");
            reveal_strlit("temporal-dev");
            assert(default_build_id_spec() =~= "temporal-dev"@);
        }
        let temporal_address = match temporal_address {
            Some(a) => a,
            None => return Err(WorkerOptionsError::MissingAddress),
        };
        let namespace = string_or(namespace, DEFAULT_NAMESPACE);
        let task_queue = string_or(task_queue, DEFAULT_TASK_QUEUE);
        let max_concurrent_activities = match max_concurrent_activities {
            Some(value) => match parse_usize(value.as_str()) {
                Ok(n) => n,
                Err(kind) => return Err(
                    WorkerOptionsError::InvalidMaxConcurrentActivities { value, kind },
                ),
            },
            None => DEFAULT_MAX_CONCURRENT_ACTIVITIES,
        };
        let build_id = match build_id {
            Some(b) => b,
            None => default_build_id(),
        };
        Ok(WorkerOptions { temporal_address, namespace, task_queue, max_concurrent_activities, build_id })
    }

    /// Sets the namespace.
    pub fn with_namespace(self, namespace: &str) -> (r: Self)
        ensures
            r@ == self@.with_namespace(namespace@),
            r.namespace@ == namespace@,
            r.temporal_address == self.temporal_address,
            r.task_queue == self.task_queue,
            r.max_concurrent_activities == self.max_concurrent_activities,
            r.build_id == self.build_id,
    {
        WorkerOptions { namespace: namespace.to_owned(), ..self }
    }

    /// Sets the task queue.
    pub fn with_task_queue(self, task_queue: &str) -> (r: Self)
        ensures
            r@ == self@.with_task_queue(task_queue@),
            r.task_queue@ == task_queue@,
            r.temporal_address == self.temporal_address,
            r.namespace == self.namespace,
            r.max_concurrent_activities == self.max_concurrent_activities,
            r.build_id == self.build_id,
    {
        WorkerOptions { task_queue: task_queue.to_owned(), ..self }
    }

    /// Sets the maximum number of concurrent activities.
    pub fn with_max_concurrent_activities(self, max: usize) -> (r: Self)
        ensures
            r@ == self@.with_max_concurrent_activities(max as nat),
            r.max_concurrent_activities == max,
            r.temporal_address == self.temporal_address,
            r.namespace == self.namespace,
            r.task_queue == self.task_queue,
            r.build_id == self.build_id,
    {
        WorkerOptions { max_concurrent_activities: max, ..self }
    }

    /// Sets the build id.
    pub fn with_build_id(self, build_id: &str) -> (r: Self)
        ensures
            r@ == self@.with_build_id(build_id@),
            r.build_id@ == build_id@,
            r.temporal_address == self.temporal_address,
            r.namespace == self.namespace,
            r.task_queue == self.task_queue,
            r.max_concurrent_activities == self.max_concurrent_activities,
    {
        WorkerOptions { build_id: build_id.to_owned(), ..self }
    }
}


/// Context of a `temporal_address` that is not a valid URL.
pub fn invalid_address_context(temporal_address: &str) -> (r: String)
    ensures
        r@ == "invalid temporal address: "@ + temporal_address@,
{
    let mut r = "invalid temporal address: ".to_owned();
    r.append(temporal_address);
    r
}

} // verus!
