//! Convenient imports for common `temporal` usage.
//!
//! Import with `use temporal::prelude::*;`.
pub use crate::client::{
    Client, SignalWithStartWorkflowOptions, SignalWorkflowOptions, StartWorkflowOptions,
    UpdateWorkflowOptions, WorkflowExecutionResult, WorkflowIdConflictPolicy,
    WorkflowIdReusePolicy, WorkflowOptions, WorkflowUpdateResult,
};
pub use crate::decode::{DecodeError, SignalDecodeError};
pub use crate::worker::WorkerOptions;
pub use crate::workflow::{TimerOptions, TimerResult};
