//! Type-safe building blocks for Temporal workflows, activities, workers and
//! clients: the options, request shapes and response decoding that the
//! asynchronous layer drives.
//!
//! - [`worker`]: worker options, their defaults and the `TEMPORAL_*`
//!   environment variables.
//! - [`client`]: start / signal / signal-with-start / update options, the
//!   requests built from them, and the decoding of workflow and update results.
//! - [`workflow`]: timer options and results, signal and activity decoding.
//! - [`decode`]: the single-payload rule shared by all decoders.
//! - [`text`]: decimal rendering and parsing of counts.
pub mod client;
pub mod decode;
pub mod prelude;
pub mod text;
pub mod worker;
pub mod workflow;

pub use worker::WorkerOptions;
