//! Local invocation scheduler for an emulated serverless function runtime.
//!
//! The crate models the core of a developer-facing emulator: invocations
//! addressed to named functions are queued per function, a function's
//! process is started lazily on first use, and the response of an
//! invocation is handed back to the caller that is still waiting on it.
//!
//! - [`invocation`] is the record of one pending call and its model.
//! - [`assoc`] is the string-keyed map both registries are built on.
//! - [`queue`] holds the per-function FIFO queue of pending invocations.
//! - [`registry`] maps function names to their queues and decides when a
//!   new function process must be started.
//! - [`responses`] maps request identifiers to single-use completion
//!   handles.
//! - [`scheduler`] is the event-step function of the scheduler loop.
//! - [`supervisor`] composes the launch command and environment of a
//!   function process and decides the outcome of its exit/shutdown race.
//! - [`deploy`] holds the configuration types of the deployment command
//!   and their pure decision helpers.

pub mod assoc;
pub mod deploy;
pub mod invocation;
pub mod queue;
pub mod registry;
pub mod responses;
pub mod scheduler;
pub mod supervisor;

pub use invocation::Invocation;
pub use queue::RequestQueue;
pub use registry::RequestCache;
pub use responses::ResponseCache;
