use vstd::prelude::*;

use crate::invocation::Invocation;
use crate::registry::{runtime_api_of, spawns_process, upsert_model, RequestCache};

verus! {

/// One event the scheduler loop can wake up on.
pub enum SchedulerEvent {
    /// A caller submitted an invocation for scheduling.
    Submission(Invocation),
    /// A function's process exited on its own; carries the function
    /// name to garbage-collect.
    FunctionExited(String),
    /// The global shutdown signal was triggered.
    ShutdownRequested,
}

/// What the loop driver must do after one event was handled.
pub enum SchedulerAction {
    /// Start a process supervisor task for a newly-seen function.
    SpawnFunction {
        /// Name of the function whose process must be started.
        function_name: String,
        /// The runtime-API address composed for that function.
        runtime_api: String,
    },
    /// Keep consuming events; nothing to start.
    Continue,
    /// Stop consuming events and return. Child processes are not killed
    /// here: every process supervisor watches the shutdown signal
    /// itself.
    Stop,
}

/// Handles one scheduler event against the invocation registry and says
/// what the loop driver must do next.
///
/// - A submission is upserted; when its function was previously unseen,
///   the returned action orders exactly one process spawn for it.
/// - A process-exit notification removes the function's registry entry,
///   so a later submission spawns a fresh process.
/// - A shutdown request orders the loop to stop and touches nothing:
///   registry cleanup is moot while the whole system tears down.
pub fn handle_event(cache: &mut RequestCache, event: SchedulerEvent) -> (action: SchedulerAction)
    requires
        old(cache).wf(),
    ensures
        final(cache).wf(),
        final(cache).addr() == old(cache).addr(),
        match event {
            SchedulerEvent::Submission(req) => {
                &&& final(cache)@ == upsert_model(old(cache)@, req@)
                &&& match action {
                    SchedulerAction::SpawnFunction { function_name, runtime_api } => spawns_process(
                        old(cache)@,
                        req@,
                    ) && function_name@ == req@.function_name && runtime_api@ == runtime_api_of(
                        old(cache).addr(),
                        req@.function_name,
                    ),
                    SchedulerAction::Continue => !spawns_process(old(cache)@, req@),
                    SchedulerAction::Stop => false,
                }
            },
            SchedulerEvent::FunctionExited(name) => {
                &&& final(cache)@ == old(cache)@.remove(name@)
                &&& action is Continue
            },
            SchedulerEvent::ShutdownRequested => {
                &&& final(cache)@ == old(cache)@
                &&& action is Stop
            },
        },
{
    match event {
        SchedulerEvent::Submission(req) => {
            match cache.upsert(req) {
                Some((function_name, runtime_api)) => SchedulerAction::SpawnFunction {
                    function_name,
                    runtime_api,
                },
                None => SchedulerAction::Continue,
            }
        },
        SchedulerEvent::FunctionExited(name) => {
            cache.clean(name.as_str());
            SchedulerAction::Continue
        },
        SchedulerEvent::ShutdownRequested => SchedulerAction::Stop,
    }
}

} // verus!
