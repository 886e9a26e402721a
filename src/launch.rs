use vstd::prelude::*;
use crate::store::{HandleStore, SupervisionState};

verus! {

/// Logical name under which the worker executable is bundled.
pub const WORKER_NAME: &'static str = "starscope-sidecar";

/// Environment variable through which the worker learns the application's
/// data directory.
pub const APP_DATA_DIR_VAR: &'static str = "TAURI_APP_DATA_DIR";

/// Why no worker is running after startup. Neither is fatal: the
/// application carries on without a worker.
pub enum LaunchFailure<R, S> {
    /// The bundled executable could not be located.
    WorkerResolutionFailed(R),
    /// The executable was found but the OS did not start it.
    WorkerSpawnFailed(S),
}

impl<R, S> LaunchFailure<R, S> {
    /// Short description of the failure, for the warning that reports it.
    pub fn summary(&self) -> (r: &'static str)
        ensures
            r@ == (match self {
                LaunchFailure::WorkerResolutionFailed(_) => "worker executable not found"@,
                LaunchFailure::WorkerSpawnFailed(_) => "worker failed to start"@,
            }),
    {
        match self {
            LaunchFailure::WorkerResolutionFailed(_) => "worker executable not found",
            LaunchFailure::WorkerSpawnFailed(_) => "worker failed to start",
        }
    }

    /// What a developer should do about it.
    pub fn remediation(&self) -> (r: &'static str)
        ensures
            r@ == "in a development tree, run './start-dev.sh'"@,
    {
        "in a development tree, run './start-dev.sh'"
    }
}

/// State and failure report once the spawn attempt returned `out`.
pub open spec fn spawn_settled<H, R, S>(out: Result<H, S>) -> (
    SupervisionState<H>,
    Option<LaunchFailure<R, S>>,
) {
    match out {
        Ok(h) => (SupervisionState::Running(h), None),
        Err(e) => (SupervisionState::Absent, Some(LaunchFailure::WorkerSpawnFailed(e))),
    }
}

/// State and failure report when the executable could not be resolved.
pub open spec fn resolution_failed<H, R, S>(e: R) -> (
    SupervisionState<H>,
    Option<LaunchFailure<R, S>>,
) {
    (SupervisionState::Absent, Some(LaunchFailure::WorkerResolutionFailed(e)))
}

/// Turns the result of a spawn attempt into the supervision state and the
/// failure to report: `Running` exactly when the spawn succeeded.
pub fn settle_spawn<H, R, S>(out: Result<H, S>) -> (r: (
    SupervisionState<H>,
    Option<LaunchFailure<R, S>>,
))
    ensures
        r == spawn_settled::<H, R, S>(out),
{
    match out {
        Ok(h) => (SupervisionState::Running(h), None),
        Err(e) => (SupervisionState::Absent, Some(LaunchFailure::WorkerSpawnFailed(e))),
    }
}

/// Launches the worker: given the result of resolving its executable, calls
/// `spawn` on the command when one was found, and degrades to `Absent` on
/// either failure. `spawn` is not called when resolution failed.
pub fn launch<C, H, R, S, F: FnOnce(C) -> Result<H, S>>(resolved: Result<C, R>, spawn: F) -> (r: (
    SupervisionState<H>,
    Option<LaunchFailure<R, S>>,
))
    requires
        forall|c: C| spawn.requires((c,)),
    ensures
        match resolved {
            Err(e) => r == resolution_failed::<H, R, S>(e),
            Ok(c) => exists|out: Result<H, S>|
                spawn.ensures((c,), out) && r == spawn_settled::<H, R, S>(out),
        },
        r.0 is Running <==> r.1 is None,
{
    match resolved {
        Err(e) => (SupervisionState::Absent, Some(LaunchFailure::WorkerResolutionFailed(e))),
        Ok(cmd) => {
            let out = spawn(cmd);
            settle_spawn(out)
        },
    }
}

/// Startup: launches the worker and installs the outcome as the store's
/// initial state. The store holds a handle exactly when the spawn
/// succeeded; otherwise the failure is returned for reporting.
pub fn start<C, H, R, S, F: FnOnce(C) -> Result<H, S>>(resolved: Result<C, R>, spawn: F) -> (r: (
    HandleStore<H>,
    Option<LaunchFailure<R, S>>,
))
    requires
        forall|c: C| spawn.requires((c,)),
    ensures
        match resolved {
            Err(e) => (r.0@, r.1) == resolution_failed::<H, R, S>(e),
            Ok(c) => exists|out: Result<H, S>|
                spawn.ensures((c,), out) && (r.0@, r.1) == spawn_settled::<H, R, S>(out),
        },
        r.0@ is Running <==> r.1 is None,
{
    let (state, failure) = launch(resolved, spawn);
    (HandleStore::install(state), failure)
}

} // verus!
