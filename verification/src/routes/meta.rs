//! Server health.

use crate::state::AppState;
use crate::ENGINE_VERSION;
use vstd::prelude::*;

verus! {

/// Server liveness.
#[derive(Debug)]
pub struct Health {
    /// Always `"ok"` when the process is answering.
    pub status: &'static str,
    /// This server's version.
    pub version: &'static str,
    /// The engine release this server is built against.
    pub engine_version: &'static str,
    /// Seconds since process start.
    pub uptime_seconds: u64,
    /// Number of live workspaces in the pool.
    pub workspace_count: usize,
}

/// Answers a health check of a server of this version that has been up for this long.
pub fn health(state: &AppState, version: &'static str, uptime_seconds: u64) -> (r: Health)
    requires
        state.wf(),
    ensures
        r.status@ == "ok"@,
        r.version == version,
        r.engine_version@ == "0.11.0"@,
        r.uptime_seconds == uptime_seconds,
        r.workspace_count == state.pool@.len(),
{
    Health {
        status: "ok",
        version,
        engine_version: ENGINE_VERSION,
        uptime_seconds,
        workspace_count: state.pool.len(),
    }
}

/// A health check counts the workspaces that are live and repeats what it was told.
pub proof fn health_is_as_it_is(
    state: &AppState,
    version: &'static str,
    uptime_seconds: u64,
    r: Health,
)
    requires
        state.wf(),
        call_ensures(health, (state, version, uptime_seconds), r),
    ensures
        r.workspace_count == state.pool@.len(),
        r.uptime_seconds == uptime_seconds,
        r.version == version,
        r.engine_version@ == "0.11.0"@,
        r.status@ == "ok"@,
{
}

} // verus!
