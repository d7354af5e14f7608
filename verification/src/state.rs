//! Shared handler state.

use crate::config::Config;
use crate::workspace::pool::Pool;
use crate::workspace::Workspace;
use vstd::prelude::*;

verus! {

/// Shared handler state: the pool, which holds the configuration.
pub struct AppState {
    pub pool: Pool,
}

impl AppState {
    /// Whether the pool is well formed.
    pub open spec fn wf(self) -> bool {
        self.pool.wf()
    }

    /// A server with no workspace.
    pub fn new(config: Config) -> (r: Self)
        ensures
            r.wf(),
            r.pool@ == Map::<Seq<char>, Workspace>::empty(),
            r.pool.settings() == config,
    {
        AppState { pool: Pool::new(config) }
    }
}

} // verus!
