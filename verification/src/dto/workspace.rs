//! A workspace as clients see it.

use crate::clock::Duration;
use crate::dto::file::{timestamp_of, unix_to_offset};
use crate::paths::presented;
use crate::workspace::{is_settled, EffectiveOptions, IndexState, Progress, Workspace};
use vstd::prelude::*;

verus! {

/// Readiness, as a single field a client can branch on.
#[derive(Debug, Clone, Copy, PartialEq, Eq, Structural)]
pub enum WorkspaceStatus {
    /// The background scan has not published an index yet. Poll.
    Initialising,
    /// Files are searchable, but the content index is still building, so fuzzy grep may see an
    /// incomplete picture, or the watcher is not yet up.
    Indexing,
    /// Fully built: searchable, content-indexed, and watching, where the workspace watches at all.
    Ready,
}

/// The status of an index, or of there being none. A workspace that is to watch its files is ready
/// only once it does.
pub open spec fn status_of(index: Option<IndexState>, watch: bool) -> WorkspaceStatus {
    if index is None {
        WorkspaceStatus::Initialising
    } else if is_settled(index) && (watch ==> index->0.is_watcher_ready) {
        WorkspaceStatus::Ready
    } else {
        WorkspaceStatus::Indexing
    }
}

/// A workspace as clients see it.
#[derive(Debug, Clone)]
pub struct WorkspaceResource {
    /// Stable identifier, derived from the directory's filesystem identity. Re-creating the same
    /// root, under any spelling and across server restarts, returns this same id.
    pub id: String,
    /// The resolved root, with any verbatim prefix stripped. Not an identity key.
    pub root: String,
    /// True when the root resolved to a share path. Reported for visibility only.
    pub is_network_path: bool,
    pub status: WorkspaceStatus,
    pub is_scanning: bool,
    /// The content index is built. Fuzzy grep needs this.
    pub is_warmup_complete: bool,
    pub is_watcher_ready: bool,
    /// Files currently in the index.
    pub indexed_files: usize,
    /// Files seen by the most recent scan.
    pub scanned_files_count: usize,
    pub has_git_repo: bool,
    /// Git worktree root, if one was discovered.
    pub git_root: Option<String>,
    /// Time since the Unix epoch.
    pub created_at: Duration,
    /// Observed time from construction until content indexing first completed. While the
    /// workspace is still warming, this is elapsed time so far.
    pub time_to_ready_ms: u64,
    /// Seconds since the Unix epoch.
    pub last_scan_at: i64,
    /// Effective automatic rescan interval, derived from `time_to_ready_ms`.
    pub rescan_interval_secs: u64,
    /// Effective idle-eviction timeout, derived from `time_to_ready_ms`.
    pub idle_timeout_secs: u64,
    /// The settings this workspace was actually built with.
    pub options: EffectiveOptions,
}

impl WorkspaceResource {
    /// The readiness fields.
    pub open spec fn progress(self) -> Progress {
        Progress {
            installed: self.status !is Initialising,
            scanned_files_count: self.scanned_files_count,
            is_scanning: self.is_scanning,
            is_watcher_ready: self.is_watcher_ready,
            is_warmup_complete: self.is_warmup_complete,
            indexed_files: self.indexed_files,
            has_git_repo: self.has_git_repo,
            git_root: self.git_root,
        }
    }

    /// What is said at `now` of a workspace whose index has just been looked at.
    pub open spec fn shows(self, ws: Workspace, index: Option<IndexState>, now: nat) -> bool {
        &&& self.id@ == ws.id@
        &&& self.root@ == ws.root.display@
        &&& self.is_network_path == ws.root.is_network
        &&& self.status == status_of(index, ws.options.watch)
        &&& self.progress().shows(index)
        &&& self.created_at == ws.created_at
        &&& self.time_to_ready_ms == (ws.cost(now) / 1_000_000) as u64
        &&& self.last_scan_at == timestamp_of(ws.last_scan_at_unix)
        &&& self.options == ws.options
    }

    /// Describes a workspace, looking at its index on the way.
    pub fn build(
        ws: &mut Workspace,
        index: &Option<IndexState>,
        rescan_interval_secs: u64,
        idle_timeout_secs: u64,
        now: Duration,
    ) -> (r: Self)
        ensures
            *final(ws) == old(ws).observed(is_settled(*index), now@),
            r.shows(*final(ws), *index, now@),
            r.rescan_interval_secs == rescan_interval_secs,
            r.idle_timeout_secs == idle_timeout_secs,
    {
        let p = ws.progress(index, now);
        let status = if !p.installed {
            WorkspaceStatus::Initialising
        } else if p.is_scanning || !p.is_warmup_complete || (ws.options.watch
            && !p.is_watcher_ready) {
            WorkspaceStatus::Indexing
        } else {
            WorkspaceStatus::Ready
        };
        let time_to_ready = ws.time_to_ready(index, now);
        WorkspaceResource {
            id: ws.id.clone(),
            root: ws.root.display.clone(),
            is_network_path: ws.root.is_network,
            status,
            is_scanning: p.is_scanning,
            is_warmup_complete: p.is_warmup_complete,
            is_watcher_ready: p.is_watcher_ready,
            indexed_files: p.indexed_files,
            scanned_files_count: p.scanned_files_count,
            has_git_repo: p.has_git_repo,
            git_root: p.git_root,
            created_at: ws.created_at,
            time_to_ready_ms: time_to_ready.as_millis() as u64,
            last_scan_at: unix_to_offset(ws.last_scan_at()),
            rescan_interval_secs,
            idle_timeout_secs,
            options: ws.options,
        }
    }
}

/// Listing response.
#[derive(Debug, Clone)]
pub struct WorkspaceList {
    pub workspaces: Vec<WorkspaceResource>,
}

/// The status a client branches on agrees with the fields it is made of: ready is searchable,
/// content-indexed and, where the workspace watches its files, watching.
pub proof fn the_status_sums_up_the_progress(index: Option<IndexState>, watch: bool, p: Progress)
    requires
        p.shows(index),
    ensures
        ({
            let status = status_of(index, watch);
            &&& status is Initialising <==> !p.installed
            &&& status is Ready <==> p.installed && !p.is_scanning && p.is_warmup_complete && (watch
                ==> p.is_watcher_ready)
            &&& status is Indexing <==> p.installed && (p.is_scanning || !p.is_warmup_complete || (
            watch && !p.is_watcher_ready))
        }),
{
}

/// A workspace is described as it is, each field by its own: its name, its root as displayed, its
/// settings and times, and what the engine says of its index. Its cost is in whole milliseconds.
pub proof fn workspaces_are_described_as_they_are(
    r: WorkspaceResource,
    ws: Workspace,
    index: Option<IndexState>,
    now: nat,
)
    requires
        r.shows(ws, index, now),
    ensures
        r.id@ == ws.id@,
        r.root@ == ws.root.display@,
        r.is_network_path == ws.root.is_network,
        r.created_at == ws.created_at,
        r.options == ws.options,
        ws.last_scan_at_unix <= 253_402_300_799 ==> r.last_scan_at == ws.last_scan_at_unix,
        ws.time_to_ready_ms > 0 ==> r.time_to_ready_ms == ws.time_to_ready_ms,
        ws.time_to_ready_ms == 0 && ws.origin@ <= now && (now - ws.origin@) / 1_000_000 <= u64::MAX
            ==> r.time_to_ready_ms * 1_000_000 <= now - ws.origin@ < (r.time_to_ready_ms + 1)
            * 1_000_000,
        index matches Some(s) ==> {
            &&& r.is_scanning == s.is_scanning
            &&& r.is_warmup_complete == s.is_warmup_complete
            &&& r.is_watcher_ready == s.is_watcher_ready
            &&& r.indexed_files == s.indexed_files
            &&& r.scanned_files_count == s.scanned_files_count
            &&& r.has_git_repo == s.has_git_repo
            &&& r.git_root is Some <==> s.git_root is Some
            &&& s.git_root matches Some(g) ==> r.git_root->0@ == presented(g@)
            &&& r.status is Ready <==> !s.is_scanning && s.is_warmup_complete && (
            ws.options.watch ==> s.is_watcher_ready)
            &&& r.status is Indexing <==> s.is_scanning || !s.is_warmup_complete || (
            ws.options.watch && !s.is_watcher_ready)
        },
        index is None ==> {
            &&& r.status is Initialising
            &&& !r.is_scanning
            &&& !r.is_warmup_complete
            &&& !r.is_watcher_ready
            &&& r.indexed_files == 0
            &&& r.scanned_files_count == 0
            &&& !r.has_git_repo
            &&& r.git_root is None
        },
{
    assert(ws.time_to_ready_ms > 0 ==> ws.cost(now) / 1_000_000 == ws.time_to_ready_ms);
}

} // verus!
