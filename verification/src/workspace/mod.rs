//! A live index over one root: what it was built with, and how its readiness is tracked.

use crate::clock::Duration;
use crate::config::{Config, Machine};
use crate::engine::{
    budget_of, cache_budget, default_git_recency, ContentCacheBudget, GitRecencyConfig, PickerMode,
};
use crate::error::{reported, ApiError, ApiResult, EngineError};
use crate::paths::{
    child, child_path, children_are_told_apart, present, presented, stable_id, stable_id_text,
    CanonicalRoot,
};
use vstd::prelude::*;

pub mod pool;

verus! {

/// Stands for the second of becoming ready while a scan or a content build is active.
pub const NOT_READY: u64 = u64::MAX;

/// How far creation should block before answering.
#[derive(Debug, Clone, Copy, PartialEq, Eq, Structural)]
pub enum WaitFor {
    /// Files are searchable. Fuzzy grep may still see an incomplete content index.
    Scan,
    /// The content index is built. Required for dependable fuzzy grep, and the watcher is
    /// installed only after this completes.
    Indexing,
    /// Live updates are flowing.
    Watcher,
}

impl Default for WaitFor {
    fn default() -> (r: Self)
        ensures
            r == WaitFor::Scan,
    {
        WaitFor::Scan
    }
}

/// Per-workspace options, all defaulting from the configuration.
#[derive(Debug, Clone, Default)]
pub struct CreateWorkspace {
    /// Path to index. Any spelling; it is canonicalised and deduplicated by filesystem identity.
    pub root: String,
    /// Changes frecency decay, modification-score thresholds and watcher event handling. Fixed
    /// for the workspace's life.
    pub ai_mode: Option<bool>,
    /// Builds the content index. Required for typo-resistant and fuzzy grep.
    pub content_indexing: Option<bool>,
    /// Background filesystem watcher.
    pub watch: Option<bool>,
    pub follow_symlinks: Option<bool>,
    /// Explicit content-cache budget. Omitted, the engine sizes it from the file count.
    pub cache_budget: Option<CacheBudget>,
    /// Ranking boost for files in recent commits on the current branch.
    pub git_recency: Option<GitRecency>,
    /// Overrides `create_block_ms` for this call.
    pub wait_for_index_ms: Option<u64>,
    /// Which readiness stage to block for.
    pub wait_for: WaitFor,
}

/// Caps of the content cache; 0 leaves a cap at its default.
#[derive(Debug, Clone, Copy)]
pub struct CacheBudget {
    pub max_files: usize,
    pub max_bytes: u64,
    pub max_file_size: u64,
}

/// What of the commit look-back to override.
#[derive(Debug, Clone, Copy)]
pub struct GitRecency {
    pub enabled: Option<bool>,
    /// Commits to look back over.
    pub max_commits: Option<usize>,
    /// Commits touching more files than this are ignored.
    pub max_files_per_commit: Option<usize>,
}

/// The settings a workspace was actually created with, echoed back so a client never has to guess
/// which defaults applied.
#[derive(Debug, Clone, Copy)]
pub struct EffectiveOptions {
    pub ai_mode: bool,
    pub content_indexing: bool,
    pub watch: bool,
    pub follow_symlinks: bool,
    pub git_recency_enabled: bool,
    pub git_recency_max_commits: usize,
    pub git_recency_max_files_per_commit: usize,
}

/// `value` where it is given, else `default`.
pub open spec fn or_default<T>(value: Option<T>, default: T) -> T {
    match value {
        Some(v) => v,
        None => default,
    }
}

/// The commit look-back a request asks for.
pub open spec fn git_recency_of(git: Option<GitRecency>) -> GitRecencyConfig {
    match git {
        Some(g) => GitRecencyConfig {
            enabled: or_default(g.enabled, true),
            max_commits: or_default(g.max_commits, 10),
            max_files_per_commit: or_default(g.max_files_per_commit, 50),
        },
        None => GitRecencyConfig { enabled: true, max_commits: 10, max_files_per_commit: 50 },
    }
}

/// The settings a request gives a workspace.
pub open spec fn options_of(req: CreateWorkspace, config: Config) -> EffectiveOptions {
    let git = git_recency_of(req.git_recency);
    EffectiveOptions {
        ai_mode: or_default(req.ai_mode, config.defaults.ai_mode),
        content_indexing: or_default(req.content_indexing, config.defaults.content_indexing),
        watch: or_default(req.watch, config.defaults.watch),
        follow_symlinks: or_default(req.follow_symlinks, config.defaults.follow_symlinks),
        git_recency_enabled: git.enabled,
        git_recency_max_commits: git.max_commits,
        git_recency_max_files_per_commit: git.max_files_per_commit,
    }
}

/// The content-cache budget a request asks for.
pub open spec fn cache_budget_of(req: CreateWorkspace) -> Option<ContentCacheBudget> {
    match req.cache_budget {
        Some(b) => budget_of(b.max_files, b.max_bytes, b.max_file_size),
        None => None,
    }
}

/// The database directory of the workspace with this id.
pub open spec fn db_dir_of(config: Config, id: Seq<char>, machine: Machine) -> Seq<char> {
    child_path(config.db_root_on(machine), id, machine.separator)
}

/// The database directory of the workspace with this id.
fn db_dir(config: &Config, id: &str, machine: &Machine) -> (r: String)
    ensures
        r@ == db_dir_of(*config, id@, *machine),
{
    child(config.db_root(machine).as_str(), id, machine.separator)
}

/// What the engine is told to build.
#[derive(Debug, Clone)]
pub struct BuildPlan {
    pub id: String,
    /// Where its databases go: a directory of the configured database root, named by the id.
    pub db_dir: String,
    /// The base path, with its verbatim prefix where it has one.
    pub base_path: String,
    pub options: EffectiveOptions,
    pub mode: PickerMode,
    /// Never: it is compiled out on some platforms, so it is not offered on any.
    pub mmap_cache: bool,
    pub git_recency: GitRecencyConfig,
    /// `None` leaves the budget to the engine.
    pub cache_budget: Option<ContentCacheBudget>,
    /// How long to block for the scan, and for what follows it.
    pub budget: Duration,
}

impl BuildPlan {
    /// Whether this is what a request asks to build over a root with this canonical path and this
    /// identity.
    pub open spec fn carries_out(
        self,
        req: CreateWorkspace,
        config: Config,
        canonical: Seq<char>,
        identity: Seq<char>,
        machine: Machine,
    ) -> bool {
        &&& self.id@ == stable_id_text(identity)
        &&& self.db_dir@ == db_dir_of(config, self.id@, machine)
        &&& self.base_path@ == canonical
        &&& self.options == options_of(req, config)
        &&& self.mode == if self.options.ai_mode {
            PickerMode::Ai
        } else {
            PickerMode::Neovim
        }
        &&& !self.mmap_cache
        &&& self.git_recency == git_recency_of(req.git_recency)
        &&& self.cache_budget == cache_budget_of(req)
    }
}

/// How long to wait for the stages that follow the scan; `None` is not at all.
#[derive(Debug, Clone, Copy)]
pub struct StageWaits {
    pub indexing: Option<Duration>,
    pub watcher: Option<Duration>,
}

/// How long to wait for the content index and for the watcher, in nanoseconds.
pub struct WaitsView {
    pub indexing: Option<nat>,
    pub watcher: Option<nat>,
}

impl StageWaits {
    /// Whether these are the waits.
    pub open spec fn shows(self, v: WaitsView) -> bool {
        &&& match (self.indexing, v.indexing) {
            (Some(d), Some(n)) => d@ == n,
            (None, None) => true,
            _ => false,
        }
        &&& match (self.watcher, v.watcher) {
            (Some(d), Some(n)) => d@ == n,
            (None, None) => true,
            _ => false,
        }
    }
}

/// The waits that follow a scan which took `spent` of the budget: none, all that is left for the
/// content index, or half of it for the content index and the other half for the watcher.
pub open spec fn waits_of(wait_for: WaitFor, budget: nat, spent: nat) -> WaitsView {
    let left = if spent <= budget {
        (budget - spent) as nat
    } else {
        0
    };
    match wait_for {
        WaitFor::Scan => WaitsView { indexing: None, watcher: None },
        WaitFor::Indexing => WaitsView { indexing: Some(left), watcher: None },
        WaitFor::Watcher => WaitsView {
            indexing: Some(left / 2),
            watcher: Some((left - left / 2) as nat),
        },
    }
}

/// What came of building.
#[derive(Debug)]
pub enum BuildOutcome {
    /// The database directory could not be made, for this reason.
    NoDatabase(String),
    /// The engine refused.
    Failed(EngineError),
    /// The picker runs.
    Built {
        /// The index when the waiting ended; `None` where none was published yet.
        index: Option<IndexState>,
        /// Time from the start of the scan to the end of the waiting.
        elapsed: Duration,
    },
}

/// When a workspace came to be, on three clocks.
#[derive(Debug, Clone, Copy)]
pub struct Birth {
    /// Start of the scan, on the server's monotonic clock.
    pub origin: Duration,
    /// Time since the Unix epoch.
    pub created_at: Duration,
    /// Seconds since the Unix epoch, as the time of the scan is reported.
    pub unix_now: u64,
}

/// Readiness snapshot. `installed: false` means the background scan has not yet published the
/// index, which is the state a client sees immediately after a 202.
#[derive(Debug, Clone)]
pub struct Progress {
    pub installed: bool,
    pub scanned_files_count: usize,
    pub is_scanning: bool,
    pub is_watcher_ready: bool,
    pub is_warmup_complete: bool,
    pub indexed_files: usize,
    pub has_git_repo: bool,
    pub git_root: Option<String>,
}

impl Default for Progress {
    fn default() -> (r: Self)
        ensures
            r.shows(None),
    {
        Progress {
            installed: false,
            scanned_files_count: 0,
            is_scanning: false,
            is_watcher_ready: false,
            is_warmup_complete: false,
            indexed_files: 0,
            has_git_repo: false,
            git_root: None,
        }
    }
}

/// What the engine says of an index it has published.
#[derive(Debug, Clone)]
pub struct IndexState {
    pub scanned_files_count: usize,
    pub is_scanning: bool,
    pub is_watcher_ready: bool,
    pub is_warmup_complete: bool,
    pub indexed_files: usize,
    pub has_git_repo: bool,
    /// The git worktree root as the engine spells it.
    pub git_root: Option<String>,
}

/// Whether an index is complete and at rest. One that is not published is not.
pub open spec fn is_settled(index: Option<IndexState>) -> bool {
    match index {
        Some(s) => !s.is_scanning && s.is_warmup_complete,
        None => false,
    }
}

/// Whether the content index is complete. One that is not published is not.
pub open spec fn is_warm(index: Option<IndexState>) -> bool {
    index matches Some(s) && s.is_warmup_complete
}

/// Whether an index has reached a stage: its files are searchable, its content index is built, or
/// live updates are flowing. One that is not published has reached none.
pub open spec fn has_reached(wait_for: WaitFor, index: Option<IndexState>) -> bool {
    match index {
        Some(s) => match wait_for {
            WaitFor::Scan => !s.is_scanning,
            WaitFor::Indexing => !s.is_scanning && s.is_warmup_complete,
            WaitFor::Watcher => s.is_watcher_ready,
        },
        None => false,
    }
}

impl Progress {
    /// What is said of an index, or of there being none.
    pub open spec fn shows(self, index: Option<IndexState>) -> bool {
        match index {
            Some(s) => {
                &&& self.installed
                &&& self.scanned_files_count == s.scanned_files_count
                &&& self.is_scanning == s.is_scanning
                &&& self.is_watcher_ready == s.is_watcher_ready
                &&& self.is_warmup_complete == s.is_warmup_complete
                &&& self.indexed_files == s.indexed_files
                &&& self.has_git_repo == s.has_git_repo
                &&& match s.git_root {
                    Some(g) => self.git_root matches Some(r) && r@ == presented(g@),
                    None => self.git_root is None,
                }
            },
            None => {
                &&& !self.installed
                &&& self.scanned_files_count == 0
                &&& !self.is_scanning
                &&& !self.is_watcher_ready
                &&& !self.is_warmup_complete
                &&& self.indexed_files == 0
                &&& !self.has_git_repo
                &&& self.git_root is None
            },
        }
    }

    /// Reports what the engine says of an index; the git root loses its verbatim prefix.
    pub fn of(index: &Option<IndexState>) -> (r: Self)
        ensures
            r.shows(*index),
    {
        match index {
            Some(s) => Progress {
                installed: true,
                scanned_files_count: s.scanned_files_count,
                is_scanning: s.is_scanning,
                is_watcher_ready: s.is_watcher_ready,
                is_warmup_complete: s.is_warmup_complete,
                indexed_files: s.indexed_files,
                has_git_repo: s.has_git_repo,
                git_root: match &s.git_root {
                    Some(g) => Some(present(g.as_str())),
                    None => None,
                },
            },
            None => Progress::default(),
        }
    }
}

/// A live index over one root.
#[derive(Debug, Clone)]
pub struct Workspace {
    pub id: String,
    pub identity: String,
    pub root: CanonicalRoot,
    pub options: EffectiveOptions,
    /// Where its databases are.
    pub db_dir: String,
    /// Time since the Unix epoch.
    pub created_at: Duration,
    /// Actual time until content indexing first completed. Zero while still warming.
    pub time_to_ready_ms: u64,
    /// Second of its life at which it was last used.
    pub last_touched: u64,
    /// Second of its life at which the current index most recently became ready. `NOT_READY` while
    /// a scan or post-scan content build is active.
    pub ready_since: u64,
    /// Wall clock, for reporting. Kept separately so a clock change cannot disturb the rescan
    /// schedule.
    pub last_scan_at_unix: u64,
    /// Start of its life, on the server's monotonic clock.
    pub origin: Duration,
}

/// The milliseconds of a span as they are recorded: at least one.
pub open spec fn recorded_millis(nanos: nat) -> u64 {
    let ms = nanos / 1_000_000;
    if ms < 1 {
        1
    } else {
        ms as u64
    }
}

impl Workspace {
    /// Nanoseconds of its life at `now`.
    pub open spec fn age(self, now: nat) -> nat {
        if self.origin@ <= now {
            (now - self.origin@) as nat
        } else {
            0
        }
    }

    /// Seconds of its life at `now`.
    pub open spec fn age_secs(self, now: nat) -> u64 {
        (self.age(now) / 1_000_000_000) as u64
    }

    /// The workspace once it has been used at `now`.
    pub open spec fn touched(self, now: nat) -> Workspace {
        Workspace { last_touched: self.age_secs(now), ..self }
    }

    /// The workspace once its index has been looked at: while the index is not settled there is
    /// no ready second; the first look that finds it settled records that second, and the first of
    /// all also records the cost.
    pub open spec fn observed(self, settled: bool, now: nat) -> Workspace {
        if !settled {
            Workspace { ready_since: NOT_READY, ..self }
        } else if self.ready_since == NOT_READY {
            Workspace {
                ready_since: self.age_secs(now),
                time_to_ready_ms: if self.time_to_ready_ms == 0 {
                    recorded_millis(self.age(now))
                } else {
                    self.time_to_ready_ms
                },
                ..self
            }
        } else {
            self
        }
    }

    /// The workspace once a scan has started.
    pub open spec fn scanning(self, unix_now: u64) -> Workspace {
        Workspace { ready_since: NOT_READY, last_scan_at_unix: unix_now, ..self }
    }

    /// The cost in nanoseconds: the recorded one, or its age so far while it is warming.
    pub open spec fn cost(self, now: nat) -> nat {
        if self.time_to_ready_ms == 0 {
            self.age(now)
        } else {
            (self.time_to_ready_ms * 1_000_000) as nat
        }
    }

    /// Nanoseconds since it was last used.
    pub open spec fn idle(self, now: nat) -> nat {
        let last = self.last_touched * 1_000_000_000;
        if last <= self.age(now) {
            (self.age(now) - last) as nat
        } else {
            0
        }
    }

    /// Whether the id is the one its identity gives, and the identity that of its root.
    pub open spec fn wf(self) -> bool {
        &&& self.identity@ == self.root.identity@
        &&& self.id@ == stable_id_text(self.root.identity@)
    }

    /// A workspace as it comes out of building: with a cost and a ready second only where the
    /// content index was complete when the waiting ended.
    pub open spec fn is_built(
        self,
        root: CanonicalRoot,
        req: CreateWorkspace,
        config: Config,
        index: Option<IndexState>,
        elapsed: nat,
        birth: Birth,
        machine: Machine,
    ) -> bool {
        let ms = (elapsed / 1_000_000) as u64;
        &&& self.wf()
        &&& self.root == root
        &&& self.db_dir@ == db_dir_of(config, self.id@, machine)
        &&& self.options == options_of(req, config)
        &&& self.created_at == birth.created_at
        &&& self.origin == birth.origin
        &&& self.last_touched == 0
        &&& self.last_scan_at_unix == birth.unix_now
        &&& self.time_to_ready_ms == if !is_warm(index) {
            0
        } else if ms < 1 {
            1
        } else {
            ms
        }
        &&& self.ready_since == if is_warm(index) {
            (elapsed / 1_000_000_000) as u64
        } else {
            NOT_READY
        }
    }

    /// Whether it is the same workspace as `other`, at whatever moment of its life.
    pub open spec fn is_still(self, other: Workspace) -> bool {
        &&& self.id == other.id
        &&& self.identity == other.identity
        &&& self.root == other.root
        &&& self.options == other.options
        &&& self.db_dir == other.db_dir
        &&& self.created_at == other.created_at
        &&& self.origin == other.origin
    }

    /// Time it has lived at `now`.
    fn elapsed(&self, now: Duration) -> (r: Duration)
        ensures
            r@ == self.age(now@),
    {
        now.saturating_sub(self.origin)
    }

    /// The settings a request gives a workspace.
    pub fn effective_options(req: &CreateWorkspace, config: &Config) -> (r: EffectiveOptions)
        ensures
            r == options_of(*req, *config),
            req.ai_mode is None ==> r.ai_mode == config.defaults.ai_mode,
            req.content_indexing is None ==> r.content_indexing == config.defaults.content_indexing,
            req.watch is None ==> r.watch == config.defaults.watch,
            req.follow_symlinks is None ==> r.follow_symlinks == config.defaults.follow_symlinks,
    {
        let mut git = default_git_recency();
        if let Some(g) = req.git_recency {
            if let Some(enabled) = g.enabled {
                git.enabled = enabled;
            }
            if let Some(max_commits) = g.max_commits {
                git.max_commits = max_commits;
            }
            if let Some(max_files) = g.max_files_per_commit {
                git.max_files_per_commit = max_files;
            }
        }
        let d = &config.defaults;
        EffectiveOptions {
            ai_mode: match req.ai_mode {
                Some(v) => v,
                None => d.ai_mode,
            },
            content_indexing: match req.content_indexing {
                Some(v) => v,
                None => d.content_indexing,
            },
            watch: match req.watch {
                Some(v) => v,
                None => d.watch,
            },
            follow_symlinks: match req.follow_symlinks {
                Some(v) => v,
                None => d.follow_symlinks,
            },
            git_recency_enabled: git.enabled,
            git_recency_max_commits: git.max_commits,
            git_recency_max_files_per_commit: git.max_files_per_commit,
        }
    }

    /// What the engine is to build for a root.
    pub fn plan(
        root: &CanonicalRoot,
        req: &CreateWorkspace,
        config: &Config,
        budget: Duration,
        machine: &Machine,
    ) -> (r: BuildPlan)
        ensures
            r.carries_out(*req, *config, root.canonical@, root.identity@, *machine),
            r.budget == budget,
    {
        let options = Workspace::effective_options(req, config);
        let id = stable_id(root.identity.as_str());
        BuildPlan {
            db_dir: db_dir(config, id.as_str(), machine),
            id,
            base_path: root.canonical.clone(),
            options,
            mode: if options.ai_mode {
                PickerMode::Ai
            } else {
                PickerMode::Neovim
            },
            mmap_cache: false,
            git_recency: GitRecencyConfig {
                enabled: options.git_recency_enabled,
                max_commits: options.git_recency_max_commits,
                max_files_per_commit: options.git_recency_max_files_per_commit,
            },
            cache_budget: match req.cache_budget {
                Some(b) => cache_budget(b.max_files, b.max_bytes, b.max_file_size),
                None => None,
            },
            budget,
        }
    }

    /// How long to wait after the scan, which took `spent` of the budget. The stages are
    /// sequential: the watcher is installed after the content index is built, so waiting for it
    /// splits what is left between the two.
    pub fn stage_waits(wait_for: WaitFor, budget: Duration, spent: Duration) -> (r: StageWaits)
        ensures
            r.shows(waits_of(wait_for, budget@, spent@)),
    {
        let remaining = budget.saturating_sub(spent);
        match wait_for {
            WaitFor::Scan => StageWaits { indexing: None, watcher: None },
            WaitFor::Indexing => StageWaits { indexing: Some(remaining), watcher: None },
            WaitFor::Watcher => {
                let half = remaining.half();
                StageWaits { indexing: Some(half), watcher: Some(remaining.saturating_sub(half)) }
            },
        }
    }

    /// Whether an index has reached the stage that a request asked to wait for.
    pub fn stage_reached(wait_for: WaitFor, index: &Option<IndexState>) -> (r: bool)
        ensures
            r == has_reached(wait_for, *index),
    {
        match index {
            Some(s) => match wait_for {
                WaitFor::Scan => !s.is_scanning,
                WaitFor::Indexing => !s.is_scanning && s.is_warmup_complete,
                WaitFor::Watcher => s.is_watcher_ready,
            },
            None => false,
        }
    }

    /// A copy to keep while the pool goes on.
    pub fn copy(&self) -> (r: Self)
        ensures
            r == *self,
    {
        Workspace {
            id: self.id.clone(),
            identity: self.identity.clone(),
            root: self.root.copy(),
            options: self.options,
            db_dir: self.db_dir.clone(),
            created_at: self.created_at,
            time_to_ready_ms: self.time_to_ready_ms,
            last_touched: self.last_touched,
            ready_since: self.ready_since,
            last_scan_at_unix: self.last_scan_at_unix,
            origin: self.origin,
        }
    }

    /// The workspace that building came to, or the error it failed with.
    pub fn create(
        root: CanonicalRoot,
        req: &CreateWorkspace,
        config: &Config,
        outcome: BuildOutcome,
        birth: Birth,
        machine: &Machine,
    ) -> (r: ApiResult<Self>)
        ensures
            match outcome {
                BuildOutcome::NoDatabase(why) => r matches Err(e) && e is Internal && e.message()
                    == "cannot create database directory for workspace: "@ + why@,
                BuildOutcome::Failed(err) => r matches Err(e) && e == reported(err),
                BuildOutcome::Built { index, elapsed } => r matches Ok(ws) && ws.is_built(
                    root,
                    *req,
                    *config,
                    index,
                    elapsed@,
                    birth,
                    *machine,
                ),
            },
    {
        let (index, elapsed) = match outcome {
            BuildOutcome::NoDatabase(why) => {
                let mut text = "cannot create database directory for workspace: ".to_owned();
                text.append(why.as_str());
                return Err(ApiError::Internal(text));
            },
            BuildOutcome::Failed(err) => return Err(ApiError::from(err)),
            BuildOutcome::Built { index, elapsed } => (index, elapsed),
        };
        let warmup_complete = match &index {
            Some(s) => s.is_warmup_complete,
            None => false,
        };
        let elapsed_ms: u64 = elapsed.as_millis() as u64;
        let id = stable_id(root.identity.as_str());
        Ok(
            Workspace {
                db_dir: db_dir(config, id.as_str(), machine),
                id,
                identity: root.identity.clone(),
                root,
                options: Workspace::effective_options(req, config),
                created_at: birth.created_at,
                time_to_ready_ms: if !warmup_complete {
                    0
                } else if elapsed_ms < 1 {
                    1
                } else {
                    elapsed_ms
                },
                last_touched: 0,
                ready_since: if warmup_complete {
                    elapsed.as_secs()
                } else {
                    NOT_READY
                },
                last_scan_at_unix: birth.unix_now,
                origin: birth.origin,
            },
        )
    }

    /// Wall-clock time of the most recent scan, for reporting.
    pub fn last_scan_at(&self) -> (r: u64)
        ensures
            r == self.last_scan_at_unix,
    {
        self.last_scan_at_unix
    }

    /// Marks the workspace as in use, deferring idle eviction.
    pub fn touch(&mut self, now: Duration)
        ensures
            *final(self) == old(self).touched(now@),
    {
        self.last_touched = self.elapsed(now).as_secs();
    }

    /// Time since it was last used.
    pub fn idle_for(&self, now: Duration) -> (r: Duration)
        ensures
            r@ == self.idle(now@),
    {
        self.elapsed(now).saturating_sub(Duration::from_secs(self.last_touched))
    }

    /// Actual initial warmup duration once known; elapsed time so far while warming. Looks at the
    /// index first.
    pub fn time_to_ready(&mut self, index: &Option<IndexState>, now: Duration) -> (r: Duration)
        ensures
            *final(self) == old(self).observed(is_settled(*index), now@),
            r@ == final(self).cost(now@),
    {
        let _ = self.progress(index, now);
        if self.time_to_ready_ms == 0 {
            self.elapsed(now)
        } else {
            Duration::from_millis(self.time_to_ready_ms)
        }
    }

    /// Notes that a scan has started.
    pub fn mark_scan_started(&mut self, unix_now: u64)
        ensures
            *final(self) == old(self).scanning(unix_now),
    {
        self.ready_since = NOT_READY;
        self.last_scan_at_unix = unix_now;
    }

    /// Whether the timer asks for a rescan.
    pub fn periodic_rescan_due(
        &mut self,
        index: &Option<IndexState>,
        interval: Duration,
        now: Duration,
    ) -> (r: bool)
        ensures
            *final(self) == old(self).observed(is_settled(*index), now@),
            r == (is_settled(*index) && is_due(
                final(self).ready_since,
                final(self).age_secs(now@),
                (interval@ / 1_000_000_000) as u64,
            )),
    {
        let progress = self.progress(index, now);
        rescan_is_due(
            &progress,
            self.ready_since,
            self.elapsed(now).as_secs(),
            interval.as_secs(),
        )
    }

    /// Whether the index is complete and at rest.
    pub fn ready_for_maintenance(&mut self, index: &Option<IndexState>, now: Duration) -> (r: bool)
        ensures
            *final(self) == old(self).observed(is_settled(*index), now@),
            r == is_settled(*index),
    {
        let progress = self.progress(index, now);
        ready_for_maintenance(&progress)
    }

    /// Whether an explicit rescan may be triggered. The precise tool: a client that knows it
    /// changed something should say so rather than wait for the timer.
    pub fn may_rescan(&mut self, index: &Option<IndexState>, now: Duration) -> (r: ApiResult<()>)
        ensures
            *final(self) == old(self).observed(is_settled(*index), now@),
            match r {
                Ok(_) => is_settled(*index),
                Err(e) => !is_settled(*index) && e is NotReady && e.message()
                    == "cannot rescan while scanning or content indexing is active"@,
            },
    {
        let progress = self.progress(index, now);
        if progress.is_scanning || !progress.is_warmup_complete {
            return Err(
                ApiError::NotReady(
                    "cannot rescan while scanning or content indexing is active".to_owned(),
                ),
            );
        }
        Ok(())
    }

    /// Notes what came of triggering a rescan: a scan has started, or the engine refused and
    /// nothing changes.
    pub fn rescan(&mut self, triggered: Result<(), EngineError>, unix_now: u64) -> (r: ApiResult<
        (),
    >)
        ensures
            match triggered {
                Ok(_) => r is Ok && *final(self) == old(self).scanning(unix_now),
                Err(err) => r == Err::<(), ApiError>(reported(err)) && *final(self) == *old(self),
            },
    {
        match triggered {
            Ok(_) => {
                self.mark_scan_started(unix_now);
                Ok(())
            },
            Err(err) => Err(ApiError::from(err)),
        }
    }

    /// What came of refreshing the git status: how many files changed, or the engine's refusal.
    pub fn refresh_git_status(outcome: Result<usize, EngineError>) -> (r: ApiResult<usize>)
        ensures
            match outcome {
                Ok(n) => r == Ok::<usize, ApiError>(n),
                Err(err) => r == Err::<usize, ApiError>(reported(err)),
            },
    {
        match outcome {
            Ok(n) => Ok(n),
            Err(err) => Err(ApiError::from(err)),
        }
    }

    /// Current readiness, as the engine gives it, noted as it is read.
    pub fn progress(&mut self, index: &Option<IndexState>, now: Duration) -> (r: Progress)
        ensures
            r.shows(*index),
            *final(self) == old(self).observed(is_settled(*index), now@),
    {
        let progress = Progress::of(index);
        self.observe_readiness(&progress, now);
        progress
    }

    fn observe_readiness(&mut self, progress: &Progress, now: Duration)
        ensures
            *final(self) == old(self).observed(
                !progress.is_scanning && progress.is_warmup_complete,
                now@,
            ),
    {
        if progress.is_scanning || !progress.is_warmup_complete {
            self.ready_since = NOT_READY;
            return;
        }
        if self.ready_since == NOT_READY {
            let elapsed = self.elapsed(now);
            self.ready_since = elapsed.as_secs();
            if self.time_to_ready_ms == 0 {
                let ms: u128 = elapsed.as_millis();
                self.time_to_ready_ms = if ms < 1 {
                    1
                } else {
                    ms as u64
                };
            }
        }
    }
}

/// Whether a full interval has passed since a recorded ready second.
pub open spec fn is_due(ready_since: u64, now_secs: u64, interval_secs: u64) -> bool {
    ready_since != NOT_READY && (if ready_since <= now_secs {
        now_secs - ready_since
    } else {
        0
    }) >= interval_secs
}

/// Whether a rescan is due: the index is at rest, and has been for a full interval.
pub fn rescan_is_due(
    progress: &Progress,
    ready_since: u64,
    now_secs: u64,
    interval_secs: u64,
) -> (r: bool)
    ensures
        r == (!progress.is_scanning && progress.is_warmup_complete && is_due(
            ready_since,
            now_secs,
            interval_secs,
        )),
{
    ready_for_maintenance(progress) && ready_since != NOT_READY && now_secs.saturating_sub(
        ready_since,
    ) >= interval_secs
}

/// Whether an index is complete and at rest.
pub fn ready_for_maintenance(progress: &Progress) -> (r: bool)
    ensures
        r == (!progress.is_scanning && progress.is_warmup_complete),
{
    !progress.is_scanning && progress.is_warmup_complete
}

// ---------------------------------------------------------------------------------------------
// What holds of every workspace.
// ---------------------------------------------------------------------------------------------

/// Creation never blocks for longer than its budget: where the scan kept to it, so do the waits
/// that follow, and where it did not there is no further wait.
pub proof fn waits_keep_to_the_budget(wait_for: WaitFor, budget: nat, spent: nat)
    ensures
        ({
            let w = waits_of(wait_for, budget, spent);
            let total = or_default(w.indexing, 0) + or_default(w.watcher, 0);
            &&& spent <= budget ==> spent + total <= budget
            &&& spent >= budget ==> total == 0
        }),
{
}

/// Each workspace has a database directory of its own: different ids never share one.
pub proof fn database_directories_are_not_shared(
    config: Config,
    a: Seq<char>,
    b: Seq<char>,
    machine: Machine,
)
    requires
        a != b,
    ensures
        db_dir_of(config, a, machine) != db_dir_of(config, b, machine),
{
    if db_dir_of(config, a, machine) == db_dir_of(config, b, machine) {
        children_are_told_apart(config.db_root_on(machine), a, b, machine.separator);
    }
}

/// A later stage is not reached before an earlier one: where the content index is built, the scan
/// is over.
pub proof fn stages_come_in_order(index: Option<IndexState>)
    ensures
        has_reached(WaitFor::Indexing, index) ==> has_reached(WaitFor::Scan, index),
        has_reached(WaitFor::Indexing, index) <==> is_settled(index),
{
}

/// Looking at an index twice at one moment is the same as looking once.
pub proof fn observing_twice_is_observing_once(w: Workspace, settled: bool, now: nat)
    ensures
        w.observed(settled, now).observed(settled, now) == w.observed(settled, now),
{
}

/// The measured cost is recorded once and then kept, whatever is observed, used or rescanned.
pub proof fn the_cost_is_recorded_once(w: Workspace, settled: bool, now: nat, unix_now: u64)
    ensures
        w.time_to_ready_ms != 0 ==> w.observed(settled, now).time_to_ready_ms == w.time_to_ready_ms,
        w.touched(now).time_to_ready_ms == w.time_to_ready_ms,
        w.scanning(unix_now).time_to_ready_ms == w.time_to_ready_ms,
        !settled ==> w.observed(settled, now).time_to_ready_ms == w.time_to_ready_ms,
{
}

/// Once an index has been seen settled its cost is known, and is no longer its age so far.
pub proof fn a_settled_index_has_a_cost(w: Workspace, now: nat)
    requires
        w.time_to_ready_ms != 0 || w.ready_since == NOT_READY,
        w.age(now) / 1_000_000 <= u64::MAX,
    ensures
        w.observed(true, now).time_to_ready_ms >= 1,
{
}

/// A workspace keeps its name, its root and its settings, whatever happens to it.
pub proof fn what_never_changes(w: Workspace, settled: bool, now: nat, unix_now: u64)
    ensures
        w.observed(settled, now).is_still(w),
        w.touched(now).is_still(w),
        w.scanning(unix_now).is_still(w),
{
}

/// A periodic rescan waits for the index to be seen settled, and then for a full interval.
pub proof fn rescans_wait_a_full_interval(
    w: Workspace,
    first_settled: nat,
    now: nat,
    interval_secs: u64,
)
    requires
        w.ready_since == NOT_READY,
        first_settled <= now < Duration::limit(),
    ensures
        ({
            let seen = w.observed(true, first_settled).observed(true, now);
            is_due(seen.ready_since, seen.age_secs(now), interval_secs) && w.age_secs(first_settled)
                != NOT_READY ==> w.age_secs(now) - w.age_secs(first_settled) >= interval_secs
        }),
        !is_due(w.ready_since, w.age_secs(now), interval_secs),
{
    assert(w.age(first_settled) <= w.age(now));
}

/// Once a rescan has started none is due until the index has been seen settled again.
pub proof fn no_rescan_during_a_rescan(w: Workspace, unix_now: u64, now: nat, interval_secs: u64)
    ensures
        ({
            let busy = w.scanning(unix_now).observed(false, now);
            !is_due(busy.ready_since, busy.age_secs(now), interval_secs)
        }),
{
}

/// Using a workspace makes it idle for less than a second, and it is then idle for as long as it
/// is not used.
pub proof fn use_ends_idleness(w: Workspace, used: nat, now: nat)
    requires
        used <= now < Duration::limit(),
    ensures
        w.touched(used).idle(used) < 1_000_000_000,
        w.touched(used).idle(now) >= w.age(now) - w.age(used),
        w.touched(used).idle(now) < w.age(now) - w.age(used) + 1_000_000_000,
{
    assert(w.age(used) / 1_000_000_000 <= u64::MAX);
    assert(w.touched(used).age(now) == w.age(now));
}

// ---------------------------------------------------------------------------------------------
// What a request asks for is what is built.
// ---------------------------------------------------------------------------------------------

/// An option that a request gives is taken as it is given, and one that it leaves out takes the
/// configured default of that same option. The commit look-back is overridden field by field, and
/// what is left is on, over ten commits of at most fifty files.
pub proof fn options_default_each_to_their_own(
    req: CreateWorkspace,
    config: Config,
    o: EffectiveOptions,
)
    requires
        o == options_of(req, config),
    ensures
        req.ai_mode matches Some(v) ==> o.ai_mode == v,
        req.ai_mode is None ==> o.ai_mode == config.defaults.ai_mode,
        req.content_indexing matches Some(v) ==> o.content_indexing == v,
        req.content_indexing is None ==> o.content_indexing == config.defaults.content_indexing,
        req.watch matches Some(v) ==> o.watch == v,
        req.watch is None ==> o.watch == config.defaults.watch,
        req.follow_symlinks matches Some(v) ==> o.follow_symlinks == v,
        req.follow_symlinks is None ==> o.follow_symlinks == config.defaults.follow_symlinks,
        req.git_recency is None ==> o.git_recency_enabled && o.git_recency_max_commits == 10
            && o.git_recency_max_files_per_commit == 50,
        req.git_recency matches Some(g) ==> {
            &&& g.enabled matches Some(v) ==> o.git_recency_enabled == v
            &&& g.enabled is None ==> o.git_recency_enabled
            &&& g.max_commits matches Some(n) ==> o.git_recency_max_commits == n
            &&& g.max_commits is None ==> o.git_recency_max_commits == 10
            &&& g.max_files_per_commit matches Some(n) ==> o.git_recency_max_files_per_commit == n
            &&& g.max_files_per_commit is None ==> o.git_recency_max_files_per_commit == 50
        },
{
}

/// Changing one configured default changes no other option: two configurations that agree on an
/// option's default give a request the same value of it, whatever else they differ in.
pub proof fn defaults_do_not_affect_each_other(req: CreateWorkspace, a: Config, b: Config)
    ensures
        a.defaults.ai_mode == b.defaults.ai_mode ==> options_of(req, a).ai_mode == options_of(
            req,
            b,
        ).ai_mode,
        a.defaults.content_indexing == b.defaults.content_indexing ==> options_of(
            req,
            a,
        ).content_indexing == options_of(req, b).content_indexing,
        a.defaults.watch == b.defaults.watch ==> options_of(req, a).watch == options_of(
            req,
            b,
        ).watch,
        a.defaults.follow_symlinks == b.defaults.follow_symlinks ==> options_of(
            req,
            a,
        ).follow_symlinks == options_of(req, b).follow_symlinks,
        options_of(req, a).git_recency_enabled == options_of(req, b).git_recency_enabled,
        options_of(req, a).git_recency_max_commits == options_of(req, b).git_recency_max_commits,
        options_of(req, a).git_recency_max_files_per_commit == options_of(
            req,
            b,
        ).git_recency_max_files_per_commit,
{
}

/// What is built is what the request asks for: over the canonical path, with the options as they
/// are reported and the picker mode that goes with them, with the commit look-back of the options,
/// without a memory-mapped cache, and with a content-cache budget exactly where some cap is given.
/// A cap that is not 0 is kept as it is.
pub proof fn workspaces_are_built_as_they_are_asked_for(
    p: BuildPlan,
    req: CreateWorkspace,
    config: Config,
    canonical: Seq<char>,
    identity: Seq<char>,
    machine: Machine,
)
    requires
        p.carries_out(req, config, canonical, identity, machine),
    ensures
        p.base_path@ == canonical,
        p.id@ == stable_id_text(identity),
        p.db_dir@ == db_dir_of(config, stable_id_text(identity), machine),
        req.ai_mode matches Some(v) ==> p.options.ai_mode == v,
        req.ai_mode is None ==> p.options.ai_mode == config.defaults.ai_mode,
        req.content_indexing matches Some(v) ==> p.options.content_indexing == v,
        req.content_indexing is None ==> p.options.content_indexing
            == config.defaults.content_indexing,
        req.watch matches Some(v) ==> p.options.watch == v,
        req.watch is None ==> p.options.watch == config.defaults.watch,
        req.follow_symlinks matches Some(v) ==> p.options.follow_symlinks == v,
        req.follow_symlinks is None ==> p.options.follow_symlinks
            == config.defaults.follow_symlinks,
        p.options.ai_mode ==> p.mode == PickerMode::Ai,
        !p.options.ai_mode ==> p.mode == PickerMode::Neovim,
        p.git_recency.enabled == p.options.git_recency_enabled,
        p.git_recency.max_commits == p.options.git_recency_max_commits,
        p.git_recency.max_files_per_commit == p.options.git_recency_max_files_per_commit,
        !p.mmap_cache,
        p.cache_budget is Some <==> (req.cache_budget matches Some(b) && (b.max_files > 0
            || b.max_bytes > 0 || b.max_file_size > 0)),
        req.cache_budget matches Some(b) ==> (p.cache_budget matches Some(c) ==> {
            &&& b.max_files > 0 ==> c.max_files == b.max_files
            &&& b.max_files == 0 ==> c.max_files == 10_000
            &&& b.max_bytes > 0 ==> c.max_bytes == b.max_bytes
            &&& b.max_bytes == 0 ==> c.max_bytes == 256 * 1024 * 1024
            &&& b.max_file_size > 0 ==> c.max_file_size == b.max_file_size
            &&& b.max_file_size == 0 ==> c.max_file_size == 10 * 1024 * 1024
        }),
{
}

/// Each stage is waited for with what the scan left of the budget: nothing after a scan alone, all
/// of it for the content index, and two halves of it, the odd nanosecond going to the second, for
/// the content index and the watcher.
pub proof fn waits_use_what_is_left(budget: nat, spent: nat)
    requires
        spent <= budget,
    ensures
        waits_of(WaitFor::Scan, budget, spent).indexing is None,
        waits_of(WaitFor::Scan, budget, spent).watcher is None,
        waits_of(WaitFor::Indexing, budget, spent).indexing matches Some(n) && spent + n == budget,
        waits_of(WaitFor::Indexing, budget, spent).watcher is None,
        waits_of(WaitFor::Watcher, budget, spent).indexing matches Some(n) && (waits_of(
            WaitFor::Watcher,
            budget,
            spent,
        ).watcher matches Some(m) && spent + n + m == budget && n <= m <= n + 1),
{
}

/// Where the scan took more than the budget, the stages that follow are still looked at, but not
/// waited for.
pub proof fn an_overspent_budget_leaves_no_wait(budget: nat, spent: nat)
    requires
        spent >= budget,
    ensures
        waits_of(WaitFor::Scan, budget, spent).indexing is None,
        waits_of(WaitFor::Scan, budget, spent).watcher is None,
        waits_of(WaitFor::Indexing, budget, spent).indexing == Some(0nat),
        waits_of(WaitFor::Indexing, budget, spent).watcher is None,
        waits_of(WaitFor::Watcher, budget, spent).indexing == Some(0nat),
        waits_of(WaitFor::Watcher, budget, spent).watcher == Some(0nat),
{
}

/// The waits that are reported are the waits that were worked out.
pub proof fn waits_are_told_exactly(s: StageWaits, v: WaitsView)
    requires
        s.shows(v),
    ensures
        s.indexing is Some <==> v.indexing is Some,
        s.watcher is Some <==> v.watcher is Some,
        s.indexing matches Some(d) ==> d@ == v.indexing->0,
        s.watcher matches Some(d) ==> d@ == v.watcher->0,
{
}

/// What each stage takes: a published index that is not being scanned, one whose content index is
/// complete as well, or one whose watcher runs. Without a published index no stage is reached.
pub proof fn stages_are_reached_by_what_the_engine_says(s: IndexState)
    ensures
        has_reached(WaitFor::Scan, Some(s)) <==> !s.is_scanning,
        has_reached(WaitFor::Indexing, Some(s)) <==> !s.is_scanning && s.is_warmup_complete,
        has_reached(WaitFor::Watcher, Some(s)) <==> s.is_watcher_ready,
        !has_reached(WaitFor::Scan, None),
        !has_reached(WaitFor::Indexing, None),
        !has_reached(WaitFor::Watcher, None),
        is_settled(Some(s)) <==> !s.is_scanning && s.is_warmup_complete,
        !is_settled(None),
        is_warm(Some(s)) <==> s.is_warmup_complete,
        !is_warm(None),
{
}

/// Readiness is reported as the engine gives it, each field in its own place; an index that is not
/// published is reported as nothing at all.
pub proof fn progress_is_what_the_engine_says(p: Progress, index: Option<IndexState>)
    requires
        p.shows(index),
    ensures
        p.installed <==> index is Some,
        index matches Some(s) ==> {
            &&& p.scanned_files_count == s.scanned_files_count
            &&& p.indexed_files == s.indexed_files
            &&& p.is_scanning == s.is_scanning
            &&& p.is_watcher_ready == s.is_watcher_ready
            &&& p.is_warmup_complete == s.is_warmup_complete
            &&& p.has_git_repo == s.has_git_repo
            &&& p.git_root is Some <==> s.git_root is Some
            &&& s.git_root matches Some(g) ==> p.git_root->0@ == presented(g@)
        },
        index is None ==> {
            &&& p.scanned_files_count == 0
            &&& p.indexed_files == 0
            &&& !p.is_scanning
            &&& !p.is_watcher_ready
            &&& !p.is_warmup_complete
            &&& !p.has_git_repo
            &&& p.git_root is None
        },
{
}

/// A workspace comes out of building with its root, its settings and its times as they were handed
/// in. It has a cost and a ready second exactly where its content index was complete: the time the
/// building took, in milliseconds but at least one, and in seconds.
pub proof fn a_new_workspace_is_what_was_built(
    w: Workspace,
    root: CanonicalRoot,
    req: CreateWorkspace,
    config: Config,
    index: Option<IndexState>,
    elapsed: nat,
    birth: Birth,
    machine: Machine,
)
    requires
        w.is_built(root, req, config, index, elapsed, birth, machine),
        elapsed < Duration::limit(),
    ensures
        w.root == root,
        w.identity@ == root.identity@,
        w.id@ == stable_id_text(root.identity@),
        w.db_dir@ == db_dir_of(config, stable_id_text(root.identity@), machine),
        w.created_at == birth.created_at,
        w.origin == birth.origin,
        w.last_scan_at_unix == birth.unix_now,
        w.last_touched == 0,
        w.options == options_of(req, config),
        !(index matches Some(s) && s.is_warmup_complete) ==> w.time_to_ready_ms == 0
            && w.ready_since == NOT_READY,
        (index matches Some(s) && s.is_warmup_complete) ==> {
            &&& w.time_to_ready_ms >= 1
            &&& w.ready_since * 1_000_000_000 <= elapsed < (w.ready_since + 1) * 1_000_000_000
            &&& 1_000_000 <= elapsed && elapsed / 1_000_000 <= u64::MAX ==> w.time_to_ready_ms
                * 1_000_000 <= elapsed < (w.time_to_ready_ms + 1) * 1_000_000
            &&& elapsed < 1_000_000 ==> w.time_to_ready_ms == 1
        },
{
}

/// Using a workspace changes when it was last used, to the second of its life that the use falls
/// in, and nothing else. A use before its life is one at its beginning.
pub proof fn a_use_is_recorded_to_the_second(w: Workspace, now: nat)
    requires
        now < Duration::limit(),
    ensures
        w.origin@ <= now ==> w.touched(now).last_touched * 1_000_000_000 <= now - w.origin@ < (
        w.touched(now).last_touched + 1) * 1_000_000_000,
        w.origin@ > now ==> w.touched(now).last_touched == 0,
        w.touched(now).ready_since == w.ready_since,
        w.touched(now).last_scan_at_unix == w.last_scan_at_unix,
        w.touched(now).time_to_ready_ms == w.time_to_ready_ms,
{
}

/// Looking at an index that is not settled takes the ready second away. The first look that finds
/// it settled records that very second of the workspace's life, and every later one keeps it. The
/// first of all records the cost, which is the life so far in milliseconds, and at least one.
pub proof fn readiness_is_recorded_when_it_is_seen(w: Workspace, now: nat)
    requires
        w.origin@ <= now < Duration::limit(),
    ensures
        w.observed(false, now).ready_since == NOT_READY,
        w.ready_since != NOT_READY ==> w.observed(true, now).ready_since == w.ready_since,
        w.ready_since == NOT_READY ==> w.observed(true, now).ready_since * 1_000_000_000 <= now
            - w.origin@ < (w.observed(true, now).ready_since + 1) * 1_000_000_000,
        w.ready_since == NOT_READY && w.time_to_ready_ms == 0 && 1_000_000 <= now - w.origin@ && (
        now - w.origin@) / 1_000_000 <= u64::MAX ==> w.observed(true, now).time_to_ready_ms
            * 1_000_000 <= now - w.origin@ < (w.observed(true, now).time_to_ready_ms + 1)
            * 1_000_000,
        w.ready_since == NOT_READY && w.time_to_ready_ms == 0 && now - w.origin@ < 1_000_000
            ==> w.observed(true, now).time_to_ready_ms == 1,
        w.observed(true, now).last_touched == w.last_touched,
        w.observed(false, now).last_touched == w.last_touched,
        w.observed(true, now).last_scan_at_unix == w.last_scan_at_unix,
        w.observed(false, now).last_scan_at_unix == w.last_scan_at_unix,
{
}

/// Starting a scan takes the ready second away and records the time of the scan, and nothing else.
pub proof fn a_scan_is_recorded(w: Workspace, unix_now: u64)
    ensures
        w.scanning(unix_now).ready_since == NOT_READY,
        w.scanning(unix_now).last_scan_at_unix == unix_now,
        w.scanning(unix_now).last_touched == w.last_touched,
        w.scanning(unix_now).time_to_ready_ms == w.time_to_ready_ms,
{
}

/// The cost of a workspace is the recorded one, in milliseconds; while it is warming there is none
/// yet, and its life so far stands in for it.
pub proof fn the_cost_is_the_measured_one(w: Workspace, now: nat)
    ensures
        w.time_to_ready_ms > 0 ==> w.cost(now) == w.time_to_ready_ms * 1_000_000,
        w.time_to_ready_ms == 0 && w.origin@ <= now ==> w.cost(now) == now - w.origin@,
        w.time_to_ready_ms == 0 && w.origin@ > now ==> w.cost(now) == 0,
{
}

/// A workspace is idle for the time since the second it was last used in.
pub proof fn idleness_is_the_time_since_the_last_use(w: Workspace, now: nat)
    ensures
        w.origin@ + w.last_touched * 1_000_000_000 <= now ==> w.origin@ + w.last_touched
            * 1_000_000_000 + w.idle(now) == now,
        w.origin@ + w.last_touched * 1_000_000_000 > now ==> w.idle(now) == 0,
{
}

/// A rescan is due from the second on that is a full interval after the ready second, and not
/// before; without a ready second none is.
pub proof fn rescans_are_due_after_the_interval(ready_since: u64, now_secs: u64, interval: u64)
    ensures
        ready_since == u64::MAX ==> !is_due(ready_since, now_secs, interval),
        ready_since < u64::MAX && interval > 0 ==> (is_due(ready_since, now_secs, interval)
            <==> ready_since + interval <= now_secs),
        ready_since < u64::MAX && interval == 0 ==> is_due(ready_since, now_secs, interval),
{
}

/// The databases of a workspace are in a directory of the database root that has the workspace's
/// id for its name.
pub proof fn databases_are_filed_by_id(config: Config, id: Seq<char>, machine: Machine)
    ensures
        ({
            let root = config.db_root_on(machine);
            let sep = machine.separator;
            &&& root.len() > 0 && root.last() != sep ==> db_dir_of(config, id, machine) == root
                + seq![sep] + id
            &&& root.len() > 0 && root.last() == sep ==> db_dir_of(config, id, machine) == root
                + id
        }),
{
}

// ---------------------------------------------------------------------------------------------
// What each operation does to a workspace.
// ---------------------------------------------------------------------------------------------

/// A use, a scan that starts and a look at the index each change what they are about and leave the
/// rest of a workspace as it is.
pub proof fn operations_change_what_they_are_about(
    now: Duration,
    unix_now: u64,
    index: &Option<IndexState>,
)
    ensures
        forall|w: &mut Workspace| #[trigger]
            call_ensures(Workspace::touch, (w, now), ()) ==> {
                &&& final(w).is_still(*w)
                &&& final(w).ready_since == w.ready_since
                &&& final(w).time_to_ready_ms == w.time_to_ready_ms
                &&& final(w).last_scan_at_unix == w.last_scan_at_unix
                &&& w.origin@ <= now@ < Duration::limit() ==> final(w).last_touched
                    * 1_000_000_000 <= now@ - w.origin@ < (final(w).last_touched + 1)
                    * 1_000_000_000
            },
        forall|w: &mut Workspace| #[trigger]
            call_ensures(Workspace::mark_scan_started, (w, unix_now), ()) ==> {
                &&& final(w).is_still(*w)
                &&& final(w).ready_since == u64::MAX
                &&& final(w).last_scan_at_unix == unix_now
                &&& final(w).last_touched == w.last_touched
                &&& final(w).time_to_ready_ms == w.time_to_ready_ms
            },
        forall|w: &mut Workspace, p: Progress| #[trigger]
            call_ensures(Workspace::progress, (w, index, now), p) ==> {
                &&& final(w).is_still(*w)
                &&& final(w).last_touched == w.last_touched
                &&& final(w).last_scan_at_unix == w.last_scan_at_unix
                &&& p.installed <==> *index is Some
                &&& p.is_scanning || !p.is_warmup_complete ==> final(w).ready_since == u64::MAX
                    && final(w).time_to_ready_ms == w.time_to_ready_ms
                &&& !p.is_scanning && p.is_warmup_complete && w.ready_since != u64::MAX
                    ==> final(w).ready_since == w.ready_since
            },
{
}

/// A rescan is recorded where the engine started one, and nothing changes where it refused; the
/// refusal is the engine's own.
pub proof fn refused_rescans_change_nothing(unix_now: u64, err: EngineError)
    ensures
        forall|w: &mut Workspace, r: ApiResult<()>| #[trigger]
            call_ensures(Workspace::rescan, (w, Ok::<(), EngineError>(()), unix_now), r) ==> {
                &&& r is Ok
                &&& final(w).last_scan_at_unix == unix_now
                &&& final(w).ready_since == u64::MAX
            },
        forall|w: &mut Workspace, r: ApiResult<()>| #[trigger]
            call_ensures(Workspace::rescan, (w, Err::<(), EngineError>(err), unix_now), r) ==> {
                &&& *final(w) == *w
                &&& r == Err::<(), ApiError>(reported(err))
            },
{
}

/// A rescan may be asked for exactly while the index is complete and at rest, and that is also
/// when maintenance may touch it; the timer asks for one only then.
pub proof fn only_settled_indexes_are_maintained(
    s: IndexState,
    interval: Duration,
    now: Duration,
)
    ensures
        forall|w: &mut Workspace, r: ApiResult<()>| #[trigger]
            call_ensures(Workspace::may_rescan, (w, &Some(s), now), r) ==> (r is Ok
                <==> !s.is_scanning && s.is_warmup_complete),
        forall|w: &mut Workspace, r: bool| #[trigger]
            call_ensures(Workspace::ready_for_maintenance, (w, &Some(s), now), r) ==> (r
                <==> !s.is_scanning && s.is_warmup_complete),
        forall|w: &mut Workspace, r: bool| #[trigger]
            call_ensures(Workspace::periodic_rescan_due, (w, &Some(s), interval, now), r) ==> r
                ==> !s.is_scanning && s.is_warmup_complete && final(w).ready_since != u64::MAX,
        forall|w: &mut Workspace, r: bool| #[trigger]
            call_ensures(Workspace::ready_for_maintenance, (w, &None, now), r) ==> !r,
{
}

/// A workspace that could not be built is no workspace: without a database directory it is the
/// server's fault, and otherwise the engine's own reason is given.
pub proof fn failed_builds_give_their_reason(
    root: CanonicalRoot,
    req: &CreateWorkspace,
    config: &Config,
    why: String,
    err: EngineError,
    birth: Birth,
    machine: &Machine,
    a: ApiResult<Workspace>,
    b: ApiResult<Workspace>,
)
    requires
        call_ensures(
            Workspace::create,
            (root, req, config, BuildOutcome::NoDatabase(why), birth, machine),
            a,
        ),
        call_ensures(
            Workspace::create,
            (root, req, config, BuildOutcome::Failed(err), birth, machine),
            b,
        ),
    ensures
        a matches Err(e) && e.status_code() == 500 && e.message()
            == "cannot create database directory for workspace: "@ + why@,
        b matches Err(e) && e == reported(err),
{
}

/// Reading a request against two configurations that differ in one default alone gives options that
/// differ in that option alone, and only where the request leaves it out.
pub proof fn one_default_decides_one_option(
    req: &CreateWorkspace,
    a: &Config,
    b: &Config,
    x: EffectiveOptions,
    y: EffectiveOptions,
)
    requires
        call_ensures(Workspace::effective_options, (req, a), x),
        call_ensures(Workspace::effective_options, (req, b), y),
    ensures
        x.ai_mode != y.ai_mode <==> req.ai_mode is None && a.defaults.ai_mode
            != b.defaults.ai_mode,
        x.content_indexing != y.content_indexing <==> req.content_indexing is None
            && a.defaults.content_indexing != b.defaults.content_indexing,
        x.watch != y.watch <==> req.watch is None && a.defaults.watch != b.defaults.watch,
        x.follow_symlinks != y.follow_symlinks <==> req.follow_symlinks is None
            && a.defaults.follow_symlinks != b.defaults.follow_symlinks,
        x.git_recency_enabled == y.git_recency_enabled,
        x.git_recency_max_commits == y.git_recency_max_commits,
        x.git_recency_max_files_per_commit == y.git_recency_max_files_per_commit,
        req.ai_mode is None ==> x.ai_mode == a.defaults.ai_mode,
        req.content_indexing is None ==> x.content_indexing == a.defaults.content_indexing,
        req.watch is None ==> x.watch == a.defaults.watch,
        req.follow_symlinks is None ==> x.follow_symlinks == a.defaults.follow_symlinks,
{
}

/// A creation waits for the scan alone unless the client says otherwise.
pub proof fn creations_wait_for_the_scan(w: WaitFor)
    requires
        call_ensures(WaitFor::default, (), w),
    ensures
        w == WaitFor::Scan,
{
}

} // verus!
