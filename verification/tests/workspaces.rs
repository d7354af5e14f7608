use fff_server::clock::Duration;
use fff_server::config::{Config, Machine};
use fff_server::dto::lifecycle::{HistoryQuery, TrackQueryRequest};
use fff_server::dto::workspace::WorkspaceStatus;
use fff_server::engine::PickerMode;
use fff_server::error::EngineError;
use fff_server::paths::{
    canonicalize_root, child, is_beneath, relative_to, stable_id, CanonicalRoot, FileId, FoundRoot,
    RootProbe,
};
use fff_server::routes::lifecycle::{
    git_refresh, history, path_input, plan_rescan, plan_track_query, rescan, resolve_in_workspace,
    spelling, track_access, track_query,
};
use fff_server::routes::meta::health;
use fff_server::routes::workspaces::{create, delete, get, list, plan_create, CreateStep};
use fff_server::routes::{workspace, Answer};
use fff_server::state::AppState;
use fff_server::workspace::pool::{Created, IndexProbe};
use fff_server::workspace::{
    ready_for_maintenance, rescan_is_due, Birth, BuildOutcome, CacheBudget, CreateWorkspace,
    GitRecency, IndexState, Progress, WaitFor, Workspace, NOT_READY,
};

fn machine() -> Machine {
    Machine {
        data_dir: None,
        temp_dir: "/tmp".to_string(),
        separator: '/',
    }
}

fn ready_progress() -> Progress {
    Progress {
        installed: true,
        is_warmup_complete: true,
        ..Progress::default()
    }
}

#[test]
fn periodic_rescan_waits_for_warmup_and_a_full_ready_interval() {
    let mut progress = ready_progress();
    progress.is_warmup_complete = false;
    assert!(!ready_for_maintenance(&progress));
    assert!(!rescan_is_due(&progress, NOT_READY, 600, 60));

    progress.is_warmup_complete = true;
    progress.is_scanning = true;
    assert!(!ready_for_maintenance(&progress));
    assert!(!rescan_is_due(&progress, NOT_READY, 600, 60));

    progress.is_scanning = false;
    assert!(ready_for_maintenance(&progress));
    assert!(!rescan_is_due(&progress, 590, 600, 60));
    assert!(rescan_is_due(&progress, 540, 600, 60));
}

fn secs(n: u64) -> Duration {
    Duration::from_secs(n)
}

fn probe(canonical: &str, inode: u64) -> RootProbe {
    RootProbe::Found(FoundRoot {
        canonical: canonical.to_string(),
        is_dir: true,
        has_parent: true,
        file_id: Some(FileId::Inode {
            device_id: 1,
            inode_number: inode,
        }),
    })
}

fn root(path: &str, inode: u64) -> CanonicalRoot {
    canonicalize_root(path, &probe(path, inode)).unwrap()
}

fn birth(origin: u64) -> Birth {
    Birth {
        origin: secs(origin),
        created_at: secs(1_700_000_000),
        unix_now: 1_700_000_000,
    }
}

/// An index that was complete after that long, or one that was still scanning after ten seconds.
fn built(ready_after_ms: Option<u64>) -> BuildOutcome {
    BuildOutcome::Built {
        index: index(ready_after_ms.is_none(), ready_after_ms.is_some()),
        elapsed: Duration::from_millis(ready_after_ms.unwrap_or(10_000)),
    }
}

/// An index whose watcher came up with its content index.
fn index(is_scanning: bool, is_warmup_complete: bool) -> Option<IndexState> {
    watched(is_scanning, is_warmup_complete, is_warmup_complete)
}

fn watched(
    is_scanning: bool,
    is_warmup_complete: bool,
    is_watcher_ready: bool,
) -> Option<IndexState> {
    Some(IndexState {
        scanned_files_count: 400,
        is_scanning,
        is_watcher_ready,
        is_warmup_complete,
        indexed_files: 382,
        has_git_repo: true,
        git_root: Some(r"\\?\D:\devel\fff".to_string()),
    })
}

fn add(state: &mut AppState, path: &str, inode: u64, ready: Option<u64>, at: u64) -> String {
    let root = root(path, inode);
    let id = stable_id(&root.identity);
    let (ws, created) = state
        .pool
        .create_blocking(
            root,
            &CreateWorkspace::default(),
            built(ready),
            birth(at),
            secs(at),
            &machine(),
        )
        .unwrap();
    assert_eq!(ws.id, id);
    assert_eq!(
        created,
        Created::New {
            stage_reached: ready.is_some()
        }
    );
    id
}

#[test]
fn options_default_from_configuration_and_engine() {
    let config = Config::default();
    let o = Workspace::effective_options(&CreateWorkspace::default(), &config);
    assert!(o.ai_mode && o.content_indexing && o.watch && !o.follow_symlinks);
    assert!(o.git_recency_enabled);
    assert_eq!(
        (o.git_recency_max_commits, o.git_recency_max_files_per_commit),
        (10, 50)
    );
    let req = CreateWorkspace {
        ai_mode: Some(false),
        content_indexing: Some(false),
        watch: Some(false),
        follow_symlinks: Some(true),
        git_recency: Some(GitRecency {
            enabled: Some(false),
            max_commits: None,
            max_files_per_commit: Some(7),
        }),
        ..Default::default()
    };
    let o = Workspace::effective_options(&req, &config);
    assert!(!o.ai_mode && !o.content_indexing && !o.watch && o.follow_symlinks);
    assert!(!o.git_recency_enabled);
    assert_eq!(
        (o.git_recency_max_commits, o.git_recency_max_files_per_commit),
        (10, 7)
    );
}

#[test]
fn a_plan_says_what_to_build() {
    let config = Config::default();
    let r = root("/repo", 7);
    let mut req = CreateWorkspace::default();
    let plan = Workspace::plan(&r, &req, &config, secs(10), &machine());
    assert_eq!(plan.id, stable_id("fid:inode/1/7"));
    assert_eq!(plan.base_path, "/repo");
    assert_eq!(
        plan.db_dir,
        format!("/tmp/fff-server/db/{}", plan.id),
        "no database root is configured, so it is the machine's"
    );
    assert_eq!(plan.mode, PickerMode::Ai);
    assert!(!plan.mmap_cache);
    assert_eq!(plan.git_recency.max_commits, 10);
    assert!(plan.cache_budget.is_none());
    req.ai_mode = Some(false);
    assert_eq!(
        Workspace::plan(&r, &req, &config, secs(1), &machine()).mode,
        PickerMode::Neovim
    );
    assert_eq!(plan.budget, secs(10));
    let budget = |max_files, max_bytes, max_file_size| {
        Some(CacheBudget {
            max_files,
            max_bytes,
            max_file_size,
        })
    };
    req.cache_budget = budget(0, 0, 0);
    assert!(Workspace::plan(&r, &req, &config, secs(1), &machine()).cache_budget.is_none());
    req.cache_budget = budget(5, 0, 0);
    let b = Workspace::plan(&r, &req, &config, secs(1), &machine()).cache_budget.unwrap();
    assert_eq!(
        (b.max_files, b.max_bytes, b.max_file_size),
        (5, 256 * 1024 * 1024, 10 * 1024 * 1024)
    );
    req.cache_budget = budget(0, 6, 7);
    let b = Workspace::plan(&r, &req, &config, secs(1), &machine()).cache_budget.unwrap();
    assert_eq!((b.max_files, b.max_bytes, b.max_file_size), (10_000, 6, 7));
}

#[test]
fn waits_split_what_the_scan_left() {
    let w = Workspace::stage_waits(WaitFor::Scan, secs(10), secs(3));
    assert!(w.indexing.is_none() && w.watcher.is_none());
    let w = Workspace::stage_waits(WaitFor::Indexing, secs(10), secs(3));
    assert_eq!((w.indexing, w.watcher), (Some(secs(7)), None));
    let w = Workspace::stage_waits(WaitFor::Watcher, secs(10), secs(3));
    assert_eq!(
        (w.indexing, w.watcher),
        (
            Some(Duration::from_millis(3_500)),
            Some(Duration::from_millis(3_500))
        )
    );
    let w = Workspace::stage_waits(WaitFor::Watcher, secs(3), secs(10));
    assert_eq!((w.indexing, w.watcher), (Some(secs(0)), Some(secs(0))));
    assert_eq!(WaitFor::default(), WaitFor::Scan);
}

#[test]
fn building_gives_a_workspace_or_an_error() {
    let config = Config::default();
    let req = CreateWorkspace::default();
    let make = |outcome| Workspace::create(root("/repo", 7), &req, &config, outcome, birth(5), &machine());
    let ws = make(built(Some(7_760))).unwrap();
    assert_eq!(ws.id, stable_id(&ws.identity));
    assert_eq!(ws.time_to_ready_ms, 7_760);
    assert_eq!(ws.ready_since, 7);
    assert_eq!(ws.last_scan_at(), 1_700_000_000);
    assert_eq!(make(built(Some(0))).unwrap().time_to_ready_ms, 1);
    let warming = make(built(None)).unwrap();
    assert_eq!(warming.time_to_ready_ms, 0);
    assert_eq!(warming.ready_since, NOT_READY);
    let err = make(BuildOutcome::NoDatabase("disk full".to_string())).unwrap_err();
    assert_eq!(err.problem().status, 500);
    assert_eq!(
        err.to_string(),
        "cannot create database directory for workspace: disk full"
    );
    let err = make(BuildOutcome::Failed(EngineError::DbInUse("held".to_string()))).unwrap_err();
    assert_eq!(err.problem().code, "database-in-use");
}

#[test]
fn the_cost_is_recorded_when_the_index_first_settles() {
    let config = Config::default();
    let req = CreateWorkspace::default();
    let mut ws =
        Workspace::create(root("/repo", 7), &req, &config, built(None), birth(100), &machine()).unwrap();
    // Still warming: the age so far stands in.
    assert_eq!(ws.time_to_ready(&index(true, false), secs(130)), secs(30));
    assert_eq!(ws.time_to_ready(&None, secs(131)), secs(31));
    assert_eq!(ws.ready_since, NOT_READY);
    // Settled: recorded once, and kept.
    assert_eq!(ws.time_to_ready(&index(false, true), secs(160)), secs(60));
    assert_eq!(ws.ready_since, 60);
    assert_eq!(ws.time_to_ready(&index(false, true), secs(500)), secs(60));
    assert_eq!(ws.ready_since, 60);
    // A rescan does not change it; the ready second is found anew.
    assert!(ws.rescan(Ok(()), 1_700_000_500).is_ok());
    assert_eq!(ws.ready_since, NOT_READY);
    assert_eq!(ws.last_scan_at(), 1_700_000_500);
    assert_eq!(ws.time_to_ready(&index(true, true), secs(510)), secs(60));
    assert_eq!(ws.time_to_ready(&index(false, true), secs(700)), secs(60));
    assert_eq!(ws.ready_since, 600);
}

#[test]
fn rescans_are_due_after_a_full_interval_at_rest() {
    let config = Config::default();
    let req = CreateWorkspace::default();
    let mut ws =
        Workspace::create(root("/repo", 7), &req, &config, built(Some(1_000)), birth(0), &machine()).unwrap();
    let rest = index(false, true);
    assert!(!ws.periodic_rescan_due(&rest, secs(60), secs(60)));
    assert!(ws.periodic_rescan_due(&rest, secs(60), secs(61)));
    assert!(!ws.periodic_rescan_due(&index(true, true), secs(60), secs(500)));
    // Looking away from rest starts the interval again.
    assert!(!ws.periodic_rescan_due(&rest, secs(60), secs(501)));
    assert!(ws.periodic_rescan_due(&rest, secs(60), secs(561)));
}

#[test]
fn rescans_are_refused_while_busy_and_change_nothing_when_they_fail() {
    let config = Config::default();
    let req = CreateWorkspace::default();
    let mut ws =
        Workspace::create(root("/repo", 7), &req, &config, built(Some(1_000)), birth(0), &machine()).unwrap();
    for busy in [index(true, true), index(false, false), None] {
        let err = ws.may_rescan(&busy, secs(5)).unwrap_err();
        assert_eq!(err.problem().status, 503);
        assert_eq!(
            err.to_string(),
            "cannot rescan while scanning or content indexing is active"
        );
    }
    assert!(ws.may_rescan(&index(false, true), secs(5)).is_ok());
    let (since, at) = (ws.ready_since, ws.last_scan_at_unix);
    let refused = EngineError::WatcherNotReady("throttled".to_string());
    assert_eq!(ws.rescan(Err(refused), 9).unwrap_err().problem().status, 503);
    assert_eq!((ws.ready_since, ws.last_scan_at_unix), (since, at));
    assert_eq!(Workspace::refresh_git_status(Ok(3)).unwrap(), 3);
}

#[test]
fn use_defers_idleness() {
    let config = Config::default();
    let req = CreateWorkspace::default();
    let mut ws =
        Workspace::create(root("/repo", 7), &req, &config, built(Some(1_000)), birth(100), &machine()).unwrap();
    assert_eq!(ws.idle_for(secs(160)), secs(60));
    ws.touch(Duration::from_millis(160_700));
    assert_eq!(ws.last_touched, 60);
    assert_eq!(ws.idle_for(secs(161)), secs(1));
    assert_eq!(ws.idle_for(secs(40)), secs(0), "a clock before its birth");
}

#[test]
fn workspaces_dedupe_by_filesystem_identity() {
    let mut state = AppState::new(Config::default());
    let req = CreateWorkspace {
        root: "/fixtures".to_string(),
        ..Default::default()
    };
    let none = Vec::new();
    let here = probe("/fixtures", 9);
    let step = plan_create(&mut state, &req, &here, &none, secs(1), &machine()).unwrap();
    let CreateStep::Build { root, plan } = step else {
        panic!("nothing has been built yet")
    };
    let (_, created) = state
        .pool
        .create_blocking(root, &req, built(Some(50)), birth(1), secs(2), &machine())
        .unwrap();
    assert_eq!(
        created,
        Created::New {
            stage_reached: true
        }
    );

    // Same tree, different spelling: upper case plus a trailing separator.
    let respelled = CreateWorkspace {
        root: "/FIXTURES/".to_string(),
        ..Default::default()
    };
    let here = probe("/Fixtures", 9);
    let step = plan_create(&mut state, &respelled, &here, &none, secs(3), &machine()).unwrap();
    let CreateStep::Existing(ws) = step else {
        panic!("an existing workspace is returned")
    };
    assert_eq!(
        plan.id, ws.id,
        "two spellings of one directory must resolve to one workspace"
    );
    let (status, body) = create(&mut state, ws, None, &index(false, true), secs(3));
    assert_eq!(status, 200, "an existing workspace is returned");
    assert_eq!(body.root, "/fixtures");

    let all = list(&mut state, &Vec::new(), secs(4));
    assert_eq!(all.workspaces.len(), 1, "only one index should have been built");
}

#[test]
fn a_lost_race_keeps_the_winner() {
    let mut state = AppState::new(Config::default());
    let req = CreateWorkspace::default();
    let id = add(&mut state, "/repo", 1, Some(50), 10);
    let (winner, created) = state
        .pool
        .create_blocking(root("/REPO", 1), &req, built(None), birth(20), secs(21), &machine())
        .unwrap();
    assert_eq!(created, Created::Existing);
    assert_eq!(winner.root.display, "/repo");
    assert_eq!(state.pool.len(), 1);
    let ws = state.pool.get(&id, secs(22)).unwrap();
    assert_eq!(ws.root.display, "/repo");
    assert_eq!(ws.time_to_ready_ms, 50);
    // A build that failed leaves nothing behind.
    let failed = BuildOutcome::Failed(EngineError::FilesystemRoot("home".to_string()));
    let err = state
        .pool
        .create_blocking(root("/home", 2), &req, failed, birth(20), secs(21), &machine())
        .unwrap_err();
    assert_eq!(err.problem().status, 403);
    assert_eq!(state.pool.len(), 1);
}

fn created(wait_for: WaitFor, seen: Option<IndexState>) -> (Workspace, Created) {
    let mut state = AppState::new(Config::default());
    let req = CreateWorkspace {
        wait_for,
        ..Default::default()
    };
    let outcome = BuildOutcome::Built {
        index: seen,
        elapsed: secs(10),
    };
    state
        .pool
        .create_blocking(root("/repo", 1), &req, outcome, birth(0), secs(10), &machine())
        .unwrap()
}

#[test]
fn creation_answers_by_the_requested_stage() {
    let mut state = AppState::new(Config::default());
    let mut status = |wait_for, seen: Option<IndexState>| {
        let (ws, c) = created(wait_for, seen.clone());
        create(&mut state, ws, Some(c), &seen, secs(11)).0
    };
    // The scan is over, the content index still building.
    assert_eq!(status(WaitFor::Scan, watched(false, false, false)), 201);
    assert_eq!(status(WaitFor::Indexing, watched(false, false, false)), 202);
    // The content index is built, the watcher not yet up.
    assert_eq!(status(WaitFor::Indexing, watched(false, true, false)), 201);
    assert_eq!(status(WaitFor::Watcher, watched(false, true, false)), 202);
    assert_eq!(status(WaitFor::Watcher, watched(false, true, true)), 201);
    // Still scanning, or nothing published yet.
    for stage in [WaitFor::Scan, WaitFor::Indexing, WaitFor::Watcher] {
        assert_eq!(status(stage, watched(true, false, false)), 202);
        assert_eq!(status(stage, None), 202);
    }
}

#[test]
fn what_was_there_is_answered_200() {
    let mut state = AppState::new(Config::default());
    let id = add(&mut state, "/repo", 1, Some(50), 0);
    for seen in [None, index(true, false), index(false, true)] {
        let ws = state.pool.get(&id, secs(1)).unwrap().copy();
        assert_eq!(create(&mut state, ws, None, &seen, secs(1)).0, 200);
    }
}

#[test]
fn a_lost_race_is_answered_by_the_readiness_of_the_winner() {
    let mut state = AppState::new(Config::default());
    let id = add(&mut state, "/repo", 1, Some(50), 0);
    let mut status = |seen: Option<IndexState>| {
        let ws = state.pool.get(&id, secs(1)).unwrap().copy();
        create(&mut state, ws, Some(Created::Existing), &seen, secs(1)).0
    };
    assert_eq!(status(index(false, true)), 201);
    assert_eq!(status(watched(false, true, false)), 200);
    assert_eq!(status(index(true, false)), 200);
    assert_eq!(status(None), 200);
}

#[test]
fn a_held_workspace_is_described_after_it_left_the_pool() {
    let mut state = AppState::new(Config::default());
    let id = add(&mut state, "/repo", 1, Some(50), 0);
    let ws = state.pool.get(&id, secs(5)).unwrap().copy();
    assert_eq!(delete(&mut state, &id).unwrap(), 204);
    let (status, body) = create(&mut state, ws.copy(), None, &None, secs(6));
    assert_eq!((status, body.id.as_str()), (200, id.as_str()));
    assert_eq!(body.status, WorkspaceStatus::Initialising);
    let (status, body) = rescan(&mut state, ws.copy(), Ok(()), 77, &None, secs(7)).unwrap();
    assert_eq!((status, body.last_scan_at), (202, 77));
    assert!(state.pool.is_empty(), "and does not come back");
    // A later workspace over the same root is another one.
    assert_eq!(add(&mut state, "/repo", 1, Some(60), 100), id);
    rescan(&mut state, ws, Ok(()), 88, &None, secs(101)).unwrap();
    let later = state.pool.get(&id, secs(102)).unwrap();
    assert_eq!(later.last_scan_at(), 1_700_000_000);
}

#[test]
fn each_workspace_has_a_database_directory_of_its_own() {
    let mut config = Config::default();
    config.workspaces.db_root = Some("/var/db".to_string());
    let req = CreateWorkspace::default();
    let make = |inode| {
        let plan = Workspace::plan(&root("/repo", inode), &req, &config, secs(1), &machine());
        let ws = Workspace::create(
            root("/repo", inode),
            &req,
            &config,
            built(Some(1)),
            birth(0),
            &machine(),
        )
        .unwrap();
        assert_eq!(plan.db_dir, ws.db_dir);
        assert_eq!(ws.db_dir, format!("/var/db/{}", ws.id));
        ws.db_dir
    };
    assert_ne!(make(1), make(2));
    assert_eq!(child("/var/db/", "x", '/'), "/var/db/x");
    assert_eq!(child(r"C:\ProgramData\db", "x", '\\'), r"C:\ProgramData\db\x");
}

#[test]
fn roots_outside_the_allowlist_are_forbidden() {
    let mut config = Config::default();
    config.workspaces.allowed_roots = vec!["/srv".to_string(), "/data".to_string()];
    let mut state = AppState::new(config);
    let some = |p: &str| Some(p.to_string());
    let mut plan = |path: &str, allowed: Vec<Option<String>>| {
        let req = CreateWorkspace {
            root: path.to_string(),
            ..Default::default()
        };
        plan_create(&mut state, &req, &probe(path, 4), &allowed, secs(0), &machine())
    };
    let err = plan("/home/me", vec![some("/srv"), some("/data")])
        .err()
        .unwrap();
    assert_eq!(err.problem().status, 403);
    assert_eq!(
        err.to_string(),
        "root /home/me is not under any configured allowed_roots entry"
    );
    assert!(plan("/data/x", vec![some("/srv"), some("/data")]).is_ok());
    assert!(plan("/data", vec![some("/srv"), some("/data")]).is_ok());
    assert!(plan("/srv/deep/er", vec![some("/srv"), None]).is_ok());
    // By component: a name that merely begins alike is elsewhere.
    assert!(plan("/database", vec![some("/srv"), some("/data")]).is_err());
    assert!(plan("/srv2", vec![some("/srv"), some("/data")]).is_err());
    // What does not resolve allows nothing.
    assert!(plan("/data/x", vec![some("/srv"), None]).is_err());
    assert!(plan("/data/x", vec![None, None]).is_err());
    assert!(plan("/data/x", vec![some("/")]).is_ok());

    let missing = RootProbe::Unresolved("no such file".to_string());
    let req = CreateWorkspace {
        root: "Q:/nope".to_string(),
        ..Default::default()
    };
    let err = plan_create(&mut state, &req, &missing, &Vec::new(), secs(0), &machine())
        .err()
        .unwrap();
    assert_eq!(err.problem().status, 400);
    assert_eq!(err.problem().code, "invalid-path");
}

#[test]
fn the_block_budget_comes_from_the_request_or_the_configuration() {
    let mut state = AppState::new(Config::default());
    let mut req = CreateWorkspace {
        root: "/repo".to_string(),
        ..Default::default()
    };
    let here = probe("/repo", 4);
    let mut budget = |req: &CreateWorkspace| {
        match plan_create(&mut state, req, &here, &Vec::new(), secs(0), &machine()).unwrap() {
            CreateStep::Build { plan, .. } => plan.budget,
            CreateStep::Existing(_) => panic!("nothing was built"),
        }
    };
    assert_eq!(budget(&req), secs(10));
    req.wait_for_index_ms = Some(0);
    assert_eq!(budget(&req), secs(0));
}

#[test]
fn resources_describe_the_workspace() {
    let mut state = AppState::new(Config::default());
    let id = add(&mut state, "/repo", 1, Some(7_760), 100);
    let r = get(&mut state, &id, &index(false, true), secs(200)).unwrap();
    assert_eq!(r.id, id);
    assert_eq!(r.root, "/repo");
    assert!(!r.is_network_path);
    assert_eq!(r.status, WorkspaceStatus::Ready);
    assert!(!r.is_scanning && r.is_warmup_complete && r.is_watcher_ready);
    assert_eq!((r.indexed_files, r.scanned_files_count), (382, 400));
    assert!(r.has_git_repo);
    assert_eq!(r.git_root.as_deref(), Some(r"D:\devel\fff"), "unprefixed");
    assert_eq!(r.created_at, secs(1_700_000_000));
    assert_eq!(r.last_scan_at, 1_700_000_000);
    assert_eq!(r.time_to_ready_ms, 7_760);
    assert_eq!(r.rescan_interval_secs, 194);
    assert_eq!(r.idle_timeout_secs, 1_800);
    assert!(r.options.ai_mode);
    assert_eq!(state.pool.get(&id, secs(200)).unwrap().last_touched, 100);

    let r = get(&mut state, &id, &None, secs(201)).unwrap();
    assert_eq!(r.status, WorkspaceStatus::Initialising);
    assert_eq!(r.indexed_files, 0);
    assert!(r.git_root.is_none());
    let r = get(&mut state, &id, &index(true, false), secs(201)).unwrap();
    assert_eq!(r.status, WorkspaceStatus::Indexing);
    let r = get(&mut state, &id, &watched(false, true, false), secs(201)).unwrap();
    assert_eq!(r.status, WorkspaceStatus::Indexing, "built but not watching");
    assert!(r.is_warmup_complete && !r.is_watcher_ready);
    let err = get(&mut state, "nope", &None, secs(201)).err().unwrap();
    assert_eq!(err.to_string(), "no workspace with id \"nope\"");
}

#[test]
fn lists_are_in_the_order_of_roots() {
    let mut state = AppState::new(Config::default());
    for (n, path) in ["/b", "/a/z", "/a", "/\u{e9}", "/B"].iter().enumerate() {
        add(&mut state, path, n as u64, Some(1), 0);
    }
    let busy = state.pool.list()[0].id.clone();
    let probes = vec![
        IndexProbe {
            id: busy.clone(),
            index: index(true, true),
        },
        IndexProbe {
            id: busy,
            index: None,
        },
    ];
    let all = list(&mut state, &probes, secs(9)).workspaces;
    let roots: Vec<&str> = all.iter().map(|w| w.root.as_str()).collect();
    assert_eq!(roots, vec!["/B", "/a", "/a/z", "/b", "/\u{e9}"]);
    assert_eq!(all[0].status, WorkspaceStatus::Indexing);
    assert_eq!(
        all[1].status,
        WorkspaceStatus::Initialising,
        "an index that was not looked at counts as not there"
    );
}

#[test]
fn health_counts_live_workspaces() {
    let mut state = AppState::new(Config::default());
    let h = health(&state, "1.2.3", 7);
    assert_eq!(h.workspace_count, 0);
    assert_eq!(h.status, "ok");
    assert_eq!((h.version, h.engine_version), ("1.2.3", "0.11.0"));
    assert_eq!(h.uptime_seconds, 7);
    assert!(state.pool.is_empty());

    let id = add(&mut state, "/repo", 1, Some(1), 0);
    assert_eq!(health(&state, "1.2.3", 8).workspace_count, 1);

    assert_eq!(delete(&mut state, &id).unwrap(), 204);
    assert_eq!(
        health(&state, "1.2.3", 9).workspace_count,
        0,
        "eviction must release the workspace"
    );
    let err = delete(&mut state, &id).unwrap_err();
    assert_eq!(err.problem().status, 404);
    assert_eq!(err.to_string(), "no such workspace");
}

#[test]
fn a_sweep_evicts_the_idle_and_names_the_due() {
    let mut state = AppState::new(Config::default());
    let idle = add(&mut state, "/idle", 1, Some(1_000), 0);
    let due = add(&mut state, "/due", 2, Some(1_000), 0);
    let busy = add(&mut state, "/busy", 3, Some(1_000), 0);
    let unseen = add(&mut state, "/unseen", 4, Some(1_000), 0);
    assert!(workspace(&mut state, &due, secs(1_700)).is_ok());
    let rest = |id: &String| IndexProbe {
        id: id.clone(),
        index: index(false, true),
    };
    let probes = vec![
        rest(&idle),
        rest(&due),
        IndexProbe {
            id: busy.clone(),
            index: index(true, true),
        },
        rest(&"gone".to_string()),
    ];
    // The shortest idle timeout is half an hour.
    let plan = state.pool.sweep(&probes, secs(1_799));
    assert!(plan.evicted.is_empty());
    assert_eq!(plan.due, vec![idle.clone(), due.clone()]);
    let plan = state.pool.sweep(&probes, secs(1_800));
    assert_eq!(plan.evicted, vec![idle.clone()]);
    assert_eq!(plan.due, vec![due.clone()]);
    assert!(state.pool.get(&idle, secs(1_800)).is_none());
    assert!(state.pool.get(&busy, secs(1_800)).is_some());
    assert!(state.pool.get(&unseen, secs(1_800)).is_some());
    // Once triggered it is no longer due.
    assert!(matches!(
        state.pool.rescan(&due, Ok(()), 1_700_001_800),
        Some(Ok(()))
    ));
    let plan = state.pool.sweep(&probes, secs(1_801));
    assert!(plan.due.is_empty() && plan.evicted.is_empty());
    assert!(state.pool.rescan("gone", Ok(()), 0).is_none());

    let rest = state.pool.shutdown_all();
    assert_eq!(rest.len(), 3);
    assert!(state.pool.is_empty());
}

#[test]
fn git_refresh_and_rescan_are_accepted() {
    let mut state = AppState::new(Config::default());
    let id = add(&mut state, "/repo", 1, Some(1_000), 0);
    assert_eq!(git_refresh(Ok(4)).unwrap().updated, 4);
    let failed = Err(EngineError::FilePickerMissing("none".to_string()));
    assert_eq!(git_refresh(failed).unwrap_err().problem().status, 503);

    let rest = index(false, true);
    let ws = plan_rescan(&mut state, &id, &rest, secs(50)).unwrap();
    let busy = index(true, true);
    let held = ws.copy();
    let (status, body) = rescan(&mut state, ws, Ok(()), 1_700_000_050, &busy, secs(50)).unwrap();
    assert_eq!(status, 202);
    assert_eq!(body.last_scan_at, 1_700_000_050, "a rescan stamps it");
    assert!(body.is_scanning);
    let err = plan_rescan(&mut state, &id, &busy, secs(51)).unwrap_err();
    assert_eq!(err.problem().code, "index-not-ready");
    let err = plan_rescan(&mut state, "nope", &busy, secs(51)).unwrap_err();
    assert_eq!(err.problem().code, "not-found");
    let refused = Err(EngineError::Other("no threads".to_string()));
    let err = rescan(&mut state, held, refused, 9, &busy, secs(52))
        .err()
        .unwrap();
    assert_eq!(err.problem().status, 500);
}

#[test]
fn tracking_refuses_paths_outside_the_workspace() {
    let r = root("/repo/tests/fixtures", 1);
    let at = |p: &str| Ok(p.to_string());
    // What `../../Cargo.toml` resolves to from there.
    let outside = resolve_in_workspace(&r, "../../Cargo.toml", at("/repo/Cargo.toml"), '/')
        .unwrap_err();
    assert_eq!(outside.problem().status, 400);
    assert_eq!(
        outside.to_string(),
        "\"../../Cargo.toml\" resolves outside the workspace root /repo/tests/fixtures"
    );
    let missing = Err("no such file".to_string());
    let missing = resolve_in_workspace(&r, " does-not-exist.rs ", missing, '/').unwrap_err();
    assert_eq!(missing.problem().status, 400);
    assert_eq!(missing.problem().code, "invalid-path");
    assert_eq!(
        missing.to_string(),
        "cannot resolve \"does-not-exist.rs\": no such file"
    );
    for elsewhere in [
        "/etc/passwd",
        "/repo/tests",
        "/repo/tests/fixtures2/lib.rs",
        "/repo/tests/fixtures.rs",
        "/",
    ] {
        let err = resolve_in_workspace(&r, elsewhere, at(elsewhere), '/').unwrap_err();
        assert_eq!(err.problem().code, "invalid-path", "{elsewhere}");
    }
    let err = resolve_in_workspace(&r, "  ", at("/repo/tests/fixtures/x"), '/').unwrap_err();
    assert_eq!(err.problem().code, "invalid-request-body");
}

#[test]
fn paths_inside_the_workspace_are_recorded_relative_to_it() {
    let r = root("/repo", 1);
    let at = |p: &str| Ok(p.to_string());
    let (canonical, relative) =
        resolve_in_workspace(&r, "src/lib.rs", at("/repo/src/lib.rs"), '/').unwrap();
    assert_eq!(canonical, "/repo/src/lib.rs");
    assert_eq!(relative, "src/lib.rs");
    let (_, relative) = resolve_in_workspace(&r, ".", at("/repo"), '/').unwrap();
    assert_eq!(relative, "");

    let share = canonicalize_root("x", &probe(r"\\?\UNC\srv\share\repo", 2)).unwrap();
    let inside = at(r"\\?\UNC\srv\share\repo\src\lib.rs");
    let (_, relative) = resolve_in_workspace(&share, "src/lib.rs", inside, '\\').unwrap();
    assert_eq!(relative, "src/lib.rs");
    let beside = at(r"\\?\UNC\srv\share\repo2\lib.rs");
    assert!(resolve_in_workspace(&share, "x", beside, '\\').is_err());

    assert_eq!(path_input(" a ").unwrap(), "a");
    assert_eq!(spelling(r"src\lib.rs", false), "src/lib.rs");
    assert_eq!(spelling(r"D:\x", true), r"D:\x");
}

#[test]
fn containment_goes_by_component() {
    assert!(is_beneath("/a", "/a", '/'));
    assert!(is_beneath("/a/b/c", "/a", '/'));
    assert!(is_beneath("/a/b", "/a/", '/'));
    assert!(!is_beneath("/ab", "/a", '/'));
    assert!(!is_beneath("/", "/a", '/'));
    assert!(is_beneath("/a", "/", '/'));
    assert_eq!(relative_to("/a/b/c", "/a", '/'), "b/c");
    assert_eq!(relative_to("/a", "/", '/'), "a");
    assert_eq!(relative_to("/a", "/a", '/'), "");
}

#[test]
fn tracking_reports_what_was_recorded() {
    let r = track_access("src/lib.rs".to_string(), Answer::Done(3)).unwrap();
    assert_eq!((r.relative_path.as_str(), r.access_count), ("src/lib.rs", 3));
    let err = track_access("x".to_string(), Answer::Missing).unwrap_err();
    assert_eq!(err.problem().status, 503);
    assert_eq!(
        err.to_string(),
        "frecency database is not available for this workspace"
    );
    assert_eq!(track_query(Answer::Done(())).unwrap(), 204);
    let err = track_query(Answer::Missing).unwrap_err();
    assert_eq!(
        err.to_string(),
        "query history database is not available for this workspace"
    );
    let at = HistoryQuery { offset: 1 };
    let h = history(&at, Answer::Done(Some("first query".to_string()))).unwrap();
    assert_eq!((h.query.as_deref(), h.offset), (Some("first query"), 1));
    assert!(history(&at, Answer::Done(None)).unwrap().query.is_none());
    assert_eq!(history(&at, Answer::Missing).unwrap_err().problem().status, 503);
}

#[test]
fn a_tracked_query_must_say_something() {
    let mut state = AppState::new(Config::default());
    let id = add(&mut state, "/repo", 1, Some(1_000), 0);
    let mut req = TrackQueryRequest {
        query: "button".to_string(),
        selected_path: "src/lib.rs".to_string(),
    };
    let ws = plan_track_query(&mut state, &id, &req, secs(5)).unwrap();
    assert_eq!(ws.root.canonical, "/repo");
    req.query = " \n".to_string();
    let err = plan_track_query(&mut state, &id, &req, secs(5)).err().unwrap();
    assert_eq!(err.to_string(), "query must not be empty");
    assert_eq!(err.problem().code, "invalid-request-body");
    let err = plan_track_query(&mut state, "nope", &req, secs(5)).err().unwrap();
    assert_eq!(err.problem().status, 404);
}
