use fff_server::clock::Duration;
use fff_server::config::{Config, Machine};
use fff_server::dto::search::{GlobRequest, MixedHit, MixedKind, SearchRequest};
use fff_server::engine::{
    DirItem, DirSearchResult, FileItem, FuzzyQuery, Location, MixedItem, MixedSearchResult,
    PaginationArgs, Score, SearchResult,
};
use fff_server::error::EngineError;
use fff_server::paths::{canonicalize_root, stable_id, FoundRoot, RootProbe};
use fff_server::query::{Preset, StructuredQuery};
use fff_server::routes::search::{
    glob, has_more, pagination, plan, plan_glob, search, search_directories, search_mixed,
};
use fff_server::routes::Answer;
use fff_server::state::AppState;
use fff_server::workspace::{Birth, BuildOutcome, CreateWorkspace};

fn machine() -> Machine {
    Machine {
        data_dir: None,
        temp_dir: "/tmp".to_string(),
        separator: '/',
    }
}

fn state() -> (AppState, String) {
    let mut state = AppState::new(Config::default());
    let root = canonicalize_root(
        r"\\server\share\proj",
        &RootProbe::Found(FoundRoot {
            canonical: r"\\?\UNC\server\share\proj".to_string(),
            is_dir: true,
            has_parent: true,
            file_id: None,
        }),
    )
    .unwrap();
    let id = stable_id(&root.identity);
    let built = BuildOutcome::Built {
        index: None,
        elapsed: Duration::from_millis(250),
    };
    let birth = Birth {
        origin: Duration::from_secs(0),
        created_at: Duration::from_secs(0),
        unix_now: 0,
    };
    state
        .pool
        .create_blocking(
            root,
            &CreateWorkspace::default(),
            built,
            birth,
            Duration::from_secs(1),
            &machine(),
        )
        .unwrap();
    (state, id)
}

fn now() -> Duration {
    Duration::from_secs(2)
}

fn file(path: &str) -> FileItem {
    FileItem {
        relative_path: path.to_string(),
        file_name: path.rsplit('/').next().unwrap().to_string(),
        directory: String::new(),
        size: 0,
        modified: 0,
        is_binary: false,
        access_frecency_score: 0,
        modification_frecency_score: 0,
        git_recency_score: 0,
        git_status: None,
    }
}

fn score(total: i32) -> Score {
    Score {
        total,
        base_score: 0,
        filename_bonus: 0,
        special_filename_bonus: 0,
        frecency_boost: 0,
        git_status_boost: 0,
        git_recency_boost: 0,
        distance_penalty: 0,
        current_file_penalty: 0,
        combo_match_boost: 0,
        path_alignment_bonus: 0,
        exact_match: false,
        match_type: "fuzzy",
    }
}

#[test]
fn supplying_both_query_forms_is_refused() {
    let (mut state, id) = state();
    let req = SearchRequest {
        query: Some("a".to_string()),
        structured: Some(StructuredQuery {
            fuzzy: Some("b".to_string()),
            ..Default::default()
        }),
        ..Default::default()
    };
    let problem = plan(&mut state, &id, &req, Preset::FileSearch, now())
        .err()
        .unwrap()
        .problem();
    assert_eq!(problem.status, 400);
    assert!(problem.detail.unwrap().contains("not both"));
    // A workspace that is not there is reported first.
    let problem = plan(
        &mut state,
        "deadbeefdeadbeef",
        &req,
        Preset::FileSearch,
        now(),
    )
    .err()
    .unwrap()
    .problem();
    assert_eq!(problem.status, 404);
    assert_eq!(problem.code, "not-found");
}

#[test]
fn a_plan_resolves_defaults() {
    let (mut state, id) = state();
    let req = SearchRequest {
        query: Some(r"src\*.rs deep".to_string()),
        ..Default::default()
    };
    let p = plan(&mut state, &id, &req, Preset::FileSearch, now()).unwrap();
    assert_eq!(p.prepared.raw, r"src\*.rs deep");
    assert_eq!((p.params.page, p.params.page_size), (0, 100));
    assert_eq!(p.params.warnings.len(), 1);
    assert_eq!(p.options.max_threads, 0);
    assert!(p.options.current_file.is_none());
    assert_eq!(p.options.combo_boost_score_multiplier, 100);
    assert_eq!(p.options.min_combo_count, 3);
    assert_eq!(
        p.options.pagination,
        PaginationArgs {
            offset: 0,
            limit: 100
        }
    );
    assert_eq!(p.display, r"\\server\share\proj");

    let req = SearchRequest {
        structured: Some(StructuredQuery {
            globs: vec![r"src\*.rs".to_string()],
            ..Default::default()
        }),
        page: Some(3),
        page_size: Some(20),
        current_file: Some("src/main.rs".to_string()),
        max_threads: Some(2),
        combo_boost_multiplier: Some(-5),
        min_combo_count: Some(1),
        ..Default::default()
    };
    let p = plan(&mut state, &id, &req, Preset::DirSearch, now()).unwrap();
    assert_eq!(p.prepared.structured.as_ref().unwrap().globs, vec!["src/*.rs"]);
    assert!(p.params.warnings.is_empty(), "structured globs are folded");
    assert_eq!(p.options.max_threads, 2);
    assert_eq!(p.options.current_file.as_deref(), Some("src/main.rs"));
    assert_eq!(p.options.combo_boost_score_multiplier, -5);
    assert_eq!(p.options.min_combo_count, 1);
    assert_eq!(
        p.options.pagination,
        PaginationArgs {
            offset: 60,
            limit: 20
        }
    );
}

#[test]
fn a_request_without_a_query_ranks_everything() {
    let (mut state, id) = state();
    let req = SearchRequest::default();
    let p = plan(&mut state, &id, &req, Preset::MixedSearch, now()).unwrap();
    let q = p.prepared.query();
    assert!(q.constraints.is_empty());
    assert!(matches!(q.fuzzy_query, FuzzyQuery::Empty));
}

#[test]
fn pages_follow_on_one_another() {
    assert_eq!(pagination(0, 7).offset, 0);
    assert_eq!(pagination(1, 7).offset, 7);
    assert_eq!(pagination(2, 7), PaginationArgs { offset: 14, limit: 7 });
    assert_eq!(pagination(usize::MAX, 2).offset, usize::MAX);
    assert!(has_more(0, 10, 11));
    assert!(!has_more(0, 10, 10));
    assert!(has_more(1, 10, 21));
    assert!(!has_more(usize::MAX, 1, usize::MAX));
    assert!(!has_more(usize::MAX - 1, 1, usize::MAX));
    assert!(has_more(usize::MAX - 2, 1, usize::MAX));
    assert!(!has_more(0, usize::MAX, usize::MAX));
}

#[test]
fn hits_are_zipped_with_scores_and_ranges() {
    let (mut state, id) = state();
    let req = SearchRequest {
        query: Some("deep.rs:42:10".to_string()),
        page_size: Some(2),
        ..Default::default()
    };
    let p = plan(&mut state, &id, &req, Preset::FileSearch, now()).unwrap();
    let result = SearchResult {
        items: vec![file("src/né/deep.rs"), file("src/main.rs")],
        scores: vec![score(9), score(8)],
        match_byte_offsets: vec![vec![(8, 12)]],
        total_matched: 3,
        total_files: 40,
        location: Some(Location::Position { line: 42, col: 10 }),
    };
    let r = search(&p, Answer::Done(result), '\\').unwrap();
    assert_eq!(r.items.len(), 2);
    assert_eq!(r.items[0].item.relative_path, "src/né/deep.rs");
    assert_eq!(
        r.items[0].item.absolute_path,
        r"\\server\share\proj\src\né\deep.rs"
    );
    assert_eq!(r.items[0].score.total, 9);
    assert_eq!(
        (
            r.items[0].match_ranges_utf16[0].start,
            r.items[0].match_ranges_utf16[0].end
        ),
        (7, 11)
    );
    assert_eq!(r.items[1].score.total, 8);
    assert!(
        r.items[1].match_ranges_utf16.is_empty(),
        "the engine may report fewer offsets than items"
    );
    assert_eq!((r.total_matched, r.total_files), (3, 40));
    let location = r.location.unwrap();
    assert_eq!((location.line, location.col), (42, Some(10)));
    assert_eq!((r.page, r.page_size, r.has_more), (0, 2, true));
    assert!(r.warnings.is_empty());
}

#[test]
fn directory_and_mixed_search_report_their_own_shapes() {
    let (mut state, id) = state();
    let req = SearchRequest {
        query: Some(r"nested\*".to_string()),
        page_size: Some(10),
        ..Default::default()
    };
    let dir = DirItem {
        relative_path: "src/nested/".to_string(),
        dir_name: "nested".to_string(),
        max_access_frecency: 4,
    };
    let p = plan(&mut state, &id, &req, Preset::DirSearch, now()).unwrap();
    let r = search_directories(
        &p,
        Answer::Done(DirSearchResult {
            items: vec![dir.clone()],
            scores: vec![score(3)],
            total_matched: 1,
            total_dirs: 6,
        }),
        '/',
    )
    .unwrap();
    assert_eq!(
        r.items[0].item.relative_path, "src/nested/",
        "directory paths carry a trailing slash"
    );
    assert_eq!(r.items[0].score.total, 3);
    assert_eq!((r.total_matched, r.total_dirs, r.has_more), (1, 6, false));
    assert_eq!(r.warnings.len(), 1);

    let p = plan(&mut state, &id, &req, Preset::MixedSearch, now()).unwrap();
    let r = search_mixed(
        &p,
        Answer::Done(MixedSearchResult {
            items: vec![MixedItem::Dir(dir), MixedItem::File(file("src/main.rs"))],
            scores: vec![score(3), score(2)],
            total_matched: 30,
            total_files: 5,
            total_dirs: 6,
            location: Some(Location::Line(7)),
        }),
        '/',
    )
    .unwrap();
    assert!(matches!(
        &r.items[0],
        MixedHit::Directory(d) if d.kind == MixedKind::Directory && d.item.dir_name == "nested"
    ));
    assert!(matches!(
        &r.items[1],
        MixedHit::File(f) if f.kind == MixedKind::File && f.score.total == 2
    ));
    assert_eq!(
        (r.total_matched, r.total_files, r.total_dirs, r.has_more),
        (30, 5, 6, true)
    );
    assert_eq!(r.location.unwrap().line, 7);
}

#[test]
fn globs_are_folded_and_must_not_be_empty() {
    let (mut state, id) = state();
    let mut req = GlobRequest {
        pattern: r"src\**\*.rs".to_string(),
        page: Some(1),
        page_size: Some(50),
        current_file: None,
        max_threads: None,
    };
    let p = plan_glob(&mut state, &id, &req, now()).unwrap();
    assert_eq!(p.pattern, "src/**/*.rs");
    assert_eq!(p.options.pagination.offset, 50);
    assert_eq!(p.options.combo_boost_score_multiplier, 100);
    assert_eq!(p.options.min_combo_count, 3);
    let result = SearchResult {
        items: vec![file("src/lib.rs")],
        scores: vec![score(1)],
        match_byte_offsets: vec![vec![(0, 3)]],
        total_matched: 51,
        total_files: 60,
        location: Some(Location::Line(1)),
    };
    let r = glob(&p, Answer::Done(result), '/').unwrap();
    assert!(
        r.items[0].match_ranges_utf16.is_empty(),
        "a literal glob has no fuzzy match ranges to report"
    );
    assert!(r.location.is_none());
    assert!(!r.has_more);
    assert!(r.warnings.is_empty());

    req.pattern = " \t".to_string();
    let err = plan_glob(&mut state, &id, &req, now()).err().unwrap();
    assert_eq!(err.problem().status, 400);
    assert_eq!(err.to_string(), "pattern must not be empty");
    // Folded, a backslash is a separator and not white space.
    req.pattern = r" \ ".to_string();
    assert_eq!(plan_glob(&mut state, &id, &req, now()).unwrap().pattern, " / ");
    let err = plan_glob(&mut state, "nope", &req, now()).err().unwrap();
    assert_eq!(err.problem().status, 404);
}

#[test]
fn searches_report_what_the_engine_could_not_do() {
    let (mut state, id) = state();
    let req = SearchRequest::default();
    let p = plan(&mut state, &id, &req, Preset::FileSearch, now()).unwrap();
    let err = search(&p, Answer::Missing, '/').unwrap_err();
    assert_eq!(err.problem().status, 503);
    assert_eq!(err.to_string(), "index is still building");
    let failed = Answer::Failed(EngineError::FilePickerMissing("gone".to_string()));
    let err = search(&p, failed, '/').unwrap_err();
    assert_eq!(err.problem().status, 503);
    assert_eq!(err.to_string(), "gone");
    assert!(search_directories(&p, Answer::Missing, '/').is_err());
    assert!(search_mixed(&p, Answer::Missing, '/').is_err());
}

#[test]
fn pages_never_repeat_an_item() {
    let (mut state, id) = state();
    let ranking: Vec<FileItem> = (0..7).map(|n| file(&format!("src/f{n}.rs"))).collect();
    let mut page = |n: usize| {
        let req = SearchRequest {
            page: Some(n),
            page_size: Some(3),
            ..Default::default()
        };
        let p = plan(&mut state, &id, &req, Preset::FileSearch, now()).unwrap();
        let w = p.options.pagination;
        let items: Vec<FileItem> = ranking
            .iter()
            .skip(w.offset)
            .take(w.limit)
            .cloned()
            .collect();
        let result = SearchResult {
            scores: items.iter().map(|_| score(1)).collect(),
            match_byte_offsets: Vec::new(),
            items,
            total_matched: ranking.len(),
            total_files: ranking.len(),
            location: None,
        };
        search(&p, Answer::Done(result), '/').unwrap()
    };
    let replies: Vec<_> = [0, 1, 2, 3, usize::MAX].iter().map(|n| page(*n)).collect();
    let mut seen: Vec<String> = Vec::new();
    for r in &replies {
        assert_eq!(
            r.total_matched, 7,
            "the total must not shift between pages of one query"
        );
        seen.extend(r.items.iter().map(|h| h.item.relative_path.clone()));
    }
    let more: Vec<bool> = replies.iter().map(|r| r.has_more).collect();
    assert_eq!(more, vec![true, true, false, false, false]);
    assert_eq!(seen.len(), 7);
    seen.sort();
    seen.dedup();
    assert_eq!(seen.len(), 7, "pages overlap");
}
