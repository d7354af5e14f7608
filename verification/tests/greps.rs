use fff_server::clock::Duration;
use fff_server::config::{Config, Machine};
use fff_server::dto::base64::{base64_decode, base64_encode};
use fff_server::dto::grep::{
    CasingDto, GrepCursor, GrepModeDto, GrepPreset, GrepRequest, MultiGrepRequest,
};
use fff_server::engine::{Casing, Constraint, FileItem, GrepMatch, GrepMode, GrepResult};
use fff_server::error::EngineError;
use fff_server::paths::{canonicalize_root, FoundRoot, RootProbe};
use fff_server::routes::grep::{
    check_patterns, grep, mode_name, multi_grep, parse_constraints, parse_with, plan_grep,
    plan_multi_grep, to_response,
};
use fff_server::routes::Answer;
use fff_server::state::AppState;
use fff_server::workspace::{Birth, BuildOutcome, CreateWorkspace};

#[test]
fn cursors_round_trip() {
    for offset in [0usize, 1, 7, 544, 86_936, usize::from(u16::MAX)] {
        let c = GrepCursor::from_offset(offset);
        assert_eq!(c.offset().unwrap(), offset, "round trip for {offset}");
    }
}

#[test]
fn the_largest_offset_round_trips() {
    for offset in [usize::MAX, usize::MAX - 1, usize::MAX / 10, 1 << 40] {
        assert_eq!(GrepCursor::from_offset(offset).offset().unwrap(), offset);
    }
}

#[test]
fn cursors_are_opaque_not_the_bare_number() {
    // Opaque so the encoding can change later without breaking clients that only round-trip the
    // value.
    let c = GrepCursor::from_offset(544);
    let json = c.token();
    assert!(!json.contains("544"), "cursor leaked its offset: {json}");
    assert_eq!(json, "NTQ0");
}

#[test]
fn a_corrupt_cursor_is_a_bad_request() {
    let c = GrepCursor::from_token("!!!not-base64!!!".to_string());
    let err = c.offset().unwrap_err();
    assert_eq!(err.problem().status, 400);
    assert_eq!(err.to_string(), "cursor is not a valid token");
}

#[test]
fn only_numbers_that_fit_are_cursors() {
    let offset = |text: &str| GrepCursor::from_token(base64_encode(text.as_bytes())).offset();
    assert_eq!(offset("+42").unwrap(), 42);
    assert_eq!(offset("0042").unwrap(), 42);
    for bad in ["", "+", "-1", "4 2", "12a", "18446744073709551616", "++1"] {
        assert!(offset(bad).is_err(), "{bad:?}");
    }
    // Not text at all.
    let bytes = base64_encode(&[0xff, 0xfe]);
    assert!(GrepCursor::from_token(bytes).offset().is_err());
}

#[test]
fn base64_is_url_safe_and_unpadded() {
    assert_eq!(base64_encode(b""), "");
    assert_eq!(base64_encode(b"f"), "Zg");
    assert_eq!(base64_encode(b"fo"), "Zm8");
    assert_eq!(base64_encode(b"foo"), "Zm9v");
    assert_eq!(base64_encode(b"foobar"), "Zm9vYmFy");
    assert_eq!(base64_encode(&[0xfb, 0xff, 0xfe]), "-__-");
    assert_eq!(base64_decode("-__-").unwrap(), vec![0xfb, 0xff, 0xfe]);
    assert_eq!(base64_decode("Zm8").unwrap(), b"fo".to_vec());
    // A lone character still yields a byte.
    assert_eq!(base64_decode("Z").unwrap(), vec![0x64]);
    for bad in ["Zg==", "a b", "+/", "é"] {
        assert!(base64_decode(bad).is_none(), "{bad}");
    }
    for n in 0..=255u8 {
        let bytes = vec![n, 255 - n, n / 3, n];
        for len in 0..=4 {
            let part = &bytes[..len];
            assert_eq!(base64_decode(&base64_encode(part)).unwrap(), part.to_vec());
        }
    }
}

#[test]
fn auto_mode_picks_regex_only_for_metacharacters() {
    assert_eq!(GrepModeDto::Auto.resolve("TODO"), GrepMode::PlainText);
    assert_eq!(GrepModeDto::Auto.resolve("fn \\w+"), GrepMode::Regex);
    // Explicit modes are never second-guessed.
    assert_eq!(GrepModeDto::Plain.resolve("fn \\w+"), GrepMode::PlainText);
    assert_eq!(GrepModeDto::Regex.resolve("TODO"), GrepMode::Regex);
    assert_eq!(GrepModeDto::Fuzzy.resolve("fn \\w+"), GrepMode::Fuzzy);
}

#[test]
fn each_metacharacter_is_one() {
    for c in "\\.+*?()|[]{}^$#&-~".chars() {
        assert_eq!(
            GrepModeDto::Auto.resolve(&format!("a{c}b")),
            GrepMode::Regex,
            "{c}"
        );
    }
    assert_eq!(
        GrepModeDto::Auto.resolve("a b_c:d;e<f>g,h/i!j@k%l=m\"n'é"),
        GrepMode::PlainText
    );
    assert_eq!(GrepModeDto::Auto.resolve(""), GrepMode::PlainText);
}

#[test]
fn mode_names_match_the_wire_enum() {
    assert_eq!(mode_name(GrepMode::PlainText), "plain");
    assert_eq!(mode_name(GrepMode::Regex), "regex");
    assert_eq!(mode_name(GrepMode::Fuzzy), "fuzzy");
    // And the dto resolves to modes whose names are all covered above.
    for dto in [
        GrepModeDto::Plain,
        GrepModeDto::Regex,
        GrepModeDto::Fuzzy,
        GrepModeDto::Auto,
    ] {
        let _ = mode_name(dto.resolve("x"));
    }
}

#[test]
fn casing_maps_one_for_one() {
    assert_eq!(Casing::from(CasingDto::Smart), Casing::Smart);
    assert_eq!(Casing::from(CasingDto::Sensitive), Casing::Sensitive);
    assert_eq!(Casing::from(CasingDto::Insensitive), Casing::Insensitive);
    assert_eq!(CasingDto::default(), CasingDto::Smart);
    assert_eq!(GrepModeDto::default(), GrepModeDto::Plain);
    assert_eq!(GrepPreset::default(), GrepPreset::Grep);
}

#[test]
fn constraint_fields_hold_no_pattern_text() {
    let c = parse_constraints("*.rs plain !tests/", GrepPreset::Grep);
    assert_eq!(c.len(), 2, "plain text is no constraint");
    assert!(matches!(c[0], Constraint::Extension("rs")));
    assert!(matches!(&c[1], Constraint::Not(i) if matches!(**i, Constraint::PathSegment("tests"))));
    assert!(parse_constraints("score.rs", GrepPreset::Grep).is_empty());
    assert!(matches!(
        parse_constraints("score.rs", GrepPreset::AiGrep)[0],
        Constraint::FilePath("score.rs")
    ));
    assert!(parse_constraints("  ", GrepPreset::AiGrep).is_empty());
    assert_eq!(parse_with("*.rs x", GrepPreset::Grep).constraints.len(), 1);
    assert_eq!(
        parse_with("score.rs x", GrepPreset::AiGrep).constraints.len(),
        1
    );
}

fn state() -> (AppState, String) {
    let mut state = AppState::new(Config::default());
    let root = canonicalize_root(
        "/repo",
        &RootProbe::Found(FoundRoot {
            canonical: "/repo".to_string(),
            is_dir: true,
            has_parent: true,
            file_id: None,
        }),
    )
    .unwrap();
    let id = fff_server::paths::stable_id(&root.identity);
    let built = BuildOutcome::Built {
        index: None,
        elapsed: Duration::from_millis(250),
    };
    let birth = Birth {
        origin: Duration::from_secs(0),
        created_at: Duration::from_secs(1_700_000_000),
        unix_now: 1_700_000_000,
    };
    state
        .pool
        .create_blocking(
            root,
            &CreateWorkspace::default(),
            built,
            birth,
            Duration::from_secs(1),
            &machine(),
        )
        .unwrap();
    (state, id)
}

fn machine() -> Machine {
    Machine {
        data_dir: None,
        temp_dir: "/tmp".to_string(),
        separator: '/',
    }
}

fn now() -> Duration {
    Duration::from_secs(2)
}

#[test]
fn grep_options_fall_back_to_configuration_and_engine() {
    let (mut state, id) = state();
    let req = GrepRequest {
        query: "*.rs TODO".to_string(),
        ..Default::default()
    };
    let plan = plan_grep(&mut state, &id, &req, now()).unwrap();
    let o = plan.options;
    assert_eq!(o.max_file_size, 10 * 1024 * 1024);
    assert_eq!(o.max_matches_per_file, 200);
    assert!(o.smart_case);
    assert_eq!(o.casing, Some(Casing::Smart));
    assert_eq!(o.file_offset, 0);
    assert_eq!(o.page_limit, 50);
    assert_eq!(o.mode, GrepMode::PlainText);
    assert_eq!(o.time_budget_ms, 0);
    assert!(!o.enforce_time_budget);
    assert_eq!((o.before_context, o.after_context), (0, 0));
    assert!(!o.classify_definitions && !o.trim_whitespace);
    assert_eq!(plan.display, "/repo");

    let req = GrepRequest {
        query: r"*.rs fn \w+".to_string(),
        mode: GrepModeDto::Auto,
        casing: CasingDto::Sensitive,
        cursor: Some(GrepCursor::from_offset(544)),
        page_size: Some(0),
        max_file_size: Some(7),
        max_matches_per_file: Some(8),
        before_context: Some(1),
        after_context: Some(2),
        classify_definitions: true,
        trim_whitespace: true,
        time_budget_ms: Some(9),
        enforce_time_budget: true,
        ..Default::default()
    };
    let o = plan_grep(&mut state, &id, &req, now()).unwrap().options;
    assert_eq!(o.max_file_size, 7);
    assert_eq!(o.max_matches_per_file, 8);
    assert_eq!(o.casing, Some(Casing::Sensitive));
    assert_eq!(o.file_offset, 544);
    assert_eq!(o.page_limit, 1, "a page holds at least one match");
    assert_eq!(o.mode, GrepMode::Regex);
    assert_eq!(o.time_budget_ms, 9);
    assert!(o.enforce_time_budget);
    assert_eq!((o.before_context, o.after_context), (1, 2));
    assert!(o.classify_definitions && o.trim_whitespace);
}

#[test]
fn auto_mode_ignores_constraint_tokens() {
    let (mut state, id) = state();
    let req = GrepRequest {
        query: "src/**/*.rs needle".to_string(),
        mode: GrepModeDto::Auto,
        ..Default::default()
    };
    let o = plan_grep(&mut state, &id, &req, now()).unwrap().options;
    assert_eq!(o.mode, GrepMode::PlainText);
}

#[test]
fn a_corrupt_cursor_is_rejected_as_problem_json() {
    let (mut state, id) = state();
    let req = GrepRequest {
        query: "needle".to_string(),
        cursor: Some(GrepCursor::from_token("!!!not-a-cursor!!!".to_string())),
        ..Default::default()
    };
    let problem = plan_grep(&mut state, &id, &req, now())
        .err()
        .unwrap()
        .problem();
    assert_eq!(problem.status, 400);
    assert_eq!(
        problem.problem_type,
        "urn:fff-server:error:invalid-request-body"
    );
    // A workspace that is not there is reported first.
    let problem = plan_grep(&mut state, "nope", &req, now())
        .err()
        .unwrap()
        .problem();
    assert_eq!(problem.status, 404);
    assert_eq!(
        problem.detail.as_deref(),
        Some("no workspace with id \"nope\"")
    );
}

#[test]
fn multi_grep_rejects_empty_input() {
    let (mut state, id) = state();
    let req = MultiGrepRequest::default();
    let problem = plan_multi_grep(&mut state, &id, &req, now())
        .err()
        .unwrap()
        .problem();
    assert_eq!(problem.status, 400);
    assert_eq!(problem.code, "invalid-request-body");

    let req = MultiGrepRequest {
        patterns: vec!["ok".to_string(), "".to_string()],
        ..Default::default()
    };
    let problem = plan_multi_grep(&mut state, &id, &req, now())
        .err()
        .unwrap()
        .problem();
    assert_eq!(
        problem.status, 400,
        "an empty pattern would match every line"
    );
    assert_eq!(
        problem.detail.as_deref(),
        Some("patterns[1] is empty; an empty pattern would match every line")
    );
}

#[test]
fn the_first_empty_pattern_is_named() {
    let patterns = |v: &[&str]| v.iter().map(|s| s.to_string()).collect::<Vec<String>>();
    assert!(check_patterns(&patterns(&["a", " "])).is_ok());
    let err = check_patterns(&patterns(&["a", "b", "", ""])).unwrap_err();
    assert!(err.to_string().starts_with("patterns[2] is empty"));
    let err = check_patterns(&patterns(&[])).unwrap_err();
    assert_eq!(err.to_string(), "patterns must contain at least one entry");
}

#[test]
fn multi_grep_is_always_literal() {
    let (mut state, id) = state();
    let req = MultiGrepRequest {
        patterns: vec![r"fn \w+".to_string()],
        page_size: Some(100),
        cursor: Some(GrepCursor::from_offset(3)),
        ..Default::default()
    };
    let plan = plan_multi_grep(&mut state, &id, &req, now()).unwrap();
    assert_eq!(plan.options.mode, GrepMode::PlainText);
    assert_eq!(plan.options.page_limit, 100);
    assert_eq!(plan.options.file_offset, 3);
    let reply = multi_grep(&plan, Answer::Done(result(0)), false, '/').unwrap();
    assert_eq!(reply.mode, "plain");
    let bad = MultiGrepRequest {
        cursor: Some(GrepCursor::from_token("?".to_string())),
        ..req
    };
    let err = plan_multi_grep(&mut state, &id, &bad, now()).err().unwrap();
    assert_eq!(err.to_string(), "cursor is not a valid token");
}

fn result(next_file_offset: usize) -> GrepResult {
    let line = "⍝ the needle";
    GrepResult {
        matches: vec![GrepMatch {
            file_index: 0,
            line_number: 12,
            col: 8,
            byte_offset: 345,
            line_content: line.to_string(),
            match_byte_offsets: vec![(8, 14)],
            fuzzy_score: Some(5),
            is_definition: true,
            context_before: vec!["before".to_string()],
            context_after: vec!["after 1".to_string(), "after 2".to_string()],
        }],
        files: vec![FileItem {
            relative_path: "docs/unicode.txt".to_string(),
            file_name: "unicode.txt".to_string(),
            directory: "docs/".to_string(),
            size: 1,
            modified: 2,
            is_binary: false,
            access_frecency_score: 0,
            modification_frecency_score: 0,
            git_recency_score: 0,
            git_status: None,
        }],
        total_files_searched: 3,
        total_files: 9,
        filtered_file_count: 4,
        files_with_matches: 1,
        next_file_offset,
        regex_fallback_error: Some("unclosed group".to_string()),
        literal_fallback: true,
    }
}

#[test]
fn matches_are_reported_in_utf16() {
    let r = to_response(&result(0), "/repo", '/', "regex", true);
    let m = &r.matches[0];
    assert_eq!(m.col_utf16, 6, "byte column 8 is UTF-16 column 6");
    assert_eq!(
        (
            m.match_ranges_utf16[0].start,
            m.match_ranges_utf16[0].end
        ),
        (6, 12)
    );
    let units: Vec<u16> = m.line_content.encode_utf16().collect();
    assert_eq!(String::from_utf16(&units[6..12]).unwrap(), "needle");
    assert_eq!(m.byte_offset, 345, "stays a byte count");
    assert_eq!(m.line_number, 12);
    assert_eq!(m.fuzzy_score, Some(5));
    assert!(m.is_definition);
    assert_eq!(m.context_before, vec!["before"]);
    assert_eq!(m.context_after, vec!["after 1", "after 2"]);
    assert_eq!(r.files[m.file_index].absolute_path, "/repo/docs/unicode.txt");
    assert_eq!(r.total_matched, 1);
    assert_eq!(r.total_files_searched, 3);
    assert_eq!(r.total_files, 9);
    assert_eq!(r.filtered_file_count, 4);
    assert_eq!(r.files_with_matches, 1);
    assert!(r.next_cursor.is_none());
    assert_eq!(r.regex_fallback_error.as_deref(), Some("unclosed group"));
    assert!(r.literal_fallback);
    assert_eq!(r.mode, "regex");
    assert!(r.aborted);
}

#[test]
fn the_next_cursor_continues_the_search() {
    let (mut state, id) = state();
    let r = to_response(&result(544), "/repo", '/', "plain", false);
    let req = GrepRequest {
        query: "needle".to_string(),
        cursor: r.next_cursor,
        ..Default::default()
    };
    let plan = plan_grep(&mut state, &id, &req, now()).unwrap();
    assert_eq!(plan.options.file_offset, 544);
}

#[test]
fn grep_reports_what_the_engine_could_not_do() {
    let (mut state, id) = state();
    let req = GrepRequest {
        query: "x".to_string(),
        mode: GrepModeDto::Fuzzy,
        ..Default::default()
    };
    let plan = plan_grep(&mut state, &id, &req, now()).unwrap();
    let err = grep(&plan, Answer::Missing, false, '/').unwrap_err();
    assert_eq!(err.problem().status, 503);
    assert_eq!(err.to_string(), "index is still building");
    let failed = Answer::Failed(EngineError::Other("lock poisoned".to_string()));
    assert_eq!(grep(&plan, failed, false, '/').unwrap_err().problem().status, 500);
    let reply = grep(&plan, Answer::Done(result(0)), false, '/').unwrap();
    assert_eq!(reply.mode, "fuzzy");
    assert!(!reply.aborted);
    let err = multi_grep(&plan, Answer::Missing, false, '/').unwrap_err();
    assert_eq!(err.problem().code, "index-not-ready");
}

/// A search over six files with these many matches each, a page of which stops once it has
/// `limit` of them.
fn page_of(counts: &[usize], from: usize, limit: usize) -> GrepResult {
    let template = result(0);
    let mut page = GrepResult {
        matches: Vec::new(),
        files: Vec::new(),
        next_file_offset: 0,
        ..template.clone()
    };
    for (n, count) in counts.iter().enumerate().skip(from) {
        if *count > 0 {
            let mut file = template.files[0].clone();
            file.relative_path = format!("f{n}");
            page.files.push(file);
        }
        for line in 0..*count {
            let mut m = template.matches[0].clone();
            m.file_index = page.files.len() - 1;
            m.line_number = line as u64;
            page.matches.push(m);
        }
        if page.matches.len() >= limit && n + 1 < counts.len() {
            page.next_file_offset = n + 1;
            break;
        }
    }
    page
}

#[test]
fn cursor_paging_covers_everything_exactly_once() {
    let counts = [2, 0, 3, 1, 0, 4];
    for limit in 1..=11 {
        let (mut state, id) = state();
        let mut req = GrepRequest {
            query: "e".to_string(),
            page_size: Some(limit),
            ..Default::default()
        };
        let mut seen = Vec::new();
        let mut pages = 0;
        loop {
            let plan = plan_grep(&mut state, &id, &req, now()).unwrap();
            let found = page_of(&counts, plan.options.file_offset, plan.options.page_limit);
            let reply = grep(&plan, Answer::Done(found), false, '/').unwrap();
            pages += 1;
            for m in &reply.matches {
                let file = reply.files[m.file_index].relative_path.clone();
                seen.push((file, m.line_number, m.col_utf16));
            }
            req.cursor = reply.next_cursor;
            if req.cursor.is_none() {
                break;
            }
            assert!(pages < 200, "paging failed to terminate");
        }
        assert_eq!(seen.len(), 10, "page size {limit}");
        let mut unique = seen.clone();
        unique.sort();
        unique.dedup();
        assert_eq!(
            unique.len(),
            seen.len(),
            "paging returned the same match more than once"
        );
        if limit == 1 {
            assert!(pages > 1, "page size 1 should force several pages");
        }
    }
}
