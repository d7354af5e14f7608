use fff_server::dto::lifecycle::{
    ConstraintDto, ConstraintType, GitStatusValue, ParsePreset, ParseQueryRequest,
};
use fff_server::engine::{Constraint, FuzzyQuery, GitStatusFilter};
use fff_server::query::{
    warnings_for, GitStatusConstraint, PreparedQuery, Preset, StructuredQuery,
};
use fff_server::routes::lifecycle::parse_query;

#[test]
fn raw_queries_are_not_folded() {
    // A grep pattern may legitimately contain backslashes; folding would corrupt it.
    let q = PreparedQuery::raw(r"\r\n", Preset::FileSearch);
    assert_eq!(q.raw, r"\r\n");
}

#[test]
fn structured_path_fields_are_folded() {
    let s = StructuredQuery {
        globs: vec![r"src\**\*.rs".into()],
        path_segments: vec![r"src\core".into()],
        ..Default::default()
    };
    let q = PreparedQuery::structured(&s, Preset::FileSearch);
    let owned = q.structured.as_ref().unwrap();
    assert_eq!(owned.globs[0], "src/**/*.rs");
    assert_eq!(owned.path_segments[0], "src/core");
}

#[test]
fn structured_text_is_not_folded() {
    let s = StructuredQuery {
        text: vec![r"C:\Windows".into()],
        ..Default::default()
    };
    let q = PreparedQuery::structured(&s, Preset::FileSearch);
    assert_eq!(q.structured.as_ref().unwrap().text[0], r"C:\Windows");
}

#[test]
fn structured_builds_the_expected_constraints() {
    let s = StructuredQuery {
        fuzzy: Some("user controller".into()),
        globs: vec!["src/**/*.rs".into()],
        extensions: vec!["rs".into()],
        exclude_path_segments: vec!["tests".into()],
        git_status: Some(GitStatusConstraint::Modified),
        ..Default::default()
    };
    let prepared = PreparedQuery::structured(&s, Preset::FileSearch);
    let q = prepared.query();

    assert_eq!(q.constraints.len(), 4);
    assert!(matches!(q.fuzzy_query, FuzzyQuery::Parts(ref p) if p.len() == 2));
    assert!(q
        .constraints
        .iter()
        .any(|c| matches!(c, Constraint::Glob("src/**/*.rs"))));
    assert!(q.constraints.iter().any(
        |c| matches!(c, Constraint::Not(inner) if matches!(**inner, Constraint::PathSegment("tests")))
    ));
    assert!(q
        .constraints
        .iter()
        .any(|c| matches!(c, Constraint::GitStatus(GitStatusFilter::Modified))));
}

#[test]
fn structured_constraints_keep_their_order() {
    let s = StructuredQuery {
        fuzzy: Some("  one\ttwo  three ".into()),
        globs: vec!["g1".into(), r"g\2".into()],
        extensions: vec!["e".into()],
        path_segments: vec![r"p\q".into()],
        file_paths: vec![r"f\g.rs".into()],
        file_types: vec!["rust".into()],
        text: vec![r"t\u".into()],
        exclude_path_segments: vec![r"x\y".into()],
        exclude_text: vec![r"z\w".into()],
        git_status: Some(GitStatusConstraint::Unmodified),
    };
    let prepared = PreparedQuery::structured(&s, Preset::MixedSearch);
    let q = prepared.query();
    let c = &q.constraints;
    assert_eq!(c.len(), 10);
    assert!(matches!(c[0], Constraint::Glob("g1")));
    assert!(matches!(c[1], Constraint::Glob("g/2")));
    assert!(matches!(c[2], Constraint::Extension("e")));
    assert!(matches!(c[3], Constraint::PathSegment("p/q")));
    assert!(matches!(c[4], Constraint::FilePath("f/g.rs")));
    assert!(matches!(c[5], Constraint::FileType("rust")));
    assert!(matches!(c[6], Constraint::Text(r"t\u")));
    assert!(
        matches!(&c[7], Constraint::Not(i) if matches!(**i, Constraint::PathSegment("x/y")))
    );
    assert!(matches!(&c[8], Constraint::Not(i) if matches!(**i, Constraint::Text(r"z\w"))));
    assert!(matches!(
        c[9],
        Constraint::GitStatus(GitStatusFilter::Unmodified)
    ));
    assert!(
        matches!(q.fuzzy_query, FuzzyQuery::Parts(ref p) if *p == vec!["one", "two", "three"])
    );
    assert_eq!(q.raw_query, "");
    assert!(q.location.is_none());
}

#[test]
fn single_fuzzy_term_is_text_not_parts() {
    let s = StructuredQuery {
        fuzzy: Some("button".into()),
        ..Default::default()
    };
    let prepared = PreparedQuery::structured(&s, Preset::FileSearch);
    assert!(matches!(
        prepared.query().fuzzy_query,
        FuzzyQuery::Text("button")
    ));
}

#[test]
fn no_fuzzy_term_is_empty() {
    for fuzzy in [None, Some(String::new()), Some(" \u{2003} ".to_string())] {
        let s = StructuredQuery {
            fuzzy,
            ..Default::default()
        };
        let prepared = PreparedQuery::structured(&s, Preset::FileSearch);
        assert!(matches!(prepared.query().fuzzy_query, FuzzyQuery::Empty));
    }
}

#[test]
fn raw_dsl_is_parsed_into_constraints() {
    let prepared = PreparedQuery::raw("*.rs button", Preset::FileSearch);
    let q = prepared.query();
    assert!(!q.constraints.is_empty(), "extension constraint expected");
    assert!(matches!(q.constraints[0], Constraint::Extension("rs")));
    assert!(matches!(q.fuzzy_query, FuzzyQuery::Text("button")));
    assert_eq!(q.raw_query, "*.rs button");
}

#[test]
fn the_preset_decides_what_a_token_means() {
    let file = PreparedQuery::raw("src/ x", Preset::FileSearch);
    assert!(matches!(
        file.query().constraints[0],
        Constraint::PathSegment("src")
    ));
    let dir = PreparedQuery::raw("src/ x", Preset::DirSearch);
    assert!(dir.query().constraints.is_empty());
    let mixed = PreparedQuery::raw("git:untracked *.rs x", Preset::MixedSearch);
    let q = mixed.query();
    assert!(matches!(
        q.constraints[0],
        Constraint::GitStatus(GitStatusFilter::Untracked)
    ));
    let dir = PreparedQuery::raw("git:untracked x", Preset::DirSearch);
    assert!(dir.query().constraints.is_empty());
}

#[test]
fn a_blank_query_asks_for_nothing_in_particular() {
    for raw in ["", "  \t "] {
        let prepared = PreparedQuery::raw(raw, Preset::FileSearch);
        let q = prepared.query();
        assert!(q.constraints.is_empty());
        assert!(matches!(q.fuzzy_query, FuzzyQuery::Empty));
        assert!(q.location.is_none());
        assert_eq!(q.raw_query, raw);
    }
}

#[test]
fn backslash_globs_are_warned_about() {
    let w = warnings_for(r"src\**\*.rs button");
    assert_eq!(w.len(), 1);
    assert!(w[0].contains("not applied as a glob"));
    assert!(w[0].starts_with(r#"glob-looking token "src\\**\\*.rs" contains a backslash. The"#));
    assert!(w[0].ends_with("where separators are folded."));
}

#[test]
fn ordinary_queries_warn_about_nothing() {
    assert!(warnings_for("src/**/*.rs button").is_empty());
    // A backslash with no glob metacharacter is probably literal text; leave it alone.
    assert!(warnings_for(r"C:\Windows").is_empty());
}

#[test]
fn each_suspect_token_has_its_own_warning() {
    let w = warnings_for("a\\*  plain\tb\\[c]\nd\\e? f* \\g");
    assert_eq!(w.len(), 3);
    assert!(w[0].contains(r#""a\\*""#));
    assert!(w[1].contains(r#""b\\[c]""#));
    assert!(w[2].contains(r#""d\\e?""#));
}

fn parsed(query: &str, preset: ParsePreset) -> fff_server::dto::lifecycle::ParseQueryResponse {
    parse_query(&ParseQueryRequest {
        query: query.to_string(),
        preset,
    })
}

#[test]
fn parse_query_exposes_negation_and_warns_about_backslash_globs() {
    let body = parsed("*.rs !tests/ widget", ParsePreset::FileSearch);
    assert_eq!(body.query, "*.rs !tests/ widget");
    assert!(body.constraints.iter().any(|c| matches!(
        c,
        ConstraintDto::Extension(e)
            if e.constraint_type == ConstraintType::Extension && e.value == "rs" && !e.negated
    )));
    assert!(
        body.constraints.iter().any(|c| matches!(
            c,
            ConstraintDto::PathSegment(p)
                if p.constraint_type == ConstraintType::PathSegment && p.negated
        )),
        "negation must be visible as a boolean"
    );
    assert_eq!(body.fuzzy_parts[0], "widget");
    assert!(body.warnings.is_empty());

    let warned = parsed(r"src\**\*.rs", ParsePreset::default());
    assert_eq!(
        warned.warnings.len(),
        1,
        "a backslash glob must be flagged rather than silently mis-parsed"
    );
}

#[test]
fn location_suffixes_are_parsed_and_returned() {
    let body = parsed("deep.rs:42:10", ParsePreset::FileSearch);
    let location = body.location.unwrap();
    assert_eq!(
        location.location_type,
        fff_server::dto::file::LocationType::Position
    );
    assert_eq!(location.line, 42);
    assert_eq!(location.col, Some(10));
    assert_eq!(body.fuzzy_parts, vec!["deep.rs"]);

    let range = parsed("deep.rs:3-9", ParsePreset::FileSearch)
        .location
        .unwrap();
    assert_eq!(
        range.location_type,
        fff_server::dto::file::LocationType::Range
    );
    assert_eq!((range.line, range.end_line), (3, Some(9)));
    // Grep presets leave such a suffix in the pattern.
    assert!(parsed("localhost:8080", ParsePreset::Grep).location.is_none());
}

#[test]
fn the_grep_text_leaves_out_constraints_and_escapes() {
    let body = parsed(r"*.rs \*ptr \w+ \!x !tests/ end", ParsePreset::Grep);
    assert_eq!(body.grep_text, r"*ptr \w+ !x end");
    assert_eq!(body.fuzzy_parts, vec![r"\*ptr", r"\w+", r"\!x", "end"]);
    assert_eq!(parsed("", ParsePreset::Grep).grep_text, "");
    assert_eq!(parsed(r"\*.rs", ParsePreset::Grep).grep_text, "*.rs");
    assert_eq!(parsed(r"\", ParsePreset::Grep).grep_text, r"\");
}

#[test]
fn the_ai_preset_scopes_by_file_name() {
    let body = parsed("score.rs needle", ParsePreset::AiGrep);
    assert!(matches!(
        &body.constraints[0],
        ConstraintDto::FilePath(f) if f.path == "score.rs" && !f.negated
    ));
    assert!(parsed("score.rs needle", ParsePreset::Grep)
        .constraints
        .is_empty());
}

#[test]
fn double_negation_is_reported_as_none() {
    let not = |c| Constraint::Not(Box::new(c));
    let once = ConstraintDto::build(&not(Constraint::Text("a")));
    assert!(matches!(once, ConstraintDto::Text(ref t) if t.negated && t.value == "a"));
    let twice = ConstraintDto::build(&not(not(Constraint::Text("a"))));
    assert!(matches!(twice, ConstraintDto::Text(ref t) if !t.negated && t.value == "a"));
    let thrice = ConstraintDto::build(&not(not(not(Constraint::Glob("b")))));
    assert!(matches!(thrice, ConstraintDto::Glob(ref g) if g.negated && g.pattern == "b"));
}

#[test]
fn every_kind_of_constraint_is_reported_as_itself() {
    let parts = ["a", "b"];
    assert!(matches!(
        ConstraintDto::build(&Constraint::Parts(&parts)),
        ConstraintDto::Parts(p)
            if p.constraint_type == ConstraintType::Parts && p.values == vec!["a", "b"]
    ));
    assert!(matches!(
        ConstraintDto::build(&Constraint::Exclude(&parts)),
        ConstraintDto::Exclude(p)
            if p.constraint_type == ConstraintType::Exclude && p.values == vec!["a", "b"]
    ));
    assert!(matches!(
        ConstraintDto::build(&Constraint::FileType("rust")),
        ConstraintDto::FileType(p)
            if p.constraint_type == ConstraintType::FileType && p.name == "rust"
    ));
    for (filter, value) in [
        (GitStatusFilter::Modified, GitStatusValue::Modified),
        (GitStatusFilter::Untracked, GitStatusValue::Untracked),
        (GitStatusFilter::Staged, GitStatusValue::Staged),
        (GitStatusFilter::Unmodified, GitStatusValue::Unmodified),
    ] {
        assert!(matches!(
            ConstraintDto::build(&Constraint::GitStatus(filter)),
            ConstraintDto::GitStatus(g)
                if g.constraint_type == ConstraintType::GitStatus && g.status == value
        ));
    }
    for (token, value) in [
        ("status:m", GitStatusValue::Modified),
        ("st:u", GitStatusValue::Untracked),
        ("g:s", GitStatusValue::Staged),
        ("git:c", GitStatusValue::Unmodified),
    ] {
        let body = parsed(token, ParsePreset::FileSearch);
        assert!(
            matches!(&body.constraints[0], ConstraintDto::GitStatus(g) if g.status == value),
            "{token}"
        );
    }
    let body = parsed("type:rust {a,b}/*.c x", ParsePreset::FileSearch);
    assert!(matches!(&body.constraints[0], ConstraintDto::FileType(t) if t.name == "rust"));
    assert!(matches!(&body.constraints[1], ConstraintDto::Glob(g) if g.pattern == "{a,b}/*.c"));
}
