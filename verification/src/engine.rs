//! The engine's side of the boundary: plain records for what it takes and returns, and the calls
//! into it that need no index.

use crate::text::trimmed;
use fff_query_parser::Constraint as ParserConstraint;
use fff_query_parser::FuzzyQuery as ParserFuzzy;
use fff_query_parser::GitStatusFilter as ParserFilter;
use fff_query_parser::Location as ParserLocation;
use fff_query_parser::{
    AiGrepConfig, DirSearchConfig, FFFQuery, FileSearchConfig, GrepConfig, MixedSearchConfig,
    QueryParser,
};
use vstd::prelude::*;

verus! {

// ---------------------------------------------------------------------------------------------
// Queries.
// ---------------------------------------------------------------------------------------------

/// The git status categories the engine can filter on.
#[derive(Debug, Clone, Copy, PartialEq, Eq, Structural)]
pub enum GitStatusFilter {
    Modified,
    Untracked,
    Staged,
    Unmodified,
}

/// One constraint of a query, borrowing its text from the query string.
#[derive(Debug)]
pub enum Constraint<'a> {
    /// A file extension, without a dot.
    Extension(&'a str),
    /// A glob pattern.
    Glob(&'a str),
    /// Several text parts, all of which must match.
    Parts(&'a [&'a str]),
    /// Literal text a path must contain.
    Text(&'a str),
    /// Terms to exclude.
    Exclude(&'a [&'a str]),
    /// A path segment a result must sit under.
    PathSegment(&'a str),
    /// A file path suffix.
    FilePath(&'a str),
    /// One of the engine's file-type names.
    FileType(&'a str),
    /// A git status category.
    GitStatus(GitStatusFilter),
    /// The opposite of the inner constraint.
    Not(Box<Constraint<'a>>),
}

/// What is left of a query once its constraints are taken out.
#[derive(Debug)]
pub enum FuzzyQuery<'a> {
    /// Several terms.
    Parts(Vec<&'a str>),
    /// One term.
    Text(&'a str),
    /// No term.
    Empty,
}

/// A `file.ts:42:10` suffix of a query.
#[derive(Debug, Clone, Copy, PartialEq, Eq)]
pub enum Location {
    Line(i32),
    Range { start: (i32, i32), end: (i32, i32) },
    Position { line: i32, col: i32 },
}

/// A query as the engine searches with it.
#[derive(Debug)]
pub struct Query<'a> {
    /// The query string before parsing.
    pub raw_query: &'a str,
    pub constraints: Vec<Constraint<'a>>,
    pub fuzzy_query: FuzzyQuery<'a>,
    pub location: Option<Location>,
}

/// Which parser preset reads a query. The presets differ in which constraints they recognise, so
/// the same string can mean different things.
#[derive(Debug, Clone, Copy, PartialEq, Eq, Structural)]
pub enum ParsePreset {
    FileSearch,
    DirSearch,
    MixedSearch,
    Grep,
    AiGrep,
}

impl Default for ParsePreset {
    fn default() -> (r: Self)
        ensures
            r == ParsePreset::FileSearch,
    {
        ParsePreset::FileSearch
    }
}

/// A constraint without its negations.
pub enum Atom {
    Extension(Seq<char>),
    Glob(Seq<char>),
    Parts(Seq<Seq<char>>),
    Text(Seq<char>),
    Exclude(Seq<Seq<char>>),
    PathSegment(Seq<char>),
    FilePath(Seq<char>),
    FileType(Seq<char>),
    GitStatus(GitStatusFilter),
}

/// A constraint: how many negations stand in front, and what they negate.
pub struct ConstraintView {
    pub negations: nat,
    pub atom: Atom,
}

/// The terms of a query.
pub enum FuzzyView {
    Parts(Seq<Seq<char>>),
    Text(Seq<char>),
    Empty,
}

/// A query: its text, its constraints in order, its terms, its location.
pub struct QueryView {
    pub raw_query: Seq<char>,
    pub constraints: Seq<ConstraintView>,
    pub fuzzy: FuzzyView,
    pub location: Option<Location>,
}

/// The contents of borrowed strings.
pub open spec fn str_texts(v: Seq<&str>) -> Seq<Seq<char>> {
    v.map_values(|s: &str| s@)
}

/// What a constraint says.
pub open spec fn constraint_view(c: Constraint) -> ConstraintView
    decreases c,
{
    match c {
        Constraint::Extension(v) => ConstraintView { negations: 0, atom: Atom::Extension(v@) },
        Constraint::Glob(v) => ConstraintView { negations: 0, atom: Atom::Glob(v@) },
        Constraint::Parts(v) => ConstraintView { negations: 0, atom: Atom::Parts(str_texts(v@)) },
        Constraint::Text(v) => ConstraintView { negations: 0, atom: Atom::Text(v@) },
        Constraint::Exclude(v) => ConstraintView {
            negations: 0,
            atom: Atom::Exclude(str_texts(v@)),
        },
        Constraint::PathSegment(v) => ConstraintView { negations: 0, atom: Atom::PathSegment(v@) },
        Constraint::FilePath(v) => ConstraintView { negations: 0, atom: Atom::FilePath(v@) },
        Constraint::FileType(v) => ConstraintView { negations: 0, atom: Atom::FileType(v@) },
        Constraint::GitStatus(g) => ConstraintView { negations: 0, atom: Atom::GitStatus(g) },
        Constraint::Not(inner) => {
            let v = constraint_view(*inner);
            ConstraintView { negations: v.negations + 1, atom: v.atom }
        },
    }
}

impl<'a> View for Constraint<'a> {
    type V = ConstraintView;

    open spec fn view(&self) -> ConstraintView {
        constraint_view(*self)
    }
}

/// What a list of constraints says.
pub open spec fn constraint_views(v: Seq<Constraint>) -> Seq<ConstraintView> {
    v.map_values(|c: Constraint| constraint_view(c))
}

impl<'a> View for FuzzyQuery<'a> {
    type V = FuzzyView;

    open spec fn view(&self) -> FuzzyView {
        match *self {
            FuzzyQuery::Parts(v) => FuzzyView::Parts(str_texts(v@)),
            FuzzyQuery::Text(v) => FuzzyView::Text(v@),
            FuzzyQuery::Empty => FuzzyView::Empty,
        }
    }
}

impl<'a> View for Query<'a> {
    type V = QueryView;

    open spec fn view(&self) -> QueryView {
        QueryView {
            raw_query: self.raw_query@,
            constraints: constraint_views(self.constraints@),
            fuzzy: self.fuzzy_query@,
            location: self.location,
        }
    }
}

/// The query parser's `Constraint`.
#[verifier::external_type_specification]
#[verifier::external_body]
pub struct ExConstraint<'a>(ParserConstraint<'a>);

/// The query parser's `GitStatusFilter`.
#[verifier::external_type_specification]
#[verifier::external_body]
pub struct ExGitStatusFilter(ParserFilter);

/// The query parser's `FuzzyQuery`.
#[verifier::external_type_specification]
#[verifier::external_body]
pub struct ExFuzzyQuery<'a>(ParserFuzzy<'a>);

/// The query parser's `Location`.
#[verifier::external_type_specification]
#[verifier::external_body]
pub struct ExLocation(ParserLocation);

/// Hands out a `fff_query_parser::GitStatusFilter`, variant for variant. Nothing is claimed of
/// the result here: what the parser returns is stated where the parser is called.
#[verifier::external_body]
fn filter_of(g: ParserFilter) -> GitStatusFilter {
    match g {
        ParserFilter::Modified => GitStatusFilter::Modified,
        ParserFilter::Untracked => GitStatusFilter::Untracked,
        ParserFilter::Staged => GitStatusFilter::Staged,
        ParserFilter::Unmodified => GitStatusFilter::Unmodified,
    }
}

/// Hands out a `fff_query_parser::Constraint`, variant for variant. Nothing is claimed of the
/// result here: what the parser returns is stated where the parser is called.
#[verifier::external_body]
fn constraint_of<'a>(c: ParserConstraint<'a>) -> Constraint<'a> {
    match c {
        ParserConstraint::Extension(v) => Constraint::Extension(v),
        ParserConstraint::Glob(v) => Constraint::Glob(v),
        ParserConstraint::Parts(v) => Constraint::Parts(v),
        ParserConstraint::Text(v) => Constraint::Text(v),
        ParserConstraint::Exclude(v) => Constraint::Exclude(v),
        ParserConstraint::PathSegment(v) => Constraint::PathSegment(v),
        ParserConstraint::FilePath(v) => Constraint::FilePath(v),
        ParserConstraint::FileType(v) => Constraint::FileType(v),
        ParserConstraint::GitStatus(g) => Constraint::GitStatus(filter_of(g)),
        ParserConstraint::Not(inner) => Constraint::Not(Box::new(constraint_of(*inner))),
    }
}

/// Hands out a `fff_query_parser::FuzzyQuery`, variant for variant. Nothing is claimed of the
/// result here: what the parser returns is stated where the parser is called.
#[verifier::external_body]
fn fuzzy_of<'a>(q: ParserFuzzy<'a>) -> FuzzyQuery<'a> {
    match q {
        ParserFuzzy::Parts(v) => FuzzyQuery::Parts(v),
        ParserFuzzy::Text(v) => FuzzyQuery::Text(v),
        ParserFuzzy::Empty => FuzzyQuery::Empty,
    }
}

/// Hands out a `fff_query_parser::Location`, variant for variant. Nothing is claimed of the
/// result here: what the parser returns is stated where the parser is called.
#[verifier::external_body]
fn location_of(l: ParserLocation) -> Location {
    match l {
        ParserLocation::Line(line) => Location::Line(line),
        ParserLocation::Range { start, end } => Location::Range { start, end },
        ParserLocation::Position { line, col } => Location::Position { line, col },
    }
}

/// How the query parser decomposes `text` with a preset.
pub uninterp spec fn parsed_query(preset: ParsePreset, text: Seq<char>) -> QueryView;

/// `fff_query_parser::QueryParser::parse`, with the configuration the preset names. The query it
/// returns depends on the preset and the text alone. It keeps the text it was given, and blank
/// text gives a query that asks for nothing in particular. How other text is decomposed is left to
/// the name `parsed_query`.
#[verifier::external_body]
pub(crate) fn parse<'a>(text: &'a str, preset: ParsePreset) -> (r: Query<'a>)
    ensures
        r@ == parsed_query(preset, text@),
        r.raw_query@ == text@,
        trimmed(text@).len() == 0 ==> r.constraints@.len() == 0 && r.fuzzy_query is Empty
            && r.location is None,
{
    let q = match preset {
        ParsePreset::FileSearch => QueryParser::new(FileSearchConfig).parse(text),
        ParsePreset::DirSearch => QueryParser::new(DirSearchConfig).parse(text),
        ParsePreset::MixedSearch => QueryParser::new(MixedSearchConfig).parse(text),
        ParsePreset::Grep => QueryParser::new(GrepConfig).parse(text),
        ParsePreset::AiGrep => QueryParser::new(AiGrepConfig).parse(text),
    };
    Query {
        raw_query: q.raw_query,
        constraints: q.constraints.into_iter().map(constraint_of).collect(),
        fuzzy_query: fuzzy_of(q.fuzzy_query),
        location: q.location.map(location_of),
    }
}

/// The constraints that the query parser reads from `text` with a grep preset, `ai` or not.
pub uninterp spec fn parsed_constraints(ai: bool, text: Seq<char>) -> Seq<ConstraintView>;

/// `fff_query_parser::QueryParser::parse_constraints`, with `AiGrepConfig` or `GrepConfig`. The
/// constraints depend on that choice and the text alone; blank text holds none. Which token
/// becomes which constraint is left to the name `parsed_constraints`.
#[verifier::external_body]
pub(crate) fn parse_constraints<'a>(text: &'a str, ai: bool) -> (r: Vec<Constraint<'a>>)
    ensures
        constraint_views(r@) == parsed_constraints(ai, text@),
        trimmed(text@).len() == 0 ==> r@.len() == 0,
{
    let found = match ai {
        true => QueryParser::new(AiGrepConfig).parse_constraints(text),
        false => QueryParser::new(GrepConfig).parse_constraints(text),
    };
    found.into_iter().map(constraint_of).collect()
}

/// A term with the backslash removed that kept the parser from reading it as a constraint.
pub open spec fn unescaped(t: Seq<char>) -> Seq<char> {
    if t.len() > 1 && t[0] == '\\' && (t[1] == '*' || t[1] == '/' || t[1] == '!') {
        t.skip(1)
    } else {
        t
    }
}

/// The texts with a space between each two.
pub open spec fn joined_by_space(v: Seq<Seq<char>>) -> Seq<char>
    decreases v.len(),
{
    if v.len() == 0 {
        seq![]
    } else if v.len() == 1 {
        v[0]
    } else {
        joined_by_space(v.drop_last()) + seq![' '] + v.last()
    }
}

/// The text a grep searches for: the terms without their escapes, joined by spaces.
pub open spec fn grep_text_of(q: FuzzyView) -> Seq<char> {
    match q {
        FuzzyView::Empty => seq![],
        FuzzyView::Text(t) => unescaped(t),
        FuzzyView::Parts(v) => joined_by_space(v.map_values(|t: Seq<char>| unescaped(t))),
    }
}

/// `fff_query_parser::FFFQuery::grep_text`, which reads only the query's terms: each loses the
/// backslash that escapes a leading `*`, `/` or `!`, and they are joined by single spaces.
#[verifier::external_body]
pub(crate) fn grep_text(terms: &FuzzyQuery<'_>) -> (r: String)
    ensures
        r@ == grep_text_of(terms@),
{
    let fuzzy_query = match terms {
        FuzzyQuery::Parts(v) => ParserFuzzy::Parts(v.clone()),
        FuzzyQuery::Text(v) => ParserFuzzy::Text(v),
        FuzzyQuery::Empty => ParserFuzzy::Empty,
    };
    FFFQuery { raw_query: "", constraints: Vec::new(), fuzzy_query, location: None }.grep_text()
}

/// The characters that mean something in a regular expression.
pub open spec fn is_regex_meta(c: char) -> bool {
    ||| c == '\\'
    ||| c == '.'
    ||| c == '+'
    ||| c == '*'
    ||| c == '?'
    ||| c == '('
    ||| c == ')'
    ||| c == '|'
    ||| c == '['
    ||| c == ']'
    ||| c == '{'
    ||| c == '}'
    ||| c == '^'
    ||| c == '$'
    ||| c == '#'
    ||| c == '&'
    ||| c == '-'
    ||| c == '~'
}

/// Whether a text holds a character that means something in a regular expression.
pub open spec fn has_regex_meta(s: Seq<char>) -> bool {
    exists|i: int| 0 <= i < s.len() && is_regex_meta(#[trigger] s[i])
}

/// `fff_search::has_regex_metacharacters`: true exactly when escaping the text for use in a
/// regular expression would change it, so when it holds one of the characters listed.
pub assume_specification[ fff_search::has_regex_metacharacters ](text: &str) -> (b: bool)
    ensures
        b == has_regex_meta(text@),
;

// ---------------------------------------------------------------------------------------------
// Results.
// ---------------------------------------------------------------------------------------------

/// A file as the engine's index holds it.
#[derive(Debug, Clone)]
pub struct FileItem {
    /// Relative to the root, with forward slashes.
    pub relative_path: String,
    pub file_name: String,
    /// Parent directory, with a trailing slash. Empty at the root.
    pub directory: String,
    pub size: u64,
    /// Seconds since the Unix epoch.
    pub modified: u64,
    pub is_binary: bool,
    pub access_frecency_score: i16,
    pub modification_frecency_score: i16,
    pub git_recency_score: i16,
    /// The status bits, where the engine has a status.
    pub git_status: Option<u32>,
}

impl FileItem {
    /// Access plus modification; the recency of commits is not part of it.
    pub fn total_frecency_score(&self) -> (r: i32)
        ensures
            r == self.access_frecency_score + self.modification_frecency_score,
    {
        self.access_frecency_score as i32 + self.modification_frecency_score as i32
    }
}

/// A directory as the engine's index holds it.
#[derive(Debug, Clone)]
pub struct DirItem {
    /// Relative to the root, with forward slashes and a trailing one.
    pub relative_path: String,
    pub dir_name: String,
    /// Highest access-frecency score among the files beneath it.
    pub max_access_frecency: i32,
}

/// The engine's score of one result, in all its parts.
#[derive(Debug, Clone, Copy)]
pub struct Score {
    pub total: i32,
    pub base_score: i32,
    pub filename_bonus: i32,
    pub special_filename_bonus: i32,
    pub frecency_boost: i32,
    pub git_status_boost: i32,
    pub git_recency_boost: i32,
    pub distance_penalty: i32,
    pub current_file_penalty: i32,
    pub combo_match_boost: i32,
    pub path_alignment_bonus: i32,
    pub exact_match: bool,
    pub match_type: &'static str,
}

/// The result of a file search: three parallel lists and the counts.
#[derive(Debug, Clone)]
pub struct SearchResult {
    pub items: Vec<FileItem>,
    /// One for each item.
    pub scores: Vec<Score>,
    /// The byte ranges of the path that matched, for as many items as the engine reports them.
    pub match_byte_offsets: Vec<Vec<(u32, u32)>>,
    pub total_matched: usize,
    pub total_files: usize,
    pub location: Option<Location>,
}

/// The result of a directory search.
#[derive(Debug, Clone)]
pub struct DirSearchResult {
    pub items: Vec<DirItem>,
    /// One for each item.
    pub scores: Vec<Score>,
    pub total_matched: usize,
    pub total_dirs: usize,
}

/// A result of a mixed search.
#[derive(Debug, Clone)]
pub enum MixedItem {
    File(FileItem),
    Dir(DirItem),
}

/// The result of a mixed search.
#[derive(Debug, Clone)]
pub struct MixedSearchResult {
    pub items: Vec<MixedItem>,
    /// One for each item.
    pub scores: Vec<Score>,
    pub total_matched: usize,
    pub total_files: usize,
    pub total_dirs: usize,
    pub location: Option<Location>,
}

/// A matching line.
#[derive(Debug, Clone)]
pub struct GrepMatch {
    pub file_index: usize,
    pub line_number: u64,
    /// Byte offset of the first match within the line.
    pub col: usize,
    /// Byte offset of the line within the file.
    pub byte_offset: u64,
    pub line_content: String,
    pub match_byte_offsets: Vec<(u32, u32)>,
    pub fuzzy_score: Option<u16>,
    pub is_definition: bool,
    pub context_before: Vec<String>,
    pub context_after: Vec<String>,
}

/// The result of a content search.
#[derive(Debug, Clone)]
pub struct GrepResult {
    pub matches: Vec<GrepMatch>,
    pub files: Vec<FileItem>,
    pub total_files_searched: usize,
    pub total_files: usize,
    pub filtered_file_count: usize,
    pub files_with_matches: usize,
    /// Where to go on; 0 when there is nothing left.
    pub next_file_offset: usize,
    pub regex_fallback_error: Option<String>,
    pub literal_fallback: bool,
}

// ---------------------------------------------------------------------------------------------
// Options.
// ---------------------------------------------------------------------------------------------

/// Case handling.
#[derive(Debug, Clone, Copy, PartialEq, Eq, Structural)]
pub enum Casing {
    Smart,
    Sensitive,
    Insensitive,
}

/// How a pattern is matched.
#[derive(Debug, Clone, Copy, PartialEq, Eq, Structural)]
pub enum GrepMode {
    PlainText,
    Regex,
    Fuzzy,
}

/// Which results of a search to return.
#[derive(Debug, Clone, Copy, PartialEq, Eq, Structural)]
pub struct PaginationArgs {
    pub offset: usize,
    pub limit: usize,
}

/// What a path search is told besides its query and the workspace's base path.
#[derive(Debug, Clone)]
pub struct FuzzySearchOptions {
    pub max_threads: usize,
    pub current_file: Option<String>,
    pub combo_boost_score_multiplier: i32,
    pub min_combo_count: u32,
    pub pagination: PaginationArgs,
}

/// What a content search is told besides its query and the flag that aborts it.
#[derive(Debug, Clone, Copy)]
pub struct GrepSearchOptions {
    pub max_file_size: u64,
    pub max_matches_per_file: usize,
    pub smart_case: bool,
    pub casing: Option<Casing>,
    pub file_offset: usize,
    pub page_limit: usize,
    pub mode: GrepMode,
    pub time_budget_ms: u64,
    pub enforce_time_budget: bool,
    pub before_context: usize,
    pub after_context: usize,
    pub classify_definitions: bool,
    pub trim_whitespace: bool,
}

/// `fff_search::grep::GrepSearchOptions::default`, of which the largest file it searches and the
/// most matches it takes from one file are handed out: 10 MiB and 200.
#[verifier::external_body]
pub(crate) fn default_grep_limits() -> (r: (u64, usize))
    ensures
        r == (10_485_760u64, 200usize),
{
    let d = fff_search::grep::GrepSearchOptions::default();
    (d.max_file_size, d.max_matches_per_file)
}

/// Whom the engine ranks and watches for.
#[derive(Debug, Clone, Copy, PartialEq, Eq, Structural)]
pub enum PickerMode {
    /// A person in an editor.
    Neovim,
    /// A program.
    Ai,
}

/// How the engine looks back over recent commits.
#[derive(Debug, Clone, Copy, PartialEq, Eq, Structural)]
pub struct GitRecencyConfig {
    pub enabled: bool,
    pub max_commits: usize,
    pub max_files_per_commit: usize,
}

/// `fff_search::GitRecencyConfig::default`: on, over ten commits, leaving out those of more than
/// fifty files.
#[verifier::external_body]
pub(crate) fn default_git_recency() -> (r: GitRecencyConfig)
    ensures
        r.enabled,
        r.max_commits == 10,
        r.max_files_per_commit == 50,
{
    let d = fff_search::GitRecencyConfig::default();
    GitRecencyConfig {
        enabled: d.enabled,
        max_commits: d.max_commits,
        max_files_per_commit: d.max_files_per_commit,
    }
}

/// The caps of the engine's content cache.
#[derive(Debug, Clone, Copy, PartialEq, Eq, Structural)]
pub struct ContentCacheBudget {
    pub max_files: usize,
    pub max_bytes: u64,
    pub max_file_size: u64,
}

/// The caps that explicit ones give: an explicit 0 leaves that cap at its default, and three of
/// them leave the budget to the engine.
pub open spec fn budget_of(max_files: usize, max_bytes: u64, max_file_size: u64) -> Option<
    ContentCacheBudget,
> {
    if max_files == 0 && max_bytes == 0 && max_file_size == 0 {
        None
    } else {
        Some(
            ContentCacheBudget {
                max_files: if max_files > 0 {
                    max_files
                } else {
                    10_000
                },
                max_bytes: if max_bytes > 0 {
                    max_bytes
                } else {
                    268_435_456
                },
                max_file_size: if max_file_size > 0 {
                    max_file_size
                } else {
                    10_485_760
                },
            },
        )
    }
}

/// `fff_search::ContentCacheBudget::from_overrides`: `None` where every cap is 0, else each cap
/// that is not 0, and 10 000 files, 256 MiB and 10 MiB a file for those that are.
#[verifier::external_body]
pub(crate) fn cache_budget(max_files: usize, max_bytes: u64, max_file_size: u64) -> (r: Option<
    ContentCacheBudget,
>)
    ensures
        r == budget_of(max_files, max_bytes, max_file_size),
{
    fff_search::ContentCacheBudget::from_overrides(max_files, max_bytes, max_file_size).map(
        |b| ContentCacheBudget {
            max_files: b.max_files,
            max_bytes: b.max_bytes,
            max_file_size: b.max_file_size,
        },
    )
}

/// The text that grep searches for has all the terms, in order and with one space between each
/// two. A term loses its first character only where that is a backslash in front of `*`, `/` or
/// `!`, and is otherwise left as it is.
pub proof fn grep_searches_for_the_terms(v: Seq<Seq<char>>, t: Seq<char>)
    ensures
        grep_text_of(FuzzyView::Empty).len() == 0,
        grep_text_of(FuzzyView::Text(t)) == unescaped(t),
        grep_text_of(FuzzyView::Parts(seq![t])) == unescaped(t),
        v.len() > 0 ==> grep_text_of(FuzzyView::Parts(v.push(t))) == grep_text_of(
            FuzzyView::Parts(v),
        ) + seq![' '] + unescaped(t),
        t.len() == 0 || t[0] != '\\' ==> unescaped(t) == t,
        t.len() == 1 ==> unescaped(t) == t,
        t.len() > 1 && t[0] == '\\' && (t[1] == '*' || t[1] == '/' || t[1] == '!') ==> unescaped(t)
            == t.skip(1),
        t.len() > 1 && t[1] != '*' && t[1] != '/' && t[1] != '!' ==> unescaped(t) == t,
{
    let f = |t: Seq<char>| unescaped(t);
    assert(seq![t].map_values(f)[0] == unescaped(t));
    if v.len() > 0 {
        let w = v.push(t).map_values(f);
        assert(w.drop_last() =~= v.map_values(f));
        assert(w.last() == unescaped(t));
    }
}

/// An explicit cap of the content cache is kept, a missing one takes its default, and where all are
/// missing there is no budget.
pub proof fn explicit_caps_are_kept(max_files: usize, max_bytes: u64, max_file_size: u64)
    ensures
        budget_of(0, 0, 0) is None,
        max_files > 0 || max_bytes > 0 || max_file_size > 0 ==> (budget_of(
            max_files,
            max_bytes,
            max_file_size,
        ) matches Some(b) && {
            &&& max_files > 0 ==> b.max_files == max_files
            &&& max_files == 0 ==> b.max_files == 10_000
            &&& max_bytes > 0 ==> b.max_bytes == max_bytes
            &&& max_bytes == 0 ==> b.max_bytes == 256 * 1024 * 1024
            &&& max_file_size > 0 ==> b.max_file_size == max_file_size
            &&& max_file_size == 0 ==> b.max_file_size == 10 * 1024 * 1024
        }),
{
}

/// A constraint says what it is and what it holds, and a negation says one negation more of the
/// same.
pub proof fn constraints_say_what_they_are(c: Constraint)
    ensures
        c matches Constraint::Extension(v) ==> c@.negations == 0 && c@.atom == Atom::Extension(v@),
        c matches Constraint::Glob(v) ==> c@.negations == 0 && c@.atom == Atom::Glob(v@),
        c matches Constraint::Text(v) ==> c@.negations == 0 && c@.atom == Atom::Text(v@),
        c matches Constraint::PathSegment(v) ==> c@.negations == 0 && c@.atom == Atom::PathSegment(
            v@,
        ),
        c matches Constraint::FilePath(v) ==> c@.negations == 0 && c@.atom == Atom::FilePath(v@),
        c matches Constraint::FileType(v) ==> c@.negations == 0 && c@.atom == Atom::FileType(v@),
        c matches Constraint::GitStatus(g) ==> c@.negations == 0 && c@.atom == Atom::GitStatus(g),
        c matches Constraint::Parts(v) ==> c@.negations == 0 && (c@.atom matches Atom::Parts(p)
            && p.len() == v@.len() && forall|k: int|
            0 <= k < v@.len() ==> #[trigger] p[k] == v@[k]@),
        c matches Constraint::Exclude(v) ==> c@.negations == 0 && (
        c@.atom matches Atom::Exclude(p) && p.len() == v@.len() && forall|k: int|
            0 <= k < v@.len() ==> #[trigger] p[k] == v@[k]@),
        c matches Constraint::Not(inner) ==> c@.negations == constraint_view(*inner).negations + 1
            && c@.atom == constraint_view(*inner).atom,
{
    reveal_with_fuel(constraint_view, 2);
}

/// The frecency of a file is that of its accesses and modifications, and commits do not add to it.
pub proof fn commits_do_not_add_to_frecency(a: FileItem, b: FileItem, x: i32, y: i32)
    requires
        call_ensures(FileItem::total_frecency_score, (&a,), x),
        call_ensures(FileItem::total_frecency_score, (&b,), y),
        a.access_frecency_score == b.access_frecency_score,
        a.modification_frecency_score == b.modification_frecency_score,
    ensures
        x == y,
        x - a.access_frecency_score == a.modification_frecency_score,
{
}

} // verus!
