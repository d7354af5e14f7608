//! Query construction.
//!
//! Two ways in:
//!
//! - a **raw DSL string**, which is what the engine's parser consumes;
//! - **structured constraints**, so a client building a query programmatically need not
//!   concatenate and escape strings.
//!
//! Separator folding (`\` to `/`) is applied **only** to the structured path-ish fields. Folding a
//! raw query would corrupt grep patterns, where a backslash is legitimate content.

use crate::engine::{
    constraint_view, constraint_views, parse, parsed_query, str_texts, Atom, Constraint,
    ConstraintView, FuzzyQuery, FuzzyView, GitStatusFilter, ParsePreset, Query, QueryView,
};
use crate::text::{
    contains_char, debug_text, fold, folded, folding_removes_backslashes, lemma_runs, leading_space,
    quoted, split_words, texts, trimmed, word_len, words,
};
use vstd::prelude::*;
use vstd::std_specs::convert::FromSpecImpl;

verus! {

/// Which parser preset to parse a raw query with.
#[derive(Debug, Clone, Copy, PartialEq, Eq, Structural)]
pub enum Preset {
    FileSearch,
    DirSearch,
    MixedSearch,
}

/// The parser's name for a search preset.
pub open spec fn parse_preset(p: Preset) -> ParsePreset {
    match p {
        Preset::FileSearch => ParsePreset::FileSearch,
        Preset::DirSearch => ParsePreset::DirSearch,
        Preset::MixedSearch => ParsePreset::MixedSearch,
    }
}

/// Git status filter, mirroring the engine's four categories.
#[derive(Debug, Clone, Copy, PartialEq, Eq, Structural)]
pub enum GitStatusConstraint {
    Modified,
    Untracked,
    Staged,
    Unmodified,
}

/// The engine's name for a git status filter.
pub open spec fn filter_for(g: GitStatusConstraint) -> GitStatusFilter {
    match g {
        GitStatusConstraint::Modified => GitStatusFilter::Modified,
        GitStatusConstraint::Untracked => GitStatusFilter::Untracked,
        GitStatusConstraint::Staged => GitStatusFilter::Staged,
        GitStatusConstraint::Unmodified => GitStatusFilter::Unmodified,
    }
}

impl From<GitStatusConstraint> for GitStatusFilter {
    fn from(g: GitStatusConstraint) -> (r: GitStatusFilter)
        ensures
            g is Modified ==> r is Modified,
            g is Untracked ==> r is Untracked,
            g is Staged ==> r is Staged,
            g is Unmodified ==> r is Unmodified,
    {
        match g {
            GitStatusConstraint::Modified => GitStatusFilter::Modified,
            GitStatusConstraint::Untracked => GitStatusFilter::Untracked,
            GitStatusConstraint::Staged => GitStatusFilter::Staged,
            GitStatusConstraint::Unmodified => GitStatusFilter::Unmodified,
        }
    }
}

impl FromSpecImpl<GitStatusConstraint> for GitStatusFilter {
    open spec fn obeys_from_spec() -> bool {
        true
    }

    open spec fn from_spec(g: GitStatusConstraint) -> GitStatusFilter {
        filter_for(g)
    }
}

/// Constraints as data, for clients that would rather not build DSL strings.
///
/// Separators are folded in `globs`, `path_segments`, `file_paths` and `exclude_path_segments`,
/// where a separator is unambiguously a separator.
#[derive(Debug, Clone, Default)]
pub struct StructuredQuery {
    /// Free-text fuzzy terms. Split on whitespace into parts, as the DSL parser would.
    pub fuzzy: Option<String>,
    /// Glob patterns, e.g. `src/**/*.rs`.
    pub globs: Vec<String>,
    /// Bare extensions, without a dot: `rs`, `md`.
    pub extensions: Vec<String>,
    /// Path segments a result must contain, e.g. `src`.
    pub path_segments: Vec<String>,
    /// Exact repo-relative file paths.
    pub file_paths: Vec<String>,
    /// Engine file-type names, e.g. `rust`.
    pub file_types: Vec<String>,
    /// Literal text a path must contain.
    pub text: Vec<String>,
    /// Path segments to exclude.
    pub exclude_path_segments: Vec<String>,
    /// Literal text to exclude.
    pub exclude_text: Vec<String>,
    pub git_status: Option<GitStatusConstraint>,
}

/// Owns the strings a [`Query`] borrows from, so a handler can build one and keep it alive across
/// the search call.
pub struct PreparedQuery {
    pub raw: String,
    pub preset: Preset,
    pub structured: Option<OwnedStructured>,
}

/// Structured constraints, ready to be borrowed from.
pub struct OwnedStructured {
    pub fuzzy_parts: Vec<String>,
    pub globs: Vec<String>,
    pub extensions: Vec<String>,
    pub path_segments: Vec<String>,
    pub file_paths: Vec<String>,
    pub file_types: Vec<String>,
    pub text: Vec<String>,
    pub exclude_path_segments: Vec<String>,
    pub exclude_text: Vec<String>,
    pub git_status: Option<GitStatusFilter>,
}

/// The texts, each with its separators folded.
pub open spec fn all_folded(v: Seq<Seq<char>>) -> Seq<Seq<char>> {
    v.map_values(|s: Seq<char>| folded(s))
}

/// The terms of a structured query.
pub open spec fn fuzzy_words(fuzzy: Option<String>) -> Seq<Seq<char>> {
    match fuzzy {
        Some(s) => words(s@),
        None => seq![],
    }
}

impl OwnedStructured {
    /// What is kept of structured constraints: paths folded, the rest as it is.
    pub open spec fn holds(self, q: StructuredQuery) -> bool {
        &&& texts(self.fuzzy_parts@) == fuzzy_words(q.fuzzy)
        &&& texts(self.globs@) == all_folded(texts(q.globs@))
        &&& texts(self.extensions@) == texts(q.extensions@)
        &&& texts(self.path_segments@) == all_folded(texts(q.path_segments@))
        &&& texts(self.file_paths@) == all_folded(texts(q.file_paths@))
        &&& texts(self.file_types@) == texts(q.file_types@)
        &&& texts(self.text@) == texts(q.text@)
        &&& texts(self.exclude_path_segments@) == all_folded(texts(q.exclude_path_segments@))
        &&& texts(self.exclude_text@) == texts(q.exclude_text@)
        &&& self.git_status == match q.git_status {
            Some(g) => Some(filter_for(g)),
            None => None,
        }
    }

    /// The constraints that structured constraints stand for, in order.
    pub open spec fn constraint_list(self) -> Seq<ConstraintView> {
        views_of(AtomKind::Glob, texts(self.globs@)) + views_of(
            AtomKind::Extension,
            texts(self.extensions@),
        ) + views_of(AtomKind::PathSegment, texts(self.path_segments@)) + views_of(
            AtomKind::FilePath,
            texts(self.file_paths@),
        ) + views_of(AtomKind::FileType, texts(self.file_types@)) + views_of(
            AtomKind::Text,
            texts(self.text@),
        ) + views_of(AtomKind::NotPathSegment, texts(self.exclude_path_segments@)) + views_of(
            AtomKind::NotText,
            texts(self.exclude_text@),
        ) + (match self.git_status {
            Some(g) => seq![ConstraintView { negations: 0, atom: Atom::GitStatus(g) }],
            None => seq![],
        })
    }

    /// The terms: none, one as text, several as parts.
    pub open spec fn terms(self) -> FuzzyView {
        let parts = texts(self.fuzzy_parts@);
        if parts.len() == 0 {
            FuzzyView::Empty
        } else if parts.len() == 1 {
            FuzzyView::Text(parts[0])
        } else {
            FuzzyView::Parts(parts)
        }
    }
}

/// The constraints that a structured field can stand for.
#[derive(Clone, Copy)]
pub enum AtomKind {
    Glob,
    Extension,
    PathSegment,
    FilePath,
    FileType,
    Text,
    NotPathSegment,
    NotText,
}

/// The constraint of one entry of a structured field.
pub open spec fn view_of(kind: AtomKind, s: Seq<char>) -> ConstraintView {
    match kind {
        AtomKind::Glob => ConstraintView { negations: 0, atom: Atom::Glob(s) },
        AtomKind::Extension => ConstraintView { negations: 0, atom: Atom::Extension(s) },
        AtomKind::PathSegment => ConstraintView { negations: 0, atom: Atom::PathSegment(s) },
        AtomKind::FilePath => ConstraintView { negations: 0, atom: Atom::FilePath(s) },
        AtomKind::FileType => ConstraintView { negations: 0, atom: Atom::FileType(s) },
        AtomKind::Text => ConstraintView { negations: 0, atom: Atom::Text(s) },
        AtomKind::NotPathSegment => ConstraintView { negations: 1, atom: Atom::PathSegment(s) },
        AtomKind::NotText => ConstraintView { negations: 1, atom: Atom::Text(s) },
    }
}

/// The constraints of a structured field.
pub open spec fn views_of(kind: AtomKind, v: Seq<Seq<char>>) -> Seq<ConstraintView> {
    v.map_values(|s: Seq<char>| view_of(kind, s))
}

/// The constraint of one entry of a structured field.
fn constraint<'a>(kind: AtomKind, s: &'a str) -> (r: Constraint<'a>)
    ensures
        constraint_view(r) == view_of(kind, s@),
{
    reveal_with_fuel(constraint_view, 3);
    match kind {
        AtomKind::Glob => Constraint::Glob(s),
        AtomKind::Extension => Constraint::Extension(s),
        AtomKind::PathSegment => Constraint::PathSegment(s),
        AtomKind::FilePath => Constraint::FilePath(s),
        AtomKind::FileType => Constraint::FileType(s),
        AtomKind::Text => Constraint::Text(s),
        AtomKind::NotPathSegment => Constraint::Not(Box::new(Constraint::PathSegment(s))),
        AtomKind::NotText => Constraint::Not(Box::new(Constraint::Text(s))),
    }
}

/// Appends the constraints of a structured field.
fn push_constraints<'a>(out: &mut Vec<Constraint<'a>>, kind: AtomKind, values: &'a Vec<String>)
    ensures
        constraint_views(final(out)@) == constraint_views(old(out)@) + views_of(
            kind,
            texts(values@),
        ),
{
    let ghost before = constraint_views(out@);
    let mut i: usize = 0;
    assert(before + views_of(kind, texts(values@).take(0)) =~= before);
    while i < values.len()
        invariant
            i <= values@.len(),
            constraint_views(out@) == before + views_of(kind, texts(values@).take(i as int)),
        decreases values@.len() - i,
    {
        let ghost so_far = out@;
        out.push(constraint(kind, values[i].as_str()));
        i += 1;
        assert(constraint_views(out@) =~= constraint_views(so_far).push(
            view_of(kind, values@[i - 1]@),
        ));
        assert(constraint_views(out@) =~= before + views_of(kind, texts(values@).take(i as int)));
    }
    assert(texts(values@).take(i as int) =~= texts(values@));
}

/// Borrows every string.
fn borrowed<'a>(values: &'a Vec<String>) -> (r: Vec<&'a str>)
    ensures
        str_texts(r@) == texts(values@),
{
    let mut out: Vec<&'a str> = Vec::new();
    let mut i: usize = 0;
    while i < values.len()
        invariant
            i <= values@.len(),
            str_texts(out@) == texts(values@).take(i as int),
        decreases values@.len() - i,
    {
        let ghost so_far = out@;
        out.push(values[i].as_str());
        i += 1;
        assert(str_texts(out@) =~= str_texts(so_far).push(values@[i - 1]@));
        assert(str_texts(out@) =~= texts(values@).take(i as int));
    }
    assert(texts(values@).take(i as int) =~= texts(values@));
    out
}

impl PreparedQuery {
    /// The query the engine is given.
    pub open spec fn query_view(self) -> QueryView {
        match self.structured {
            None => parsed_query(parse_preset(self.preset), self.raw@),
            Some(s) => QueryView {
                raw_query: self.raw@,
                constraints: s.constraint_list(),
                fuzzy: s.terms(),
                location: None,
            },
        }
    }

    /// A raw DSL string, parsed with `preset`. Left untouched.
    pub fn raw(query: &str, preset: Preset) -> (r: Self)
        ensures
            r.raw@ == query@,
            r.preset == preset,
            r.structured is None,
    {
        PreparedQuery { raw: query.to_owned(), preset, structured: None }
    }

    /// Structured constraints. Path-ish fields have their separators folded.
    pub fn structured(q: &StructuredQuery, preset: Preset) -> (r: Self)
        ensures
            r.raw@.len() == 0,
            r.preset == preset,
            r.structured matches Some(s) && s.holds(*q),
    {
        let fuzzy_parts = match &q.fuzzy {
            Some(s) => split_words(s.as_str()),
            None => Vec::new(),
        };
        assert(texts(fuzzy_parts@) =~= fuzzy_words(q.fuzzy));
        let git_status = match q.git_status {
            Some(g) => Some(GitStatusFilter::from(g)),
            None => None,
        };
        PreparedQuery {
            raw: String::new(),
            preset,
            structured: Some(
                OwnedStructured {
                    fuzzy_parts,
                    globs: fold_all(&q.globs),
                    extensions: cloned(&q.extensions),
                    path_segments: fold_all(&q.path_segments),
                    file_paths: fold_all(&q.file_paths),
                    file_types: cloned(&q.file_types),
                    text: cloned(&q.text),
                    exclude_path_segments: fold_all(&q.exclude_path_segments),
                    exclude_text: cloned(&q.exclude_text),
                    git_status,
                },
            ),
        }
    }

    /// The query for the engine. Borrows from `self`, so it must not outlive it.
    pub fn query(&self) -> (r: Query<'_>)
        ensures
            r@ == self.query_view(),
            r.raw_query@ == self.raw@,
            self.structured is None && self.preset is FileSearch ==> r@ == parsed_query(
                ParsePreset::FileSearch,
                self.raw@,
            ),
            self.structured is None && self.preset is DirSearch ==> r@ == parsed_query(
                ParsePreset::DirSearch,
                self.raw@,
            ),
            self.structured is None && self.preset is MixedSearch ==> r@ == parsed_query(
                ParsePreset::MixedSearch,
                self.raw@,
            ),
            self.structured is None && trimmed(self.raw@).len() == 0 ==> r.constraints@.len() == 0
                && r.fuzzy_query is Empty && r.location is None,
    {
        match &self.structured {
            None => match self.preset {
                Preset::FileSearch => parse(self.raw.as_str(), ParsePreset::FileSearch),
                Preset::DirSearch => parse(self.raw.as_str(), ParsePreset::DirSearch),
                Preset::MixedSearch => parse(self.raw.as_str(), ParsePreset::MixedSearch),
            },
            Some(s) => {
                let mut constraints: Vec<Constraint<'_>> = Vec::new();
                push_constraints(&mut constraints, AtomKind::Glob, &s.globs);
                push_constraints(&mut constraints, AtomKind::Extension, &s.extensions);
                push_constraints(&mut constraints, AtomKind::PathSegment, &s.path_segments);
                push_constraints(&mut constraints, AtomKind::FilePath, &s.file_paths);
                push_constraints(&mut constraints, AtomKind::FileType, &s.file_types);
                push_constraints(&mut constraints, AtomKind::Text, &s.text);
                push_constraints(
                    &mut constraints,
                    AtomKind::NotPathSegment,
                    &s.exclude_path_segments,
                );
                push_constraints(&mut constraints, AtomKind::NotText, &s.exclude_text);
                if let Some(g) = s.git_status {
                    constraints.push(Constraint::GitStatus(g));
                }
                assert(constraint_views(constraints@) =~= s.constraint_list());

                let fuzzy_query = if s.fuzzy_parts.len() == 0 {
                    FuzzyQuery::Empty
                } else if s.fuzzy_parts.len() == 1 {
                    FuzzyQuery::Text(s.fuzzy_parts[0].as_str())
                } else {
                    FuzzyQuery::Parts(borrowed(&s.fuzzy_parts))
                };

                Query { raw_query: self.raw.as_str(), constraints, fuzzy_query, location: None }
            },
        }
    }
}

/// Copies every string.
pub fn cloned(values: &Vec<String>) -> (r: Vec<String>)
    ensures
        texts(r@) == texts(values@),
{
    let mut out: Vec<String> = Vec::new();
    let mut i: usize = 0;
    while i < values.len()
        invariant
            i <= values@.len(),
            texts(out@) == texts(values@).take(i as int),
        decreases values@.len() - i,
    {
        let ghost so_far = out@;
        out.push(values[i].clone());
        i += 1;
        assert(texts(out@) =~= texts(so_far).push(values@[i - 1]@));
        assert(texts(out@) =~= texts(values@).take(i as int));
    }
    assert(texts(values@).take(i as int) =~= texts(values@));
    out
}

/// Folds the separators of every string.
pub fn fold_all(values: &Vec<String>) -> (r: Vec<String>)
    ensures
        texts(r@) == all_folded(texts(values@)),
{
    let mut out: Vec<String> = Vec::new();
    let mut i: usize = 0;
    while i < values.len()
        invariant
            i <= values@.len(),
            texts(out@) == all_folded(texts(values@)).take(i as int),
        decreases values@.len() - i,
    {
        let ghost so_far = out@;
        out.push(fold(values[i].as_str()));
        i += 1;
        assert(texts(out@) =~= texts(so_far).push(folded(values@[i - 1]@)));
        assert(texts(out@) =~= all_folded(texts(values@)).take(i as int));
    }
    assert(all_folded(texts(values@)).take(i as int) =~= all_folded(texts(values@)));
    out
}

// ---------------------------------------------------------------------------------------------
// Warnings.
// ---------------------------------------------------------------------------------------------

/// Whether a token looks like a glob but holds a backslash, so that it is none.
pub open spec fn is_suspect(token: Seq<char>) -> bool {
    (token.contains('*') || token.contains('?') || token.contains('[')) && token.contains('\\')
}

/// Why a suspect token is no glob, and what to do about it.
pub const NOT_A_GLOB: &'static str =
    " contains a backslash. The glob matcher treats only '/' as a separator, so this token is not applied as a glob at all - it falls through to fuzzy text matching, which usually returns unrelated results rather than none. Use forward slashes, or pass it in the structured `globs` field, where separators are folded.";

/// What is said of a suspect token.
pub open spec fn warning_text(token: Seq<char>) -> Seq<char> {
    "glob-looking token "@ + debug_text(token) + NOT_A_GLOB@
}

/// One warning for each suspect token, in order.
pub open spec fn warnings_of(tokens: Seq<Seq<char>>) -> Seq<Seq<char>>
    decreases tokens.len(),
{
    if tokens.len() == 0 {
        seq![]
    } else {
        let before = warnings_of(tokens.drop_last());
        if is_suspect(tokens.last()) {
            before.push(warning_text(tokens.last()))
        } else {
            before
        }
    }
}

/// Warnings about a query that would otherwise fail silently.
pub fn warnings_for(raw: &str) -> (r: Vec<String>)
    ensures
        texts(r@) == warnings_of(words(raw@)),
{
    let tokens = split_words(raw);
    let mut out: Vec<String> = Vec::new();
    let mut i: usize = 0;
    assert(texts(out@) =~= warnings_of(texts(tokens@).take(0)));
    while i < tokens.len()
        invariant
            i <= tokens@.len(),
            texts(out@) == warnings_of(texts(tokens@).take(i as int)),
        decreases tokens@.len() - i,
    {
        let token = tokens[i].as_str();
        let ghost so_far = out@;
        let ghost upto = texts(tokens@).take(i + 1);
        assert(upto.drop_last() =~= texts(tokens@).take(i as int));
        assert(upto.last() == token@);
        let looks_glob = contains_char(token, '*') || contains_char(token, '?') || contains_char(
            token,
            '[',
        );
        if looks_glob && contains_char(token, '\\') {
            let mut text = "glob-looking token ".to_owned();
            text.append(quoted(token).as_str());
            text.append(NOT_A_GLOB);
            out.push(text);
            assert(texts(out@) =~= texts(so_far).push(warning_text(token@)));
        }
        i += 1;
    }
    assert(texts(tokens@).take(i as int) =~= texts(tokens@));
    out
}

/// A word of a text is a stretch of it.
proof fn lemma_words_are_parts(s: Seq<char>, k: int, c: char)
    requires
        0 <= k < words(s).len(),
        words(s)[k].contains(c),
    ensures
        s.contains(c),
    decreases s.len(),
{
    let from = leading_space(s) as int;
    let rest = s.skip(from);
    lemma_runs(s);
    lemma_runs(rest);
    let n = word_len(rest) as int;
    if k == 0 {
        let i = choose|i: int| 0 <= i < rest.take(n).len() && rest.take(n)[i] == c;
        assert(s[from + i] == c);
    } else {
        let after = rest.skip(n);
        assert(words(s)[k] == words(after)[k - 1]);
        lemma_words_are_parts(after, k - 1, c);
        let i = choose|i: int| 0 <= i < after.len() && after[i] == c;
        assert(s[from + n + i] == c);
    }
}

/// Tokens none of which is suspect give no warning, and every warning comes from a suspect one.
proof fn lemma_warnings(tokens: Seq<Seq<char>>)
    ensures
        warnings_of(tokens).len() == 0 <==> forall|k: int|
            0 <= k < tokens.len() ==> !is_suspect(#[trigger] tokens[k]),
    decreases tokens.len(),
{
    if tokens.len() > 0 {
        let t = tokens.drop_last();
        lemma_warnings(t);
        if warnings_of(tokens).len() == 0 {
            assert forall|k: int| 0 <= k < tokens.len() implies !is_suspect(
                #[trigger] tokens[k],
            ) by {
                if k < t.len() {
                    assert(!is_suspect(t[k]));
                }
            }
        } else if forall|k: int| 0 <= k < tokens.len() ==> !is_suspect(#[trigger] tokens[k]) {
            assert(!is_suspect(tokens[tokens.len() - 1]));
            assert forall|k: int| 0 <= k < t.len() implies !is_suspect(#[trigger] t[k]) by {
                assert(t[k] == tokens[k]);
            }
        }
    }
}

/// A query is warned about exactly when one of its tokens looks like a glob and holds a backslash.
pub proof fn warned_exactly_when_suspect(raw: Seq<char>)
    ensures
        warnings_of(words(raw)).len() > 0 <==> exists|k: int|
            0 <= k < words(raw).len() && is_suspect(#[trigger] words(raw)[k]),
{
    lemma_warnings(words(raw));
}

/// A query without a backslash is never warned about; in particular one that was folded is not.
pub proof fn folded_queries_are_not_warned_about(raw: Seq<char>)
    ensures
        !raw.contains('\\') ==> warnings_of(words(raw)).len() == 0,
        warnings_of(words(folded(raw))).len() == 0,
{
    folding_removes_backslashes(raw);
    assert forall|s: Seq<char>| !s.contains('\\') implies #[trigger] warnings_of(words(s)).len()
        == 0 by {
        lemma_warnings(words(s));
        assert forall|k: int| 0 <= k < words(s).len() implies !is_suspect(
            #[trigger] words(s)[k],
        ) by {
            if words(s)[k].contains('\\') {
                lemma_words_are_parts(s, k, '\\');
            }
        }
    }
}

/// What a constraint says, as text that a separator could stand in: its path, for those that are
/// paths.
pub open spec fn path_text(c: ConstraintView) -> Option<Seq<char>> {
    match c.atom {
        Atom::Glob(s) => Some(s),
        Atom::PathSegment(s) => Some(s),
        Atom::FilePath(s) => Some(s),
        _ => None,
    }
}

/// However a client spells its paths, no glob, path segment or file path that reaches the engine
/// from structured constraints holds a backslash.
pub proof fn structured_paths_are_folded(s: OwnedStructured, q: StructuredQuery, k: int)
    requires
        s.holds(q),
        0 <= k < s.constraint_list().len(),
    ensures
        path_text(s.constraint_list()[k]) matches Some(p) ==> !p.contains('\\'),
{
    let c = s.constraint_list()[k];
    let globs = texts(s.globs@);
    let segments = texts(s.path_segments@);
    let files = texts(s.file_paths@);
    let excluded = texts(s.exclude_path_segments@);
    let n1 = globs.len() + texts(s.extensions@).len();
    let n2 = n1 + segments.len();
    let n3 = n2 + files.len();
    let n4 = n3 + texts(s.file_types@).len() + texts(s.text@).len();
    if k < globs.len() {
        assert(c == view_of(AtomKind::Glob, globs[k]));
        folding_removes_backslashes(texts(q.globs@)[k]);
    } else if n1 <= k < n2 {
        assert(c == view_of(AtomKind::PathSegment, segments[k - n1]));
        folding_removes_backslashes(texts(q.path_segments@)[k - n1]);
    } else if n2 <= k < n3 {
        assert(c == view_of(AtomKind::FilePath, files[k - n2]));
        folding_removes_backslashes(texts(q.file_paths@)[k - n2]);
    } else if n4 <= k < n4 + excluded.len() {
        assert(c == view_of(AtomKind::NotPathSegment, excluded[k - n4]));
        folding_removes_backslashes(texts(q.exclude_path_segments@)[k - n4]);
    }
}

/// Every entry of a structured query becomes one constraint, and nothing else does.
pub proof fn structured_constraints_are_complete(s: OwnedStructured, q: StructuredQuery)
    requires
        s.holds(q),
    ensures
        s.constraint_list().len() == q.globs@.len() + q.extensions@.len() + q.path_segments@.len()
            + q.file_paths@.len() + q.file_types@.len() + q.text@.len()
            + q.exclude_path_segments@.len() + q.exclude_text@.len() + (if q.git_status is Some {
            1int
        } else {
            0int
        }),
{
    assert(texts(s.globs@).len() == texts(q.globs@).len());
    assert(texts(s.extensions@).len() == texts(q.extensions@).len());
    assert(texts(s.path_segments@).len() == texts(q.path_segments@).len());
    assert(texts(s.file_paths@).len() == texts(q.file_paths@).len());
    assert(texts(s.file_types@).len() == texts(q.file_types@).len());
    assert(texts(s.text@).len() == texts(q.text@).len());
    assert(texts(s.exclude_path_segments@).len() == texts(q.exclude_path_segments@).len());
    assert(texts(s.exclude_text@).len() == texts(q.exclude_text@).len());
}

/// Every entry of a structured query reaches the engine as a constraint of the field's own kind,
/// field after field and in the client's order. Globs, path segments and file paths are folded,
/// the rest is left as it is, and only the two fields of exclusions are negated.
pub proof fn structured_entries_keep_their_kind(
    p: PreparedQuery,
    s: OwnedStructured,
    q: StructuredQuery,
    k: int,
)
    requires
        p.structured == Some(s),
        s.holds(q),
        0 <= k,
    ensures
        ({
            let list = p.query_view().constraints;
            let extensions = q.globs@.len() as int;
            let segments = extensions + q.extensions@.len();
            let files = segments + q.path_segments@.len();
            let types = files + q.file_paths@.len();
            let text = types + q.file_types@.len();
            let not_segments = text + q.text@.len();
            let not_text = not_segments + q.exclude_path_segments@.len();
            &&& k < q.globs@.len() ==> list[k].negations == 0 && list[k].atom == Atom::Glob(
                folded(q.globs@[k]@),
            )
            &&& k < q.extensions@.len() ==> list[extensions + k].negations == 0 && list[extensions
                + k].atom == Atom::Extension(q.extensions@[k]@)
            &&& k < q.path_segments@.len() ==> list[segments + k].negations == 0 && list[segments
                + k].atom == Atom::PathSegment(folded(q.path_segments@[k]@))
            &&& k < q.file_paths@.len() ==> list[files + k].negations == 0 && list[files + k].atom
                == Atom::FilePath(folded(q.file_paths@[k]@))
            &&& k < q.file_types@.len() ==> list[types + k].negations == 0 && list[types + k].atom
                == Atom::FileType(q.file_types@[k]@)
            &&& k < q.text@.len() ==> list[text + k].negations == 0 && list[text + k].atom
                == Atom::Text(q.text@[k]@)
            &&& k < q.exclude_path_segments@.len() ==> list[not_segments + k].negations == 1
                && list[not_segments + k].atom == Atom::PathSegment(
                folded(q.exclude_path_segments@[k]@),
            )
            &&& k < q.exclude_text@.len() ==> list[not_text + k].negations == 1 && list[not_text
                + k].atom == Atom::Text(q.exclude_text@[k]@)
        }),
{
    lemma_first_fields(s, k);
    lemma_middle_fields(s, k);
    lemma_last_fields(s, k);
    assert(texts(s.globs@).len() == texts(q.globs@).len());
    assert(texts(s.extensions@).len() == texts(q.extensions@).len());
    assert(texts(s.path_segments@).len() == texts(q.path_segments@).len());
    assert(texts(s.file_paths@).len() == texts(q.file_paths@).len());
    assert(texts(s.file_types@).len() == texts(q.file_types@).len());
    assert(texts(s.text@).len() == texts(q.text@).len());
    assert(texts(s.exclude_path_segments@).len() == texts(q.exclude_path_segments@).len());
    assert(texts(s.exclude_text@).len() == texts(q.exclude_text@).len());
    if k < q.globs@.len() {
        assert(texts(s.globs@)[k] == folded(texts(q.globs@)[k]));
    }
    if k < q.extensions@.len() {
        assert(texts(s.extensions@)[k] == texts(q.extensions@)[k]);
    }
    if k < q.path_segments@.len() {
        assert(texts(s.path_segments@)[k] == folded(texts(q.path_segments@)[k]));
    }
    if k < q.file_paths@.len() {
        assert(texts(s.file_paths@)[k] == folded(texts(q.file_paths@)[k]));
    }
    if k < q.file_types@.len() {
        assert(texts(s.file_types@)[k] == texts(q.file_types@)[k]);
    }
    if k < q.text@.len() {
        assert(texts(s.text@)[k] == texts(q.text@)[k]);
    }
    if k < q.exclude_path_segments@.len() {
        assert(texts(s.exclude_path_segments@)[k] == folded(texts(q.exclude_path_segments@)[k]));
    }
    if k < q.exclude_text@.len() {
        assert(texts(s.exclude_text@)[k] == texts(q.exclude_text@)[k]);
    }
}

/// Where the entries of the first fields stand among the constraints.
proof fn lemma_first_fields(s: OwnedStructured, k: int)
    requires
        0 <= k,
    ensures
        ({
            let list = s.constraint_list();
            let n0 = 0int;
            let n1 = n0 + texts(s.globs@).len();
            let n2 = n1 + texts(s.extensions@).len();
            &&& k < texts(s.globs@).len() ==> list[n0 + k] == view_of(
                AtomKind::Glob,
                texts(s.globs@)[k],
            )
            &&& k < texts(s.extensions@).len() ==> list[n1 + k] == view_of(
                AtomKind::Extension,
                texts(s.extensions@)[k],
            )
            &&& k < texts(s.path_segments@).len() ==> list[n2 + k] == view_of(
                AtomKind::PathSegment,
                texts(s.path_segments@)[k],
            )
        }),
{
}

/// Where the entries of the next fields stand among the constraints.
proof fn lemma_middle_fields(s: OwnedStructured, k: int)
    requires
        0 <= k,
    ensures
        ({
            let list = s.constraint_list();
            let n0 = 0int;
            let n1 = n0 + texts(s.globs@).len();
            let n2 = n1 + texts(s.extensions@).len();
            let n3 = n2 + texts(s.path_segments@).len();
            let n4 = n3 + texts(s.file_paths@).len();
            let n5 = n4 + texts(s.file_types@).len();
            &&& k < texts(s.file_paths@).len() ==> list[n3 + k] == view_of(
                AtomKind::FilePath,
                texts(s.file_paths@)[k],
            )
            &&& k < texts(s.file_types@).len() ==> list[n4 + k] == view_of(
                AtomKind::FileType,
                texts(s.file_types@)[k],
            )
            &&& k < texts(s.text@).len() ==> list[n5 + k] == view_of(
                AtomKind::Text,
                texts(s.text@)[k],
            )
        }),
{
}

/// Where the exclusions stand among the constraints.
proof fn lemma_last_fields(s: OwnedStructured, k: int)
    requires
        0 <= k,
    ensures
        ({
            let list = s.constraint_list();
            let n0 = 0int;
            let n1 = n0 + texts(s.globs@).len();
            let n2 = n1 + texts(s.extensions@).len();
            let n3 = n2 + texts(s.path_segments@).len();
            let n4 = n3 + texts(s.file_paths@).len();
            let n5 = n4 + texts(s.file_types@).len();
            let n6 = n5 + texts(s.text@).len();
            let n7 = n6 + texts(s.exclude_path_segments@).len();
            &&& k < texts(s.exclude_path_segments@).len() ==> list[n6 + k] == view_of(
                AtomKind::NotPathSegment,
                texts(s.exclude_path_segments@)[k],
            )
            &&& k < texts(s.exclude_text@).len() ==> list[n7 + k] == view_of(
                AtomKind::NotText,
                texts(s.exclude_text@)[k],
            )
        }),
{
}

/// The git status a structured query asks for reaches the engine as the filter of that very
/// category, as the last constraint and not negated; one that it does not ask for is not filtered
/// on at all.
pub proof fn the_git_status_is_the_one_asked_for(
    p: PreparedQuery,
    s: OwnedStructured,
    q: StructuredQuery,
)
    requires
        p.structured == Some(s),
        s.holds(q),
    ensures
        ({
            let list = p.query_view().constraints;
            let last = list.last();
            &&& q.git_status is Some ==> list.len() > 0 && last.negations == 0
            &&& q.git_status == Some(GitStatusConstraint::Modified) ==> last.atom
                == Atom::GitStatus(GitStatusFilter::Modified)
            &&& q.git_status == Some(GitStatusConstraint::Untracked) ==> last.atom
                == Atom::GitStatus(GitStatusFilter::Untracked)
            &&& q.git_status == Some(GitStatusConstraint::Staged) ==> last.atom
                == Atom::GitStatus(GitStatusFilter::Staged)
            &&& q.git_status == Some(GitStatusConstraint::Unmodified) ==> last.atom
                == Atom::GitStatus(GitStatusFilter::Unmodified)
            &&& q.git_status is None ==> forall|k: int|
                0 <= k < list.len() ==> !((#[trigger] list[k]).atom is GitStatus)
            &&& forall|k: int|
                0 <= k < list.len() - 1 ==> !((#[trigger] list[k]).atom is GitStatus)
        }),
{
    let list = p.query_view().constraints;
    let n1 = texts(s.globs@).len();
    let n2 = n1 + texts(s.extensions@).len();
    let n3 = n2 + texts(s.path_segments@).len();
    let n4 = n3 + texts(s.file_paths@).len();
    let n5 = n4 + texts(s.file_types@).len();
    let n6 = n5 + texts(s.text@).len();
    let n7 = n6 + texts(s.exclude_path_segments@).len();
    let n8 = n7 + texts(s.exclude_text@).len();
    assert forall|k: int| 0 <= k < n8 implies !((#[trigger] list[k]).atom is GitStatus) by {
        if k < n1 {
            assert(list[k] == view_of(AtomKind::Glob, texts(s.globs@)[k]));
        } else if k < n2 {
            assert(list[k] == view_of(AtomKind::Extension, texts(s.extensions@)[k - n1]));
        } else if k < n3 {
            assert(list[k] == view_of(AtomKind::PathSegment, texts(s.path_segments@)[k - n2]));
        } else if k < n4 {
            assert(list[k] == view_of(AtomKind::FilePath, texts(s.file_paths@)[k - n3]));
        } else if k < n5 {
            assert(list[k] == view_of(AtomKind::FileType, texts(s.file_types@)[k - n4]));
        } else if k < n6 {
            assert(list[k] == view_of(AtomKind::Text, texts(s.text@)[k - n5]));
        } else if k < n7 {
            assert(list[k] == view_of(
                AtomKind::NotPathSegment,
                texts(s.exclude_path_segments@)[k - n6],
            ));
        } else {
            assert(list[k] == view_of(AtomKind::NotText, texts(s.exclude_text@)[k - n7]));
        }
    }
}

/// The terms of a structured query are its words: none, the one, or all of them in order. Its
/// query string is empty, and it has no location.
pub proof fn structured_terms_are_the_words(
    p: PreparedQuery,
    s: OwnedStructured,
    q: StructuredQuery,
)
    requires
        p.structured == Some(s),
        s.holds(q),
    ensures
        q.fuzzy is None ==> p.query_view().fuzzy is Empty,
        q.fuzzy matches Some(t) ==> {
            &&& words(t@).len() == 0 ==> p.query_view().fuzzy is Empty
            &&& words(t@).len() == 1 ==> p.query_view().fuzzy == FuzzyView::Text(words(t@)[0])
            &&& words(t@).len() >= 2 ==> p.query_view().fuzzy == FuzzyView::Parts(words(t@))
        },
        p.query_view().raw_query == p.raw@,
        p.query_view().location is None,
{
}

/// A raw query is read by the parser preset of the very kind of search that is run: that for files,
/// that for directories, or that for both together.
pub proof fn each_search_has_its_own_parser(p: PreparedQuery)
    requires
        p.structured is None,
    ensures
        p.preset is FileSearch ==> p.query_view() == parsed_query(ParsePreset::FileSearch, p.raw@),
        p.preset is DirSearch ==> p.query_view() == parsed_query(ParsePreset::DirSearch, p.raw@),
        p.preset is MixedSearch ==> p.query_view() == parsed_query(
            ParsePreset::MixedSearch,
            p.raw@,
        ),
{
}

/// One token more adds one warning where it holds a backslash and a `*`, a `?` or a `[`, and none
/// otherwise; the warnings before it stay as they are. The warning begins by quoting the token.
pub proof fn each_suspect_token_is_warned_about_once(tokens: Seq<Seq<char>>, t: Seq<char>)
    ensures
        ({
            let before = warnings_of(tokens);
            let after = warnings_of(tokens.push(t));
            let suspect = t.contains('\\') && (t.contains('*') || t.contains('?') || t.contains(
                '[',
            ));
            &&& suspect ==> after == before.push("glob-looking token "@ + debug_text(t)
                + NOT_A_GLOB@)
            &&& !suspect ==> after == before
        }),
        warnings_of(seq![]).len() == 0,
{
    assert(tokens.push(t).drop_last() =~= tokens);
}

/// From the client's structured constraints to the query the engine is given: the git status asked
/// for is the one that is filtered on, there is no other, and there are as many constraints as
/// entries.
pub proof fn structured_queries_reach_the_engine_as_asked<'a>(
    q: &StructuredQuery,
    preset: Preset,
    p: &'a PreparedQuery,
    r: Query<'a>,
)
    requires
        call_ensures(PreparedQuery::structured, (q, preset), *p),
        call_ensures(PreparedQuery::query, (p,), r),
    ensures
        q.git_status == Some(GitStatusConstraint::Modified) ==> r@.constraints.last().atom
            == Atom::GitStatus(GitStatusFilter::Modified),
        q.git_status == Some(GitStatusConstraint::Untracked) ==> r@.constraints.last().atom
            == Atom::GitStatus(GitStatusFilter::Untracked),
        q.git_status == Some(GitStatusConstraint::Staged) ==> r@.constraints.last().atom
            == Atom::GitStatus(GitStatusFilter::Staged),
        q.git_status == Some(GitStatusConstraint::Unmodified) ==> r@.constraints.last().atom
            == Atom::GitStatus(GitStatusFilter::Unmodified),
        r@.constraints.len() == q.globs@.len() + q.extensions@.len() + q.path_segments@.len()
            + q.file_paths@.len() + q.file_types@.len() + q.text@.len()
            + q.exclude_path_segments@.len() + q.exclude_text@.len() + (if q.git_status is Some {
            1int
        } else {
            0int
        }),
        q.fuzzy is None ==> r@.fuzzy is Empty,
        r@.raw_query.len() == 0,
        r@.location is None,
{
    let s = p.structured->0;
    structured_constraints_are_complete(s, *q);
    the_git_status_is_the_one_asked_for(*p, s, *q);
    structured_terms_are_the_words(*p, s, *q);
}

/// From the client's raw query to the query the engine is given: it is what the parser of that very
/// kind of search makes of the text as the client gave it.
pub proof fn raw_queries_reach_the_engine_as_given<'a>(
    text: &str,
    preset: Preset,
    p: &'a PreparedQuery,
    r: Query<'a>,
)
    requires
        call_ensures(PreparedQuery::raw, (text, preset), *p),
        call_ensures(PreparedQuery::query, (p,), r),
    ensures
        preset is FileSearch ==> r@ == parsed_query(ParsePreset::FileSearch, text@),
        preset is DirSearch ==> r@ == parsed_query(ParsePreset::DirSearch, text@),
        preset is MixedSearch ==> r@ == parsed_query(ParsePreset::MixedSearch, text@),
        r.raw_query@ == text@,
{
}

/// What is said of a suspect token: why it is no glob, and what to do about it.
pub proof fn suspect_tokens_are_told_what_to_do(t: Seq<char>)
    ensures
        warning_text(t) == "glob-looking token "@ + debug_text(t)
            + " contains a backslash. The glob matcher treats only '/' as a separator, so this token is not applied as a glob at all - it falls through to fuzzy text matching, which usually returns unrelated results rather than none. Use forward slashes, or pass it in the structured `globs` field, where separators are folded."@,
{
}

} // verus!
