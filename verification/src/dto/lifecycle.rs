//! Lifecycle, tracking and query-inspection wire types.

use crate::dto::file::{location_dto_opt, location_opt, LocationDto};
use crate::engine::{
    constraint_view, grep_text, grep_text_of, str_texts, Atom, Constraint, ConstraintView,
    FuzzyQuery, FuzzyView, GitStatusFilter, Query, QueryView,
};
use crate::text::texts;
use vstd::prelude::*;
use vstd::std_specs::convert::FromSpecImpl;

pub use crate::engine::ParsePreset;

verus! {

/// Result of a git-status refresh.
#[derive(Debug, Clone)]
pub struct GitRefreshResponse {
    /// Files whose cached status changed.
    pub updated: usize,
}

/// Report that a file was opened, so its access-frecency score rises.
#[derive(Debug, Clone)]
pub struct TrackAccessRequest {
    /// Repo-relative (forward or back slashes) or absolute. Must resolve inside the workspace
    /// root.
    pub path: String,
}

#[derive(Debug, Clone)]
pub struct TrackAccessResponse {
    /// The path as recorded, repo-relative with forward slashes.
    pub relative_path: String,
    /// Times this file has been reported, after this call.
    pub access_count: usize,
}

/// Report which result a query led to, feeding the combo boost.
#[derive(Debug, Clone)]
pub struct TrackQueryRequest {
    pub query: String,
    /// The file the client acted on. Repo-relative or absolute.
    pub selected_path: String,
}

/// A query from this workspace's history.
#[derive(Debug, Clone)]
pub struct HistoryResponse {
    /// `None` when the history is shorter than the requested offset.
    pub query: Option<String>,
    pub offset: usize,
}

#[derive(Debug, Clone)]
pub struct HistoryQuery {
    /// 0 is the most recent.
    pub offset: usize,
}

/// A query to take apart.
#[derive(Debug, Clone)]
pub struct ParseQueryRequest {
    pub query: String,
    pub preset: ParsePreset,
}

/// What kind of thing a constraint constrains.
#[derive(Debug, Clone, Copy, PartialEq, Eq, Structural)]
pub enum ConstraintType {
    Extension,
    Glob,
    Parts,
    Text,
    Exclude,
    PathSegment,
    FilePath,
    FileType,
    GitStatus,
}

/// The git status categories the engine can filter on.
#[derive(Debug, Clone, Copy, PartialEq, Eq, Structural)]
pub enum GitStatusValue {
    Modified,
    Untracked,
    Staged,
    Unmodified,
}

/// The reported name of a git status category.
pub open spec fn status_value(g: GitStatusFilter) -> GitStatusValue {
    match g {
        GitStatusFilter::Modified => GitStatusValue::Modified,
        GitStatusFilter::Untracked => GitStatusValue::Untracked,
        GitStatusFilter::Staged => GitStatusValue::Staged,
        GitStatusFilter::Unmodified => GitStatusValue::Unmodified,
    }
}

impl From<GitStatusFilter> for GitStatusValue {
    fn from(g: GitStatusFilter) -> (r: GitStatusValue)
        ensures
            g is Modified ==> r is Modified,
            g is Untracked ==> r is Untracked,
            g is Staged ==> r is Staged,
            g is Unmodified ==> r is Unmodified,
    {
        match g {
            GitStatusFilter::Modified => GitStatusValue::Modified,
            GitStatusFilter::Untracked => GitStatusValue::Untracked,
            GitStatusFilter::Staged => GitStatusValue::Staged,
            GitStatusFilter::Unmodified => GitStatusValue::Unmodified,
        }
    }
}

impl FromSpecImpl<GitStatusFilter> for GitStatusValue {
    open spec fn obeys_from_spec() -> bool {
        true
    }

    open spec fn from_spec(g: GitStatusFilter) -> GitStatusValue {
        status_value(g)
    }
}

/// A file extension, without a dot.
#[derive(Debug, Clone)]
pub struct ExtensionConstraint {
    /// Always `Extension`. The discriminator.
    pub constraint_type: ConstraintType,
    /// True when the constraint was negated, as in `!tests/`.
    pub negated: bool,
    pub value: String,
}

/// A glob pattern. Forward slashes only.
#[derive(Debug, Clone)]
pub struct GlobConstraint {
    /// Always `Glob`. The discriminator.
    pub constraint_type: ConstraintType,
    /// True when the constraint was negated, as in `!tests/`.
    pub negated: bool,
    pub pattern: String,
}

/// Several text parts, all of which must match.
#[derive(Debug, Clone)]
pub struct PartsConstraint {
    /// Always `Parts`. The discriminator.
    pub constraint_type: ConstraintType,
    /// True when the constraint was negated, as in `!tests/`.
    pub negated: bool,
    pub values: Vec<String>,
}

/// Literal text a path must contain.
#[derive(Debug, Clone)]
pub struct TextConstraint {
    /// Always `Text`. The discriminator.
    pub constraint_type: ConstraintType,
    /// True when the constraint was negated, as in `!tests/`.
    pub negated: bool,
    pub value: String,
}

/// Terms to exclude.
#[derive(Debug, Clone)]
pub struct ExcludeConstraint {
    /// Always `Exclude`. The discriminator.
    pub constraint_type: ConstraintType,
    /// True when the constraint was negated, as in `!tests/`.
    pub negated: bool,
    pub values: Vec<String>,
}

/// A path segment a result must sit under.
#[derive(Debug, Clone)]
pub struct PathSegmentConstraint {
    /// Always `PathSegment`. The discriminator.
    pub constraint_type: ConstraintType,
    /// True when the constraint was negated, as in `!tests/`.
    pub negated: bool,
    pub segment: String,
}

/// A repo-relative file path suffix.
#[derive(Debug, Clone)]
pub struct FilePathConstraint {
    /// Always `FilePath`. The discriminator.
    pub constraint_type: ConstraintType,
    /// True when the constraint was negated, as in `!tests/`.
    pub negated: bool,
    pub path: String,
}

/// One of the engine's file-type names, e.g. `rust`.
#[derive(Debug, Clone)]
pub struct FileTypeConstraint {
    /// Always `FileType`. The discriminator.
    pub constraint_type: ConstraintType,
    /// True when the constraint was negated, as in `!tests/`.
    pub negated: bool,
    pub name: String,
}

/// A git status category.
#[derive(Debug, Clone)]
pub struct GitStatusConstraintDto {
    /// Always `GitStatus`. The discriminator.
    pub constraint_type: ConstraintType,
    /// True when the constraint was negated, as in `!tests/`.
    pub negated: bool,
    pub status: GitStatusValue,
}

/// One parsed constraint, told apart by its type.
#[derive(Debug, Clone)]
pub enum ConstraintDto {
    Extension(ExtensionConstraint),
    Glob(GlobConstraint),
    Parts(PartsConstraint),
    Text(TextConstraint),
    Exclude(ExcludeConstraint),
    PathSegment(PathSegmentConstraint),
    FilePath(FilePathConstraint),
    FileType(FileTypeConstraint),
    GitStatus(GitStatusConstraintDto),
}

/// Whether that many negations negate.
pub open spec fn is_odd(n: nat) -> bool {
    n % 2 == 1
}

impl ConstraintDto {
    /// What is said of a constraint: what it constrains, and whether it is negated in the end.
    pub open spec fn shows(self, c: ConstraintView) -> bool {
        let negated = is_odd(c.negations);
        match c.atom {
            Atom::Extension(v) => self matches ConstraintDto::Extension(x) && x.constraint_type
                == ConstraintType::Extension && x.negated == negated && x.value@ == v,
            Atom::Glob(v) => self matches ConstraintDto::Glob(x) && x.constraint_type
                == ConstraintType::Glob && x.negated == negated && x.pattern@ == v,
            Atom::Parts(v) => self matches ConstraintDto::Parts(x) && x.constraint_type
                == ConstraintType::Parts && x.negated == negated && texts(x.values@) == v,
            Atom::Text(v) => self matches ConstraintDto::Text(x) && x.constraint_type
                == ConstraintType::Text && x.negated == negated && x.value@ == v,
            Atom::Exclude(v) => self matches ConstraintDto::Exclude(x) && x.constraint_type
                == ConstraintType::Exclude && x.negated == negated && texts(x.values@) == v,
            Atom::PathSegment(v) => self matches ConstraintDto::PathSegment(x) && x.constraint_type
                == ConstraintType::PathSegment && x.negated == negated && x.segment@ == v,
            Atom::FilePath(v) => self matches ConstraintDto::FilePath(x) && x.constraint_type
                == ConstraintType::FilePath && x.negated == negated && x.path@ == v,
            Atom::FileType(v) => self matches ConstraintDto::FileType(x) && x.constraint_type
                == ConstraintType::FileType && x.negated == negated && x.name@ == v,
            Atom::GitStatus(v) => self matches ConstraintDto::GitStatus(x) && x.constraint_type
                == ConstraintType::GitStatus && x.negated == negated && x.status == status_value(v),
        }
    }

    pub fn build(c: &Constraint<'_>) -> (r: Self)
        ensures
            r.shows(c@),
    {
        let mut negated = false;
        let mut current = c;
        let ghost all = constraint_view(*c);
        // Unwrap however many layers of negation there are, toggling as we go, so that double
        // negation is reported accurately rather than collapsed to "negated".
        loop
            invariant
                constraint_view(*current).atom == all.atom,
                constraint_view(*current).negations <= all.negations,
                negated == is_odd((all.negations - constraint_view(*current).negations) as nat),
            ensures
                constraint_view(*current).atom == all.atom,
                constraint_view(*current).negations == 0,
                *current !is Not,
                negated == is_odd(all.negations),
            decreases current,
        {
            match current {
                Constraint::Not(inner) => {
                    negated = !negated;
                    current = &**inner;
                },
                _ => {
                    break;
                },
            }
        }
        match current {
            Constraint::Extension(v) => ConstraintDto::Extension(
                ExtensionConstraint {
                    constraint_type: ConstraintType::Extension,
                    negated,
                    value: (*v).to_owned(),
                },
            ),
            Constraint::Glob(v) => ConstraintDto::Glob(
                GlobConstraint {
                    constraint_type: ConstraintType::Glob,
                    negated,
                    pattern: (*v).to_owned(),
                },
            ),
            Constraint::Parts(vs) => ConstraintDto::Parts(
                PartsConstraint {
                    constraint_type: ConstraintType::Parts,
                    negated,
                    values: owned(vs),
                },
            ),
            Constraint::Text(v) => ConstraintDto::Text(
                TextConstraint {
                    constraint_type: ConstraintType::Text,
                    negated,
                    value: (*v).to_owned(),
                },
            ),
            Constraint::Exclude(vs) => ConstraintDto::Exclude(
                ExcludeConstraint {
                    constraint_type: ConstraintType::Exclude,
                    negated,
                    values: owned(vs),
                },
            ),
            Constraint::PathSegment(v) => ConstraintDto::PathSegment(
                PathSegmentConstraint {
                    constraint_type: ConstraintType::PathSegment,
                    negated,
                    segment: (*v).to_owned(),
                },
            ),
            Constraint::FilePath(v) => ConstraintDto::FilePath(
                FilePathConstraint {
                    constraint_type: ConstraintType::FilePath,
                    negated,
                    path: (*v).to_owned(),
                },
            ),
            Constraint::FileType(v) => ConstraintDto::FileType(
                FileTypeConstraint {
                    constraint_type: ConstraintType::FileType,
                    negated,
                    name: (*v).to_owned(),
                },
            ),
            Constraint::GitStatus(g) => ConstraintDto::GitStatus(
                GitStatusConstraintDto {
                    constraint_type: ConstraintType::GitStatus,
                    negated,
                    status: GitStatusValue::from(*g),
                },
            ),
            // Every negation was unwrapped above.
            Constraint::Not(_) => ConstraintDto::Text(
                TextConstraint {
                    constraint_type: ConstraintType::Text,
                    negated,
                    value: String::new(),
                },
            ),
        }
    }
}

/// Copies borrowed strings.
fn owned(values: &[&str]) -> (r: Vec<String>)
    ensures
        texts(r@) == str_texts(values@),
{
    let mut out: Vec<String> = Vec::new();
    let mut i: usize = 0;
    while i < values.len()
        invariant
            i <= values@.len(),
            texts(out@) == str_texts(values@).take(i as int),
        decreases values@.len() - i,
    {
        let ghost so_far = out@;
        out.push(values[i].to_owned());
        i += 1;
        assert(texts(out@) =~= texts(so_far).push(values@[i - 1]@));
        assert(texts(out@) =~= str_texts(values@).take(i as int));
    }
    assert(str_texts(values@).take(i as int) =~= str_texts(values@));
    out
}

/// How the parser decomposed a query.
///
/// The query language is powerful and silent about mistakes: a token that looks like a glob but is
/// not recognised as one simply becomes fuzzy text. This makes that visible.
#[derive(Debug, Clone)]
pub struct ParseQueryResponse {
    /// Echoed back as it was.
    pub query: String,
    pub constraints: Vec<ConstraintDto>,
    /// The fuzzy terms left after constraints were removed.
    pub fuzzy_parts: Vec<String>,
    /// What grep would search for: the query minus constraint tokens.
    pub grep_text: String,
    /// A trailing `file.ts:42:10`, if present.
    pub location: Option<LocationDto>,
    /// Problems that would otherwise pass unnoticed.
    pub warnings: Vec<String>,
}

/// The terms of a query, one by one.
pub open spec fn term_list(q: FuzzyView) -> Seq<Seq<char>> {
    match q {
        FuzzyView::Empty => seq![],
        FuzzyView::Text(t) => seq![t],
        FuzzyView::Parts(v) => v,
    }
}

/// Whether the reported constraints are those of the query, in order.
pub open spec fn constraints_show(r: Seq<ConstraintDto>, c: Seq<ConstraintView>) -> bool {
    &&& r.len() == c.len()
    &&& forall|i: int| 0 <= i < c.len() ==> (#[trigger] r[i]).shows(c[i])
}

impl ParseQueryResponse {
    /// What is said of a parsed query.
    pub open spec fn shows(self, parsed: QueryView) -> bool {
        &&& constraints_show(self.constraints@, parsed.constraints)
        &&& texts(self.fuzzy_parts@) == term_list(parsed.fuzzy)
        &&& self.grep_text@ == grep_text_of(parsed.fuzzy)
        &&& self.location == location_dto_opt(parsed.location)
    }

    pub fn build(query: &str, parsed: &Query<'_>, warnings: Vec<String>) -> (r: Self)
        ensures
            r.query@ == query@,
            r.shows(parsed@),
            r.warnings == warnings,
    {
        let fuzzy_parts = match &parsed.fuzzy_query {
            FuzzyQuery::Empty => Vec::new(),
            FuzzyQuery::Text(t) => {
                let mut one: Vec<String> = Vec::new();
                one.push((*t).to_owned());
                one
            },
            FuzzyQuery::Parts(parts) => owned(parts.as_slice()),
        };
        assert(texts(fuzzy_parts@) =~= term_list(parsed.fuzzy_query@));
        let mut constraints: Vec<ConstraintDto> = Vec::new();
        let mut i: usize = 0;
        while i < parsed.constraints.len()
            invariant
                i <= parsed.constraints@.len(),
                constraints@.len() == i,
                forall|k: int|
                    0 <= k < i ==> (#[trigger] constraints@[k]).shows(
                        constraint_view(parsed.constraints@[k]),
                    ),
            decreases parsed.constraints@.len() - i,
        {
            constraints.push(ConstraintDto::build(&parsed.constraints[i]));
            i += 1;
        }
        ParseQueryResponse {
            query: query.to_owned(),
            constraints,
            fuzzy_parts,
            grep_text: grep_text(&parsed.fuzzy_query),
            location: location_opt(parsed.location),
            warnings,
        }
    }
}

/// Negating a constraint twice is reported as the constraint itself, and negating it once as its
/// opposite; either way nothing else of it changes.
pub proof fn double_negation_cancels(c: ConstraintView, d: ConstraintDto)
    ensures
        d.shows(c) == d.shows(
            (ConstraintView { negations: c.negations + 2, atom: c.atom }),
        ),
        !(d.shows(c) && d.shows((ConstraintView { negations: c.negations + 1, atom: c.atom }))),
{
}

/// A constraint without a negation is reported as what it is, with its own text, and not as
/// negated.
pub proof fn plain_constraints_are_reported_as_they_are(c: Constraint, d: ConstraintDto)
    requires
        d.shows(c@),
    ensures
        c matches Constraint::Extension(v) ==> (d matches ConstraintDto::Extension(x)
            && x.constraint_type == ConstraintType::Extension && !x.negated && x.value@ == v@),
        c matches Constraint::Glob(v) ==> (d matches ConstraintDto::Glob(x) && x.constraint_type
            == ConstraintType::Glob && !x.negated && x.pattern@ == v@),
        c matches Constraint::Parts(v) ==> (d matches ConstraintDto::Parts(x) && x.constraint_type
            == ConstraintType::Parts && !x.negated && texts(x.values@) == str_texts(v@)),
        c matches Constraint::Text(v) ==> (d matches ConstraintDto::Text(x) && x.constraint_type
            == ConstraintType::Text && !x.negated && x.value@ == v@),
        c matches Constraint::Exclude(v) ==> (d matches ConstraintDto::Exclude(x)
            && x.constraint_type == ConstraintType::Exclude && !x.negated && texts(x.values@)
            == str_texts(v@)),
        c matches Constraint::PathSegment(v) ==> (d matches ConstraintDto::PathSegment(x)
            && x.constraint_type == ConstraintType::PathSegment && !x.negated && x.segment@ == v@),
        c matches Constraint::FilePath(v) ==> (d matches ConstraintDto::FilePath(x)
            && x.constraint_type == ConstraintType::FilePath && !x.negated && x.path@ == v@),
        c matches Constraint::FileType(v) ==> (d matches ConstraintDto::FileType(x)
            && x.constraint_type == ConstraintType::FileType && !x.negated && x.name@ == v@),
        c matches Constraint::GitStatus(g) ==> (d matches ConstraintDto::GitStatus(x)
            && x.constraint_type == ConstraintType::GitStatus && !x.negated),
{
}

/// A git status category is reported under its own name.
pub proof fn git_statuses_keep_their_name(g: GitStatusFilter, d: ConstraintDto)
    requires
        d.shows(constraint_view(Constraint::GitStatus(g))),
    ensures
        d is GitStatus,
        g is Modified ==> d->GitStatus_0.status == GitStatusValue::Modified,
        g is Untracked ==> d->GitStatus_0.status == GitStatusValue::Untracked,
        g is Staged ==> d->GitStatus_0.status == GitStatusValue::Staged,
        g is Unmodified ==> d->GitStatus_0.status == GitStatusValue::Unmodified,
{
}

/// Whether a reported constraint is negated.
pub open spec fn is_negated(d: ConstraintDto) -> bool {
    match d {
        ConstraintDto::Extension(x) => x.negated,
        ConstraintDto::Glob(x) => x.negated,
        ConstraintDto::Parts(x) => x.negated,
        ConstraintDto::Text(x) => x.negated,
        ConstraintDto::Exclude(x) => x.negated,
        ConstraintDto::PathSegment(x) => x.negated,
        ConstraintDto::FilePath(x) => x.negated,
        ConstraintDto::FileType(x) => x.negated,
        ConstraintDto::GitStatus(x) => x.negated,
    }
}

/// The negation of a constraint is reported as the same thing, negated exactly where the
/// constraint itself is not.
pub proof fn negating_turns_the_report_round(
    inner: Constraint,
    outer: Constraint,
    a: ConstraintDto,
    b: ConstraintDto,
)
    requires
        outer matches Constraint::Not(c) && *c == inner,
        a.shows(inner@),
        b.shows(outer@),
    ensures
        is_negated(b) <==> !is_negated(a),
        a is Extension ==> b is Extension && a->Extension_0.value@ == b->Extension_0.value@,
        a is Glob ==> b is Glob && a->Glob_0.pattern@ == b->Glob_0.pattern@,
        a is Parts ==> b is Parts && texts(a->Parts_0.values@) == texts(b->Parts_0.values@),
        a is Text ==> b is Text && a->Text_0.value@ == b->Text_0.value@,
        a is Exclude ==> b is Exclude && texts(a->Exclude_0.values@) == texts(
            b->Exclude_0.values@,
        ),
        a is PathSegment ==> b is PathSegment && a->PathSegment_0.segment@
            == b->PathSegment_0.segment@,
        a is FilePath ==> b is FilePath && a->FilePath_0.path@ == b->FilePath_0.path@,
        a is FileType ==> b is FileType && a->FileType_0.name@ == b->FileType_0.name@,
        a is GitStatus ==> b is GitStatus && a->GitStatus_0.status == b->GitStatus_0.status,
{
    reveal_with_fuel(constraint_view, 2);
}

/// A taken-apart query shows its constraints one for one and in order, its terms as they are, what
/// grep would search for, and its location where it has one.
pub proof fn parsed_queries_are_shown_in_full(r: ParseQueryResponse, parsed: QueryView)
    requires
        r.shows(parsed),
    ensures
        r.constraints@.len() == parsed.constraints.len(),
        forall|i: int|
            0 <= i < parsed.constraints.len() ==> (#[trigger] r.constraints@[i]).shows(
                parsed.constraints[i],
            ),
        parsed.fuzzy is Empty ==> r.fuzzy_parts@.len() == 0 && r.grep_text@.len() == 0,
        parsed.fuzzy matches FuzzyView::Text(t) ==> r.fuzzy_parts@.len() == 1
            && r.fuzzy_parts@[0]@ == t,
        parsed.fuzzy matches FuzzyView::Parts(v) ==> texts(r.fuzzy_parts@) == v,
        r.grep_text@ == grep_text_of(parsed.fuzzy),
        r.location is Some <==> parsed.location is Some,
        parsed.location matches Some(l) ==> r.location == Some(crate::dto::file::location_dto(l)),
{
    if parsed.fuzzy is Empty {
        assert(texts(r.fuzzy_parts@).len() == 0);
    }
    if parsed.fuzzy is Text {
        assert(texts(r.fuzzy_parts@).len() == 1);
        assert(texts(r.fuzzy_parts@)[0] == parsed.fuzzy->Text_0);
    }
}

} // verus!
