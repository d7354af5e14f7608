//! Path search.

use crate::clock::Duration;
use crate::config::Config;
use crate::dto::file::{location_dto_opt, location_opt, DirItemDto, FileItemDto, ScoreDto};
use crate::dto::search::{
    offsets_at, DirHit, DirSearchResponse, GlobRequest, MixedHit, MixedSearchResponse, SearchHit,
    SearchRequest, SearchResponse,
};
use crate::engine::{
    parsed_query, DirSearchResult, FileItem, FuzzySearchOptions, MixedItem, MixedSearchResult,
    PaginationArgs, ParsePreset, SearchResult,
};
use crate::error::{reported, ApiError, ApiResult, EngineError};
use crate::query::{
    cloned, each_search_has_its_own_parser, parse_preset, warnings_for, warnings_of, PreparedQuery,
    Preset,
};
use crate::routes::{
    is_unknown_workspace, looked_up, refusal, result_of, workspace, Answer, STILL_BUILDING,
};
use crate::state::AppState;
use crate::text::{copy_opt, fold, folded, same_opt, texts, trim, trimmed, words};
use crate::utf16::{utf16_range_seq, utf16_ranges};
use crate::workspace::or_default;
use vstd::prelude::*;

verus! {

// ---------------------------------------------------------------------------------------------
// Paging.
// ---------------------------------------------------------------------------------------------

/// Resolved paging plus the warnings, so the handlers agree.
#[derive(Debug, Clone)]
pub struct Params {
    pub page: usize,
    pub page_size: usize,
    pub warnings: Vec<String>,
}

/// The product, or the largest `usize` where it does not fit.
pub open spec fn saturated(n: int) -> int {
    if n > usize::MAX {
        usize::MAX as int
    } else {
        n
    }
}

/// Multiplies, or gives the largest `usize` where the product does not fit.
fn saturating_mul(a: usize, b: usize) -> (r: usize)
    ensures
        r == saturated(a * b),
{
    match a.checked_mul(b) {
        Some(n) => n,
        None => usize::MAX,
    }
}

/// The size of a page: at least one.
pub open spec fn page_size_of(asked: Option<usize>, default: usize) -> usize {
    let n = or_default(asked, default);
    if n < 1 {
        1
    } else {
        n
    }
}

/// The size of a page: the one asked for or the default, and at least one.
pub fn page_size(asked: Option<usize>, default: usize) -> (r: usize)
    ensures
        r == page_size_of(asked, default),
        r >= 1,
        asked matches Some(n) ==> n >= 1 ==> r == n,
        asked is None && default >= 1 ==> r == default,
{
    let n: usize = match asked {
        Some(n) => n,
        None => default,
    };
    if n < 1 {
        1
    } else {
        n
    }
}

/// Which results a page holds.
pub open spec fn page_window(page: usize, page_size: usize) -> PaginationArgs {
    PaginationArgs { offset: saturated(page * page_size) as usize, limit: page_size }
}

/// Which results a page holds.
pub fn pagination(page: usize, page_size: usize) -> (r: PaginationArgs)
    ensures
        r == page_window(page, page_size),
        r.limit == page_size,
        page * page_size <= usize::MAX ==> r.offset == page * page_size,
{
    PaginationArgs { offset: saturating_mul(page, page_size), limit: page_size }
}

/// Whether there are results beyond a page.
pub fn has_more(page: usize, page_size: usize, total_matched: usize) -> (r: bool)
    ensures
        r == ((page + 1) * page_size < total_matched),
{
    let next: usize = page.saturating_add(1);
    assert(page_size >= 1 && page == usize::MAX ==> next * page_size >= usize::MAX)
        by (nonlinear_arith)
        requires
            page == usize::MAX ==> next == usize::MAX,
    ;
    assert(page_size >= 1 && page == usize::MAX ==> (page + 1) * page_size >= usize::MAX)
        by (nonlinear_arith);
    assert(page_size == 0 ==> next * page_size == 0 && (page + 1) * page_size == 0)
        by (nonlinear_arith);
    saturating_mul(next, page_size) < total_matched
}

/// Pages follow on one another: a page ends where the next begins, so no result is on two pages
/// and none is left out between them. A page that would begin beyond the largest `usize` begins
/// there, where there are no results.
pub proof fn pages_follow_on(page: usize, size: usize)
    requires
        size >= 1,
        page < usize::MAX,
    ensures
        ({
            let here = page_window(page, size);
            let next = page_window((page + 1) as usize, size);
            &&& next.offset == saturated(here.offset + here.limit)
            &&& next.limit == here.limit
        }),
{
    assert((page + 1) * size == page * size + size) by (nonlinear_arith);
}

/// The windows of two pages never overlap: that of an earlier page ends at or before the one of a
/// later page begins, or the later one begins at the largest `usize`, past every result.
pub proof fn pages_do_not_overlap(a: usize, b: usize, size: usize)
    requires
        a < b,
    ensures
        ({
            let first = page_window(a, size);
            let second = page_window(b, size);
            first.offset + first.limit <= second.offset || (b * size > usize::MAX && second.offset
                == usize::MAX)
        }),
{
    assert((a + 1) * size == a * size + size) by (nonlinear_arith);
    assert((a + 1) * size <= b * size) by (nonlinear_arith)
        requires
            a < b,
    ;
}

/// The part of a ranking that a window takes in.
pub open spec fn window_of<T>(ranking: Seq<T>, w: PaginationArgs) -> Seq<T> {
    let n = ranking.len() as int;
    let from = if w.offset < n {
        w.offset as int
    } else {
        n
    };
    let to = if w.offset + w.limit < n {
        w.offset + w.limit
    } else {
        n
    };
    ranking.subrange(from, to)
}

/// While the ranking does not change, two pages of one search share no item and agree on how many
/// there are, and each says that there is more exactly when there is.
pub proof fn pages_never_repeat_an_item(
    ranking: Seq<FileItem>,
    a: Params,
    b: Params,
    found_a: SearchResult,
    found_b: SearchResult,
    reply_a: SearchResponse,
    reply_b: SearchResponse,
    base: Seq<char>,
    sep: char,
)
    requires
        forall|i: int, j: int|
            0 <= i < j < ranking.len() ==> (#[trigger] ranking[i]).relative_path@ != (
            #[trigger] ranking[j]).relative_path@,
        a.page != b.page,
        a.page_size == b.page_size,
        found_a.items@ == window_of(ranking, page_window(a.page, a.page_size)),
        found_b.items@ == window_of(ranking, page_window(b.page, b.page_size)),
        found_a.total_matched == ranking.len(),
        found_b.total_matched == ranking.len(),
        reply_a.shows(found_a, true, base, sep),
        reply_b.shows(found_b, true, base, sep),
        paged(reply_a.page, reply_a.page_size, reply_a.has_more, found_a.total_matched, a),
        paged(reply_b.page, reply_b.page_size, reply_b.has_more, found_b.total_matched, b),
    ensures
        forall|i: int, j: int|
            0 <= i < reply_a.items@.len() && 0 <= j < reply_b.items@.len() ==> (
            #[trigger] reply_a.items@[i]).item.relative_path@ != (
            #[trigger] reply_b.items@[j]).item.relative_path@,
        reply_a.total_matched == reply_b.total_matched,
        reply_a.has_more <==> (a.page + 1) * a.page_size < reply_a.total_matched,
{
    let wa = page_window(a.page, a.page_size);
    let wb = page_window(b.page, b.page_size);
    if a.page < b.page {
        pages_do_not_overlap(a.page, b.page, a.page_size);
    } else {
        pages_do_not_overlap(b.page, a.page, a.page_size);
    }
    assert forall|i: int, j: int|
        0 <= i < reply_a.items@.len() && 0 <= j < reply_b.items@.len() implies (
    #[trigger] reply_a.items@[i]).item.relative_path@ != (
    #[trigger] reply_b.items@[j]).item.relative_path@ by {
        assert(reply_a.items@[i].shows(found_a, i, true, base, sep));
        assert(reply_b.items@[j].shows(found_b, j, true, base, sep));
        let x = wa.offset + i;
        let y = wb.offset + j;
        assert(found_a.items@[i] == ranking[x]);
        assert(found_b.items@[j] == ranking[y]);
        if x < y {
            assert(ranking[x].relative_path@ != ranking[y].relative_path@);
        } else {
            assert(x != y);
            assert(ranking[y].relative_path@ != ranking[x].relative_path@);
        }
    }
}

/// A page says that there is more exactly when the next page has a result on it.
pub proof fn more_means_another_page(page: usize, size: usize, total: usize)
    requires
        size >= 1,
        page < usize::MAX,
    ensures
        (page + 1) * size < total <==> page_window((page + 1) as usize, size).offset < total,
{
}

// ---------------------------------------------------------------------------------------------
// Requests.
// ---------------------------------------------------------------------------------------------

/// The query a request asks for: its raw string, its structured constraints, or the empty query,
/// which ranks the whole index by frecency.
pub open spec fn prepared_from(p: PreparedQuery, req: SearchRequest, preset: Preset) -> bool {
    &&& p.preset == preset
    &&& match (req.query, req.structured) {
        (Some(raw), _) => p.raw@ == raw@ && p.structured is None,
        (None, Some(s)) => p.raw@.len() == 0 && (p.structured matches Some(o) && o.holds(s)),
        (None, None) => p.raw@.len() == 0 && p.structured is None,
    }
}

/// The warnings a request is given: those about its raw string.
pub open spec fn request_warnings(req: SearchRequest) -> Seq<Seq<char>> {
    match req.query {
        Some(raw) => warnings_of(words(raw@)),
        None => seq![],
    }
}

/// The paging and the warnings of a request.
pub open spec fn params_from(p: Params, req: SearchRequest, config: Config) -> bool {
    &&& p.page == or_default(req.page, 0)
    &&& p.page_size == page_size_of(req.page_size, config.defaults.page_size)
    &&& texts(p.warnings@) == request_warnings(req)
}

/// The error of a request that gives its query twice.
pub open spec fn is_both_forms(e: ApiError) -> bool {
    e is InvalidBody && e.message() == "supply either `query` or `structured`, not both"@
}

/// Reads the query and the paging of a request.
pub fn prepare(config: &Config, req: &SearchRequest, preset: Preset) -> (r: ApiResult<
    (PreparedQuery, Params),
>)
    ensures
        match r {
            Ok((prepared, params)) => !(req.query is Some && req.structured is Some)
                && prepared_from(prepared, *req, preset) && params_from(params, *req, *config),
            Err(e) => req.query is Some && req.structured is Some && is_both_forms(e),
        },
{
    if req.query.is_some() && req.structured.is_some() {
        return Err(
            ApiError::InvalidBody("supply either `query` or `structured`, not both".to_owned()),
        );
    }
    let prepared = match (&req.query, &req.structured) {
        (Some(raw), _) => PreparedQuery::raw(raw.as_str(), preset),
        (None, Some(s)) => PreparedQuery::structured(s, preset),
        // An empty query is legitimate: it ranks the whole index by frecency.
        (None, None) => {
            proof {
                reveal_strlit("");
            }
            PreparedQuery::raw("", preset)
        },
    };
    let warnings = match &req.query {
        Some(raw) => warnings_for(raw.as_str()),
        None => Vec::new(),
    };
    assert(texts(warnings@) =~= request_warnings(*req));
    let params = Params {
        page: match req.page {
            Some(n) => n,
            None => 0,
        },
        page_size: page_size(req.page_size, config.defaults.page_size),
        warnings,
    };
    Ok((prepared, params))
}

/// Whether the engine is told what a request and its paging say.
pub open spec fn options_from(
    o: FuzzySearchOptions,
    req: SearchRequest,
    page: usize,
    page_size: usize,
) -> bool {
    &&& o.max_threads == or_default(req.max_threads, 0)
    &&& same_opt(o.current_file, req.current_file)
    &&& o.combo_boost_score_multiplier == or_default(req.combo_boost_multiplier, 100)
    &&& o.min_combo_count == or_default(req.min_combo_count, 3)
    &&& o.pagination == page_window(page, page_size)
}

/// What the engine is told.
pub fn options(req: &SearchRequest, params: &Params) -> (r: FuzzySearchOptions)
    ensures
        options_from(r, *req, params.page, params.page_size),
{
    FuzzySearchOptions {
        max_threads: match req.max_threads {
            Some(n) => n,
            None => 0,
        },
        current_file: copy_opt(&req.current_file),
        combo_boost_score_multiplier: match req.combo_boost_multiplier {
            Some(n) => n,
            None => 100,
        },
        min_combo_count: match req.min_combo_count {
            Some(n) => n,
            None => 3,
        },
        pagination: pagination(params.page, params.page_size),
    }
}

/// A search the engine is to run.
pub struct SearchPlan {
    /// The query, owning what the engine borrows from it.
    pub prepared: PreparedQuery,
    pub params: Params,
    pub options: FuzzySearchOptions,
    /// The workspace's root as it is displayed.
    pub display: String,
}

impl SearchPlan {
    /// Whether this is the search a request asks for.
    pub open spec fn carries_out(
        self,
        req: SearchRequest,
        preset: Preset,
        config: Config,
        display: Seq<char>,
    ) -> bool {
        &&& prepared_from(self.prepared, req, preset)
        &&& params_from(self.params, req, config)
        &&& options_from(self.options, req, self.params.page, self.params.page_size)
        &&& self.display@ == display
    }
}

/// Looks the workspace up, checks the request, and says what the engine is to search for. A
/// workspace that is not there is reported before a request that is wrong.
pub fn plan(
    state: &mut AppState,
    id: &str,
    req: &SearchRequest,
    preset: Preset,
    now: Duration,
) -> (r: ApiResult<SearchPlan>)
    requires
        old(state).wf(),
    ensures
        final(state).wf(),
        final(state).pool.settings() == old(state).pool.settings(),
        final(state).pool@ == looked_up(old(state).pool@, id@, now@),
        match r {
            Ok(p) => old(state).pool@.dom().contains(id@) && !(req.query is Some
                && req.structured is Some) && p.carries_out(
                *req,
                preset,
                old(state).pool.settings(),
                old(state).pool@[id@].root.display@,
            ),
            Err(e) => if !old(state).pool@.dom().contains(id@) {
                is_unknown_workspace(e, id@)
            } else {
                req.query is Some && req.structured is Some && is_both_forms(e)
            },
        },
{
    let display = match workspace(state, id, now) {
        Ok(ws) => ws.root.display.clone(),
        Err(e) => return Err(e),
    };
    match prepare(state.pool.config(), req, preset) {
        Ok((prepared, params)) => {
            let options = options(req, &params);
            Ok(SearchPlan { prepared, params, options, display })
        },
        Err(e) => Err(e),
    }
}

// ---------------------------------------------------------------------------------------------
// Replies.
// ---------------------------------------------------------------------------------------------

/// Whether the paging of a reply is that of the request, and its `has_more` right.
pub open spec fn paged(
    page: usize,
    page_size: usize,
    has_more: bool,
    total_matched: usize,
    params: Params,
) -> bool {
    &&& page == params.page
    &&& page_size == params.page_size
    &&& has_more == ((page + 1) * page_size < total_matched)
}

/// Zips the items of a result with their scores and, where asked, their matched parts.
fn hits(result: &SearchResult, ranges: bool, display: &str, sep: char) -> (r: Vec<SearchHit>)
    requires
        result.items@.len() <= result.scores@.len(),
    ensures
        r@.len() == result.items@.len(),
        forall|i: int|
            0 <= i < r@.len() ==> (#[trigger] r@[i]).shows(*result, i, ranges, display@, sep),
{
    let mut out: Vec<SearchHit> = Vec::new();
    let mut i: usize = 0;
    while i < result.items.len()
        invariant
            i <= result.items@.len() <= result.scores@.len(),
            out@.len() == i,
            forall|k: int|
                0 <= k < i ==> (#[trigger] out@[k]).shows(*result, k, ranges, display@, sep),
        decreases result.items@.len() - i,
    {
        let item = FileItemDto::build(&result.items[i], display, sep);
        let match_ranges_utf16 = if ranges && i < result.match_byte_offsets.len() {
            utf16_ranges(item.relative_path.as_str(), result.match_byte_offsets[i].as_slice())
        } else {
            Vec::new()
        };
        assert(ranges ==> match_ranges_utf16@ =~= utf16_range_seq(
            result.items@[i as int].relative_path@,
            offsets_at(*result, i as int),
        ));
        assert(!ranges ==> match_ranges_utf16@ =~= seq![]);
        out.push(SearchHit { item, score: ScoreDto::from(&result.scores[i]), match_ranges_utf16 });
        i += 1;
    }
    out
}

/// Answers a fuzzy file search. The engine gives a score for every item.
pub fn search(plan: &SearchPlan, answer: Answer<SearchResult>, sep: char) -> (r: ApiResult<
    SearchResponse,
>)
    requires
        answer matches Answer::Done(result) ==> result.items@.len() <= result.scores@.len(),
    ensures
        match r {
            Ok(res) => answer matches Answer::Done(result) && {
                &&& res.shows(result, true, plan.display@, sep)
                &&& res.location == location_dto_opt(result.location)
                &&& paged(
                    res.page,
                    res.page_size,
                    res.has_more,
                    result.total_matched,
                    plan.params,
                )
                &&& texts(res.warnings@) == texts(plan.params.warnings@)
            },
            Err(e) => refusal(answer, STILL_BUILDING@, e),
        },
        answer is Done ==> r is Ok,
{
    let result = match result_of(answer, STILL_BUILDING) {
        Ok(result) => result,
        Err(e) => return Err(e),
    };
    let params = &plan.params;
    Ok(
        SearchResponse {
            items: hits(&result, true, plan.display.as_str(), sep),
            total_matched: result.total_matched,
            total_files: result.total_files,
            location: location_opt(result.location),
            page: params.page,
            page_size: params.page_size,
            has_more: has_more(params.page, params.page_size, result.total_matched),
            warnings: cloned(&params.warnings),
        },
    )
}

/// Answers a fuzzy directory search. The engine gives a score for every item.
pub fn search_directories(plan: &SearchPlan, answer: Answer<DirSearchResult>, sep: char) -> (r:
    ApiResult<DirSearchResponse>)
    requires
        answer matches Answer::Done(result) ==> result.items@.len() <= result.scores@.len(),
    ensures
        match r {
            Ok(res) => answer matches Answer::Done(result) && {
                &&& res.shows(result, plan.display@, sep)
                &&& paged(
                    res.page,
                    res.page_size,
                    res.has_more,
                    result.total_matched,
                    plan.params,
                )
                &&& texts(res.warnings@) == texts(plan.params.warnings@)
            },
            Err(e) => refusal(answer, STILL_BUILDING@, e),
        },
        answer is Done ==> r is Ok,
{
    let result = match result_of(answer, STILL_BUILDING) {
        Ok(result) => result,
        Err(e) => return Err(e),
    };
    let display = plan.display.as_str();
    let mut items: Vec<DirHit> = Vec::new();
    let mut i: usize = 0;
    while i < result.items.len()
        invariant
            i <= result.items@.len() <= result.scores@.len(),
            items@.len() == i,
            forall|k: int|
                0 <= k < i ==> (#[trigger] items@[k]).shows(result, k, display@, sep),
        decreases result.items@.len() - i,
    {
        items.push(
            DirHit {
                item: DirItemDto::build(&result.items[i], display, sep),
                score: ScoreDto::from(&result.scores[i]),
            },
        );
        i += 1;
    }
    let params = &plan.params;
    Ok(
        DirSearchResponse {
            items,
            total_matched: result.total_matched,
            total_dirs: result.total_dirs,
            page: params.page,
            page_size: params.page_size,
            has_more: has_more(params.page, params.page_size, result.total_matched),
            warnings: cloned(&params.warnings),
        },
    )
}

/// Answers a fuzzy search over files and directories together. The engine gives a score for every
/// item.
pub fn search_mixed(plan: &SearchPlan, answer: Answer<MixedSearchResult>, sep: char) -> (r:
    ApiResult<MixedSearchResponse>)
    requires
        answer matches Answer::Done(result) ==> result.items@.len() <= result.scores@.len(),
    ensures
        match r {
            Ok(res) => answer matches Answer::Done(result) && {
                &&& res.shows(result, plan.display@, sep)
                &&& paged(
                    res.page,
                    res.page_size,
                    res.has_more,
                    result.total_matched,
                    plan.params,
                )
                &&& texts(res.warnings@) == texts(plan.params.warnings@)
            },
            Err(e) => refusal(answer, STILL_BUILDING@, e),
        },
        answer is Done ==> r is Ok,
{
    let result = match result_of(answer, STILL_BUILDING) {
        Ok(result) => result,
        Err(e) => return Err(e),
    };
    let display = plan.display.as_str();
    let mut items: Vec<MixedHit> = Vec::new();
    let mut i: usize = 0;
    while i < result.items.len()
        invariant
            i <= result.items@.len() <= result.scores@.len(),
            items@.len() == i,
            forall|k: int|
                0 <= k < i ==> (#[trigger] items@[k]).shows(result, k, display@, sep),
        decreases result.items@.len() - i,
    {
        let score = ScoreDto::from(&result.scores[i]);
        items.push(
            match &result.items[i] {
                MixedItem::File(f) => MixedHit::file(FileItemDto::build(f, display, sep), score),
                MixedItem::Dir(d) => MixedHit::directory(
                    DirItemDto::build(d, display, sep),
                    score,
                ),
            },
        );
        i += 1;
    }
    let params = &plan.params;
    Ok(
        MixedSearchResponse {
            items,
            total_matched: result.total_matched,
            total_files: result.total_files,
            total_dirs: result.total_dirs,
            location: location_opt(result.location),
            page: params.page,
            page_size: params.page_size,
            has_more: has_more(params.page, params.page_size, result.total_matched),
            warnings: cloned(&params.warnings),
        },
    )
}

// ---------------------------------------------------------------------------------------------
// Globs.
// ---------------------------------------------------------------------------------------------

/// A glob the engine is to match.
pub struct GlobPlan {
    /// The pattern, with its separators folded.
    pub pattern: String,
    pub params: Params,
    pub options: FuzzySearchOptions,
    /// The workspace's root as it is displayed.
    pub display: String,
}

impl GlobPlan {
    /// Whether this is the match a request asks for.
    pub open spec fn carries_out(
        self,
        req: GlobRequest,
        config: Config,
        display: Seq<char>,
    ) -> bool {
        &&& self.pattern@ == folded(req.pattern@)
        &&& self.params.page == or_default(req.page, 0)
        &&& self.params.page_size == page_size_of(req.page_size, config.defaults.page_size)
        &&& self.params.warnings@.len() == 0
        &&& self.options.max_threads == or_default(req.max_threads, 0)
        &&& same_opt(self.options.current_file, req.current_file)
        &&& self.options.combo_boost_score_multiplier == 100
        &&& self.options.min_combo_count == 3
        &&& self.options.pagination == page_window(self.params.page, self.params.page_size)
        &&& self.display@ == display
    }
}

/// Looks the workspace up, checks the pattern, and says what the engine is to match. The pattern
/// is folded rather than rejected: a literal glob field is unambiguously a path pattern, so a
/// backslash can only have been meant as a separator.
pub fn plan_glob(state: &mut AppState, id: &str, req: &GlobRequest, now: Duration) -> (r: ApiResult<
    GlobPlan,
>)
    requires
        old(state).wf(),
    ensures
        final(state).wf(),
        final(state).pool.settings() == old(state).pool.settings(),
        final(state).pool@ == looked_up(old(state).pool@, id@, now@),
        match r {
            Ok(p) => old(state).pool@.dom().contains(id@) && trimmed(folded(req.pattern@)).len() > 0
                && p.carries_out(
                *req,
                old(state).pool.settings(),
                old(state).pool@[id@].root.display@,
            ),
            Err(e) => if !old(state).pool@.dom().contains(id@) {
                is_unknown_workspace(e, id@)
            } else {
                trimmed(folded(req.pattern@)).len() == 0 && e is InvalidBody && e.message()
                    == "pattern must not be empty"@
            },
        },
{
    let display = match workspace(state, id, now) {
        Ok(ws) => ws.root.display.clone(),
        Err(e) => return Err(e),
    };
    let page: usize = match req.page {
        Some(n) => n,
        None => 0,
    };
    let size: usize = page_size(req.page_size, state.pool.config().defaults.page_size);
    let pattern = fold(req.pattern.as_str());
    if trim(pattern.as_str()).as_str().is_empty() {
        return Err(ApiError::InvalidBody("pattern must not be empty".to_owned()));
    }
    let options = FuzzySearchOptions {
        max_threads: match req.max_threads {
            Some(n) => n,
            None => 0,
        },
        current_file: copy_opt(&req.current_file),
        combo_boost_score_multiplier: 100,
        min_combo_count: 3,
        pagination: pagination(page, size),
    };
    let params = Params { page, page_size: size, warnings: Vec::new() };
    Ok(GlobPlan { pattern, params, options, display })
}

/// Answers a literal glob match. It has no fuzzy match ranges and no location to report. The
/// engine gives a score for every item.
pub fn glob(plan: &GlobPlan, answer: Answer<SearchResult>, sep: char) -> (r: ApiResult<
    SearchResponse,
>)
    requires
        answer matches Answer::Done(result) ==> result.items@.len() <= result.scores@.len(),
    ensures
        match r {
            Ok(res) => answer matches Answer::Done(result) && {
                &&& res.shows(result, false, plan.display@, sep)
                &&& res.location is None
                &&& paged(
                    res.page,
                    res.page_size,
                    res.has_more,
                    result.total_matched,
                    plan.params,
                )
                &&& res.warnings@.len() == 0
            },
            Err(e) => refusal(answer, STILL_BUILDING@, e),
        },
        answer is Done ==> r is Ok,
{
    let result = match result_of(answer, STILL_BUILDING) {
        Ok(result) => result,
        Err(e) => return Err(e),
    };
    let params = &plan.params;
    Ok(
        SearchResponse {
            items: hits(&result, false, plan.display.as_str(), sep),
            total_matched: result.total_matched,
            total_files: result.total_files,
            location: None,
            page: params.page,
            page_size: params.page_size,
            has_more: has_more(params.page, params.page_size, result.total_matched),
            warnings: Vec::new(),
        },
    )
}

/// A raw query reaches the parser as the client gave it, and a request without a query is that for
/// the empty text.
pub proof fn raw_queries_are_passed_through(
    p: PreparedQuery,
    req: SearchRequest,
    preset: Preset,
)
    requires
        prepared_from(p, req, preset),
    ensures
        req.query matches Some(raw) ==> p.query_view() == parsed_query(
            parse_preset(preset),
            raw@,
        ),
        req.query is None && req.structured is None ==> p.query_view()
            == parsed_query(parse_preset(preset), seq![]),
{
    if req.query is None && req.structured is None {
        assert(p.raw@ =~= seq![]);
    }
}

// ---------------------------------------------------------------------------------------------
// What a request asks for is what the engine is told.
// ---------------------------------------------------------------------------------------------

/// A page size asked for is used as it is, however large, and so is the configured one where none
/// is asked for. Only 0, which would be no page at all, becomes 1.
pub proof fn page_sizes_are_used_as_they_are(n: usize, default: usize)
    ensures
        n >= 1 ==> page_size_of(Some(n), default) == n,
        default >= 1 ==> page_size_of(None, default) == default,
        page_size_of(Some(0), default) == 1,
        page_size_of(None, 0) == 1,
{
}

/// A page begins after all the pages before it and is as long as the page size says; where its
/// beginning does not fit in a `usize` it begins at the largest one.
pub proof fn windows_are_whole_pages(page: usize, size: usize)
    ensures
        page_window(page, size).limit == size,
        page_window(0, size).offset == 0,
        page * size <= usize::MAX ==> page_window(page, size).offset == page * size,
        page * size > usize::MAX ==> page_window(page, size).offset == usize::MAX,
{
    assert(0 * size == 0);
    assert(page * size >= 0) by (nonlinear_arith);
}

/// A search is run as its request asks, field by field: each thing the client gives is handed to
/// the engine as it is, and each that it leaves out takes its default. The page asked for is the
/// page searched for, in pages of the size asked for.
pub proof fn searches_run_as_they_are_asked_for(
    p: SearchPlan,
    req: SearchRequest,
    preset: Preset,
    config: Config,
    display: Seq<char>,
)
    requires
        p.carries_out(req, preset, config, display),
    ensures
        p.prepared.preset == preset,
        p.display@ == display,
        req.page matches Some(n) ==> p.params.page == n,
        req.page is None ==> p.params.page == 0,
        req.page_size matches Some(n) ==> n >= 1 ==> p.params.page_size == n,
        req.page_size == Some(0usize) ==> p.params.page_size == 1,
        req.page_size is None && config.defaults.page_size >= 1 ==> p.params.page_size
            == config.defaults.page_size,
        req.page_size is None && config.defaults.page_size == 0 ==> p.params.page_size == 1,
        p.options.pagination.limit == p.params.page_size,
        p.params.page * p.params.page_size <= usize::MAX ==> p.options.pagination.offset
            == p.params.page * p.params.page_size,
        p.params.page * p.params.page_size > usize::MAX ==> p.options.pagination.offset
            == usize::MAX,
        req.max_threads matches Some(n) ==> p.options.max_threads == n,
        req.max_threads is None ==> p.options.max_threads == 0,
        req.current_file matches Some(f) ==> (p.options.current_file matches Some(g) && g@ == f@),
        req.current_file is None ==> p.options.current_file is None,
        req.combo_boost_multiplier matches Some(n) ==> p.options.combo_boost_score_multiplier == n,
        req.combo_boost_multiplier is None ==> p.options.combo_boost_score_multiplier == 100,
        req.min_combo_count matches Some(n) ==> p.options.min_combo_count == n,
        req.min_combo_count is None ==> p.options.min_combo_count == 3,
{
    windows_are_whole_pages(p.params.page, p.params.page_size);
}

/// The query that a search is run with is the one the client gave, read by the parser of that kind
/// of search: a raw one as it is, and none at all as the empty text. A raw one is warned about as
/// its own tokens ask for; the others are not.
pub proof fn searches_are_for_the_query_given(
    p: SearchPlan,
    req: SearchRequest,
    preset: Preset,
    config: Config,
    display: Seq<char>,
)
    requires
        p.carries_out(req, preset, config, display),
    ensures
        req.query matches Some(raw) ==> {
            &&& preset is FileSearch ==> p.prepared.query_view() == parsed_query(
                ParsePreset::FileSearch,
                raw@,
            )
            &&& preset is DirSearch ==> p.prepared.query_view() == parsed_query(
                ParsePreset::DirSearch,
                raw@,
            )
            &&& preset is MixedSearch ==> p.prepared.query_view() == parsed_query(
                ParsePreset::MixedSearch,
                raw@,
            )
            &&& texts(p.params.warnings@) == warnings_of(words(raw@))
        },
        req.query is None && req.structured is None ==> {
            &&& preset is FileSearch ==> p.prepared.query_view() == parsed_query(
                ParsePreset::FileSearch,
                seq![],
            )
            &&& preset is DirSearch ==> p.prepared.query_view() == parsed_query(
                ParsePreset::DirSearch,
                seq![],
            )
            &&& preset is MixedSearch ==> p.prepared.query_view() == parsed_query(
                ParsePreset::MixedSearch,
                seq![],
            )
        },
        req.query is None ==> p.params.warnings@.len() == 0,
        req.query is None ==> (req.structured matches Some(q) ==> (
        p.prepared.structured matches Some(s) && s.holds(q) && p.prepared.raw@.len() == 0)),
{
    if p.prepared.structured is None {
        each_search_has_its_own_parser(p.prepared);
    }
    if req.query is None {
        assert(texts(p.params.warnings@).len() == 0);
        if req.structured is None {
            assert(p.prepared.raw@ =~= seq![]);
        }
    }
}

/// A glob is matched as its request asks, field by field: its pattern character by character but
/// for the separators, its page and page size as they are given, and the combo boost, which a
/// glob has no say in, at its default.
pub proof fn globs_run_as_they_are_asked_for(
    p: GlobPlan,
    req: GlobRequest,
    config: Config,
    display: Seq<char>,
)
    requires
        p.carries_out(req, config, display),
    ensures
        p.pattern@.len() == req.pattern@.len(),
        forall|i: int|
            0 <= i < req.pattern@.len() ==> #[trigger] p.pattern@[i] == (if req.pattern@[i]
                == '\\' {
                '/'
            } else {
                req.pattern@[i]
            }),
        p.display@ == display,
        req.page matches Some(n) ==> p.params.page == n,
        req.page is None ==> p.params.page == 0,
        req.page_size matches Some(n) ==> n >= 1 ==> p.params.page_size == n,
        req.page_size == Some(0usize) ==> p.params.page_size == 1,
        req.page_size is None && config.defaults.page_size >= 1 ==> p.params.page_size
            == config.defaults.page_size,
        req.page_size is None && config.defaults.page_size == 0 ==> p.params.page_size == 1,
        p.options.pagination.limit == p.params.page_size,
        p.params.page * p.params.page_size <= usize::MAX ==> p.options.pagination.offset
            == p.params.page * p.params.page_size,
        p.params.page * p.params.page_size > usize::MAX ==> p.options.pagination.offset
            == usize::MAX,
        req.max_threads matches Some(n) ==> p.options.max_threads == n,
        req.max_threads is None ==> p.options.max_threads == 0,
        req.current_file matches Some(f) ==> (p.options.current_file matches Some(g) && g@ == f@),
        req.current_file is None ==> p.options.current_file is None,
        p.options.combo_boost_score_multiplier == 100,
        p.options.min_combo_count == 3,
        p.params.warnings@.len() == 0,
{
    windows_are_whole_pages(p.params.page, p.params.page_size);
}

/// A reply repeats the page and the page size it is for, and says that there is more exactly when
/// the pages up to and with this one do not take in every match.
pub proof fn replies_say_which_page_they_are(
    page: usize,
    size: usize,
    more: bool,
    total: usize,
    params: Params,
)
    requires
        paged(page, size, more, total, params),
    ensures
        page == params.page,
        size == params.page_size,
        more <==> page * size + size < total,
{
    assert((page + 1) * size == page * size + size) by (nonlinear_arith);
}

/// A query given both ways is refused as a bad request, with the words that say so.
pub proof fn two_queries_are_refused_as_a_bad_request(e: ApiError)
    requires
        is_both_forms(e),
    ensures
        e.status_code() == 400,
        e.code() == "invalid-request-body"@,
        e.message() == "supply either `query` or `structured`, not both"@,
{
}

/// What a page takes in and whether there is more agree: there is more after a page exactly where
/// the window of the page after it begins before the last match.
pub proof fn more_agrees_with_the_next_page(
    page: usize,
    asked: Option<usize>,
    default: usize,
    total: usize,
    size: usize,
    here: PaginationArgs,
    next: PaginationArgs,
    more: bool,
)
    requires
        page < usize::MAX,
        call_ensures(page_size, (asked, default), size),
        call_ensures(pagination, (page, size), here),
        call_ensures(pagination, ((page + 1) as usize, size), next),
        call_ensures(has_more, (page, size, total), more),
    ensures
        more <==> next.offset < total,
        here.limit == next.limit,
        here.offset + here.limit <= usize::MAX ==> next.offset == here.offset + here.limit,
        asked matches Some(n) ==> n >= 1 ==> here.limit == n,
        asked is None && default >= 1 ==> here.limit == default,
        here.limit >= 1,
{
    pages_follow_on(page, size);
    more_means_another_page(page, size, total);
}

/// Whatever the server holds, a planned search has the page, the page size and the options its
/// request names, and the display root of the workspace it names. A query given both ways is never
/// planned.
pub proof fn planned_searches_follow_their_request(
    id: &str,
    req: &SearchRequest,
    preset: Preset,
    now: Duration,
)
    ensures
        forall|state: &mut AppState, p: SearchPlan| #[trigger]
            call_ensures(plan, (state, id, req, preset, now), Ok::<SearchPlan, ApiError>(p)) ==> {
                &&& state.pool@.dom().contains(id@)
                &&& p.display@ == state.pool@[id@].root.display@
                &&& !(req.query is Some && req.structured is Some)
                &&& p.prepared.preset == preset
                &&& req.query matches Some(raw) ==> p.prepared.raw@ == raw@
                    && p.prepared.structured is None
                &&& req.page matches Some(n) ==> p.params.page == n
                &&& req.page is None ==> p.params.page == 0
                &&& req.page_size matches Some(n) ==> n >= 1 ==> p.options.pagination.limit == n
                &&& req.page_size is None && state.pool.settings().defaults.page_size >= 1
                    ==> p.options.pagination.limit == state.pool.settings().defaults.page_size
                &&& req.page is None ==> p.options.pagination.offset == 0
                &&& req.max_threads matches Some(n) ==> p.options.max_threads == n
                &&& req.combo_boost_multiplier matches Some(n)
                    ==> p.options.combo_boost_score_multiplier == n
                &&& req.min_combo_count matches Some(n) ==> p.options.min_combo_count == n
            },
{
    assert forall|state: &mut AppState, p: SearchPlan| #[trigger]
        call_ensures(
            plan,
            (state, id, req, preset, now),
            Ok::<SearchPlan, ApiError>(p),
        ) implies p.options.pagination.limit == p.params.page_size && (req.page is None
        ==> p.options.pagination.offset == 0) by {
        windows_are_whole_pages(p.params.page, p.params.page_size);
    }
}

/// A file search is answered with the page that was planned, with the matched parts of each path,
/// and with the location and the warnings of its query; a glob has none of the three.
pub proof fn file_searches_are_answered_as_planned(
    searched: &SearchPlan,
    globbed: &GlobPlan,
    result: SearchResult,
    sep: char,
    a: ApiResult<SearchResponse>,
    b: ApiResult<SearchResponse>,
    i: int,
)
    requires
        0 <= i < result.items@.len() <= result.scores@.len(),
        call_ensures(search, (searched, Answer::Done(result), sep), a),
        call_ensures(glob, (globbed, Answer::Done(result), sep), b),
    ensures
        a matches Ok(res) && {
            &&& res.items@.len() == result.items@.len()
            &&& res.items@[i].shows(result, i, true, searched.display@, sep)
            &&& res.total_matched == result.total_matched
            &&& res.total_files == result.total_files
            &&& res.page == searched.params.page
            &&& res.page_size == searched.params.page_size
            &&& res.has_more <==> res.page * res.page_size + res.page_size < result.total_matched
            &&& texts(res.warnings@) == texts(searched.params.warnings@)
            &&& res.location is Some <==> result.location is Some
        },
        b matches Ok(res) && {
            &&& res.items@.len() == result.items@.len()
            &&& res.items@[i].match_ranges_utf16@.len() == 0
            &&& res.items@[i].shows(result, i, false, globbed.display@, sep)
            &&& res.total_matched == result.total_matched
            &&& res.total_files == result.total_files
            &&& res.page == globbed.params.page
            &&& res.page_size == globbed.params.page_size
            &&& res.has_more <==> res.page * res.page_size + res.page_size < result.total_matched
            &&& res.warnings@.len() == 0
            &&& res.location is None
        },
{
    let p = searched.params.page as int;
    let s = searched.params.page_size as int;
    assert((p + 1) * s == p * s + s) by (nonlinear_arith);
    let q = globbed.params.page as int;
    let t = globbed.params.page_size as int;
    assert((q + 1) * t == q * t + t) by (nonlinear_arith);
    assert(b->Ok_0.items@[i].shows(result, i, false, globbed.display@, sep));
}

/// Directory and mixed searches are answered with the page that was planned and the warnings of
/// their query.
pub proof fn other_searches_are_answered_as_planned(
    planned: &SearchPlan,
    dirs: DirSearchResult,
    mixed: MixedSearchResult,
    sep: char,
    a: ApiResult<DirSearchResponse>,
    b: ApiResult<MixedSearchResponse>,
)
    requires
        dirs.items@.len() <= dirs.scores@.len(),
        mixed.items@.len() <= mixed.scores@.len(),
        call_ensures(search_directories, (planned, Answer::Done(dirs), sep), a),
        call_ensures(search_mixed, (planned, Answer::Done(mixed), sep), b),
    ensures
        a matches Ok(res) && {
            &&& res.shows(dirs, planned.display@, sep)
            &&& res.page == planned.params.page
            &&& res.page_size == planned.params.page_size
            &&& res.has_more <==> res.page * res.page_size + res.page_size < dirs.total_matched
            &&& texts(res.warnings@) == texts(planned.params.warnings@)
        },
        b matches Ok(res) && {
            &&& res.shows(mixed, planned.display@, sep)
            &&& res.page == planned.params.page
            &&& res.page_size == planned.params.page_size
            &&& res.has_more <==> res.page * res.page_size + res.page_size < mixed.total_matched
            &&& texts(res.warnings@) == texts(planned.params.warnings@)
        },
{
    let p = planned.params.page as int;
    let s = planned.params.page_size as int;
    assert((p + 1) * s == p * s + s) by (nonlinear_arith);
}

/// Whatever the server holds, a glob is planned exactly for a workspace that is there and a pattern
/// that is not blank, with the page and the page size its request names.
pub proof fn planned_globs_follow_their_request(id: &str, req: &GlobRequest, now: Duration)
    ensures
        forall|state: &mut AppState, r: ApiResult<GlobPlan>| #[trigger]
            call_ensures(plan_glob, (state, id, req, now), r) ==> {
                &&& r is Ok <==> state.pool@.dom().contains(id@) && trimmed(
                    folded(req.pattern@),
                ).len() > 0
                &&& r matches Ok(p) ==> {
                    &&& p.display@ == state.pool@[id@].root.display@
                    &&& p.pattern@ == folded(req.pattern@)
                    &&& req.page matches Some(n) ==> p.params.page == n
                    &&& req.page is None ==> p.params.page == 0
                    &&& req.page_size matches Some(n) ==> n >= 1 ==> p.options.pagination.limit
                        == n
                    &&& req.page_size is None && state.pool.settings().defaults.page_size >= 1
                        ==> p.options.pagination.limit == state.pool.settings().defaults.page_size
                }
                &&& r matches Err(e) ==> if state.pool@.dom().contains(id@) {
                    e.status_code() == 400
                } else {
                    e.status_code() == 404
                }
            },
{
}

/// A search of an index that is not there yet is to be tried again, and one that the engine refuses
/// is answered with the engine's reason.
pub proof fn searches_without_an_index_are_to_be_tried_again(
    searched: &SearchPlan,
    globbed: &GlobPlan,
    err: EngineError,
    sep: char,
    a: ApiResult<SearchResponse>,
    b: ApiResult<DirSearchResponse>,
    c: ApiResult<MixedSearchResponse>,
    d: ApiResult<SearchResponse>,
    refused: ApiResult<SearchResponse>,
)
    requires
        call_ensures(search, (searched, Answer::Missing, sep), a),
        call_ensures(search_directories, (searched, Answer::Missing, sep), b),
        call_ensures(search_mixed, (searched, Answer::Missing, sep), c),
        call_ensures(glob, (globbed, Answer::Missing, sep), d),
        call_ensures(search, (searched, Answer::Failed(err), sep), refused),
    ensures
        a matches Err(e) && e.status_code() == 503 && e.message() == "index is still building"@,
        b matches Err(e) && e.status_code() == 503 && e.message() == "index is still building"@,
        c matches Err(e) && e.status_code() == 503 && e.message() == "index is still building"@,
        d matches Err(e) && e.status_code() == 503 && e.message() == "index is still building"@,
        refused matches Err(e) && e == reported(err),
{
}

} // verus!
