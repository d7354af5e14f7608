//! Content search.

use crate::clock::Duration;
use crate::config::Config;
use crate::dto::file::FileItemDto;
use crate::dto::grep::{
    casing_of, cursor_offset, cursor_token, is_bad_cursor, CasingDto, GrepCursor, GrepMatchDto,
    GrepPreset, GrepRequest, GrepResponse, MultiGrepRequest,
};
use crate::engine::{
    constraint_views, default_grep_limits, grep_text, grep_text_of, parse, parsed_constraints,
    parsed_query, Casing, Constraint, GrepMatch, GrepMode, GrepResult, GrepSearchOptions,
    ParsePreset, Query,
};
use crate::error::{ApiError, ApiResult};
use crate::number::{decimal, decimal_text};
use crate::query::cloned;
use crate::routes::search::{page_size, page_size_of};
use crate::routes::{
    is_unknown_workspace, looked_up, refusal, result_of, workspace, Answer, STILL_BUILDING,
};
use crate::state::AppState;
use crate::text::{copy_opt, same_opt, texts, trimmed};
use crate::utf16::{
    encode_utf16, offsets_never_grow, ranges_select_the_same_text, utf16_offset, utf16_prefix_len,
    utf16_range, utf16_range_seq, utf16_ranges,
};
use crate::workspace::or_default;
use vstd::prelude::*;
use vstd::utf8::encode_utf8;

verus! {

// ---------------------------------------------------------------------------------------------
// Queries.
// ---------------------------------------------------------------------------------------------

/// The parser's name for a grep preset.
pub open spec fn parser_preset(preset: GrepPreset) -> ParsePreset {
    match preset {
        GrepPreset::Grep => ParsePreset::Grep,
        GrepPreset::AiGrep => ParsePreset::AiGrep,
    }
}

/// Parses a query with the requested preset.
pub fn parse_with<'a>(text: &'a str, preset: GrepPreset) -> (r: Query<'a>)
    ensures
        r@ == parsed_query(parser_preset(preset), text@),
        preset is Grep ==> r@ == parsed_query(ParsePreset::Grep, text@),
        preset is AiGrep ==> r@ == parsed_query(ParsePreset::AiGrep, text@),
        r.raw_query@ == text@,
{
    match preset {
        GrepPreset::Grep => parse(text, ParsePreset::Grep),
        GrepPreset::AiGrep => parse(text, ParsePreset::AiGrep),
    }
}

/// Parses constraint tokens with the requested preset.
pub fn parse_constraints<'a>(text: &'a str, preset: GrepPreset) -> (r: Vec<Constraint<'a>>)
    ensures
        constraint_views(r@) == parsed_constraints(preset is AiGrep, text@),
        preset is Grep ==> constraint_views(r@) == parsed_constraints(false, text@),
        trimmed(text@).len() == 0 ==> r@.len() == 0,
{
    match preset {
        GrepPreset::Grep => crate::engine::parse_constraints(text, false),
        GrepPreset::AiGrep => crate::engine::parse_constraints(text, true),
    }
}

/// The name of a mode in a reply.
pub open spec fn mode_text(mode: GrepMode) -> Seq<char> {
    match mode {
        GrepMode::PlainText => "plain"@,
        GrepMode::Regex => "regex"@,
        GrepMode::Fuzzy => "fuzzy"@,
    }
}

/// The name of a mode in a reply.
pub fn mode_name(mode: GrepMode) -> (r: &'static str)
    ensures
        r@ == mode_text(mode),
        mode is PlainText ==> r@ == "plain"@,
        mode is Regex ==> r@ == "regex"@,
        mode is Fuzzy ==> r@ == "fuzzy"@,
{
    match mode {
        GrepMode::PlainText => "plain",
        GrepMode::Regex => "regex",
        GrepMode::Fuzzy => "fuzzy",
    }
}

// ---------------------------------------------------------------------------------------------
// Options.
// ---------------------------------------------------------------------------------------------

/// What a client may ask for in either kind of content search.
#[derive(Debug, Clone, Copy)]
pub struct GrepTuning {
    pub casing: CasingDto,
    pub page_size: Option<usize>,
    pub max_file_size: Option<u64>,
    pub max_matches_per_file: Option<usize>,
    pub before_context: Option<usize>,
    pub after_context: Option<usize>,
    pub classify_definitions: bool,
    pub trim_whitespace: bool,
    pub time_budget_ms: Option<u64>,
    pub enforce_time_budget: bool,
}

/// What the engine is told: what the client asks for, else what is configured, else what the
/// engine itself starts from.
pub open spec fn options_of(
    t: GrepTuning,
    mode: GrepMode,
    file_offset: usize,
    config: Config,
) -> GrepSearchOptions {
    GrepSearchOptions {
        max_file_size: or_default(t.max_file_size, 10_485_760),
        max_matches_per_file: or_default(t.max_matches_per_file, 200),
        smart_case: true,
        casing: Some(casing_of(t.casing)),
        file_offset,
        page_limit: page_size_of(t.page_size, config.defaults.grep_page_size),
        mode,
        time_budget_ms: or_default(t.time_budget_ms, config.defaults.grep_time_budget_ms),
        enforce_time_budget: t.enforce_time_budget,
        before_context: or_default(t.before_context, 0),
        after_context: or_default(t.after_context, 0),
        classify_definitions: t.classify_definitions,
        trim_whitespace: t.trim_whitespace,
    }
}

/// What the engine is told.
pub fn options(t: &GrepTuning, mode: GrepMode, file_offset: usize, config: &Config) -> (r:
    GrepSearchOptions)
    ensures
        r == options_of(*t, mode, file_offset, *config),
{
    let (max_file_size, max_matches_per_file) = default_grep_limits();
    GrepSearchOptions {
        max_file_size: match t.max_file_size {
            Some(n) => n,
            None => max_file_size,
        },
        max_matches_per_file: match t.max_matches_per_file {
            Some(n) => n,
            None => max_matches_per_file,
        },
        // `casing` overrides it, but keep it coherent anyway.
        smart_case: true,
        casing: Some(Casing::from(t.casing)),
        file_offset,
        page_limit: page_size(t.page_size, config.defaults.grep_page_size),
        mode,
        time_budget_ms: match t.time_budget_ms {
            Some(n) => n,
            None => config.defaults.grep_time_budget_ms,
        },
        enforce_time_budget: t.enforce_time_budget,
        before_context: match t.before_context {
            Some(n) => n,
            None => 0,
        },
        after_context: match t.after_context {
            Some(n) => n,
            None => 0,
        },
        classify_definitions: t.classify_definitions,
        trim_whitespace: t.trim_whitespace,
    }
}

/// Where a search goes on from: the offset of the cursor, or the beginning. `None` where the
/// cursor stands for no offset.
pub open spec fn start_of(cursor: Option<GrepCursor>) -> Option<usize> {
    match cursor {
        Some(c) => cursor_offset(c@),
        None => Some(0),
    }
}

/// Where a search goes on from.
fn start(cursor: &Option<GrepCursor>) -> (r: ApiResult<usize>)
    ensures
        match r {
            Ok(n) => start_of(*cursor) == Some(n),
            Err(e) => start_of(*cursor) is None && is_bad_cursor(e),
        },
{
    match cursor {
        Some(c) => c.offset(),
        None => Ok(0),
    }
}

// ---------------------------------------------------------------------------------------------
// Requests.
// ---------------------------------------------------------------------------------------------

/// A content search the engine is to run. The query is parsed from the request's own string with
/// `parse_with`.
pub struct GrepPlan {
    pub options: GrepSearchOptions,
    /// The workspace's root as it is displayed.
    pub display: String,
}

/// What a grep request asks for besides its query.
pub open spec fn grep_tuning(req: GrepRequest) -> GrepTuning {
    GrepTuning {
        casing: req.casing,
        page_size: req.page_size,
        max_file_size: req.max_file_size,
        max_matches_per_file: req.max_matches_per_file,
        before_context: req.before_context,
        after_context: req.after_context,
        classify_definitions: req.classify_definitions,
        trim_whitespace: req.trim_whitespace,
        time_budget_ms: req.time_budget_ms,
        enforce_time_budget: req.enforce_time_budget,
    }
}

/// What a multi-pattern request asks for besides its patterns.
pub open spec fn multi_tuning(req: MultiGrepRequest) -> GrepTuning {
    GrepTuning {
        casing: req.casing,
        page_size: req.page_size,
        max_file_size: req.max_file_size,
        max_matches_per_file: req.max_matches_per_file,
        before_context: req.before_context,
        after_context: req.after_context,
        classify_definitions: req.classify_definitions,
        trim_whitespace: req.trim_whitespace,
        time_budget_ms: req.time_budget_ms,
        enforce_time_budget: req.enforce_time_budget,
    }
}

impl GrepTuning {
    /// What a grep request asks for besides its query.
    fn of_grep(req: &GrepRequest) -> (r: Self)
        ensures
            r == grep_tuning(*req),
    {
        GrepTuning {
            casing: req.casing,
            page_size: req.page_size,
            max_file_size: req.max_file_size,
            max_matches_per_file: req.max_matches_per_file,
            before_context: req.before_context,
            after_context: req.after_context,
            classify_definitions: req.classify_definitions,
            trim_whitespace: req.trim_whitespace,
            time_budget_ms: req.time_budget_ms,
            enforce_time_budget: req.enforce_time_budget,
        }
    }

    /// What a multi-pattern request asks for besides its patterns.
    fn of_multi_grep(req: &MultiGrepRequest) -> (r: Self)
        ensures
            r == multi_tuning(*req),
    {
        GrepTuning {
            casing: req.casing,
            page_size: req.page_size,
            max_file_size: req.max_file_size,
            max_matches_per_file: req.max_matches_per_file,
            before_context: req.before_context,
            after_context: req.after_context,
            classify_definitions: req.classify_definitions,
            trim_whitespace: req.trim_whitespace,
            time_budget_ms: req.time_budget_ms,
            enforce_time_budget: req.enforce_time_budget,
        }
    }
}

/// The mode that a query with these terms is searched in: `auto` is resolved against the text the
/// engine will actually search for, which excludes constraint tokens.
pub fn mode_for(req: &GrepRequest, query: &Query<'_>) -> (r: GrepMode)
    ensures
        r == req.mode.resolved(grep_text_of(query.fuzzy_query@)),
{
    req.mode.resolve(grep_text(&query.fuzzy_query).as_str())
}

/// Looks the workspace up, reads the cursor, and says what the engine is to search for.
pub fn plan_grep(state: &mut AppState, id: &str, req: &GrepRequest, now: Duration) -> (r: ApiResult<
    GrepPlan,
>)
    requires
        old(state).wf(),
    ensures
        final(state).wf(),
        final(state).pool.settings() == old(state).pool.settings(),
        final(state).pool@ == looked_up(old(state).pool@, id@, now@),
        match r {
            Ok(p) => old(state).pool@.dom().contains(id@) && start_of(req.cursor) is Some
                && p.options == options_of(
                grep_tuning(*req),
                req.mode.resolved(
                    grep_text_of(parsed_query(parser_preset(req.preset), req.query@).fuzzy),
                ),
                start_of(req.cursor)->0,
                old(state).pool.settings(),
            ) && p.display@ == old(state).pool@[id@].root.display@,
            Err(e) => if !old(state).pool@.dom().contains(id@) {
                is_unknown_workspace(e, id@)
            } else {
                start_of(req.cursor) is None && is_bad_cursor(e)
            },
        },
        r matches Ok(p) ==> {
            &&& req.casing is Smart ==> p.options.casing == Some(Casing::Smart)
            &&& req.casing is Sensitive ==> p.options.casing == Some(Casing::Sensitive)
            &&& req.casing is Insensitive ==> p.options.casing == Some(Casing::Insensitive)
            &&& req.page_size matches Some(n) ==> n >= 1 ==> p.options.page_limit == n
            &&& req.max_file_size matches Some(n) ==> p.options.max_file_size == n
            &&& req.max_matches_per_file matches Some(n) ==> p.options.max_matches_per_file == n
            &&& req.before_context matches Some(n) ==> p.options.before_context == n
            &&& req.after_context matches Some(n) ==> p.options.after_context == n
            &&& req.time_budget_ms matches Some(n) ==> p.options.time_budget_ms == n
            &&& p.options.classify_definitions == req.classify_definitions
            &&& p.options.trim_whitespace == req.trim_whitespace
            &&& p.options.enforce_time_budget == req.enforce_time_budget
        },
{
    let display = match workspace(state, id, now) {
        Ok(ws) => ws.root.display.clone(),
        Err(e) => return Err(e),
    };
    let file_offset = match start(&req.cursor) {
        Ok(n) => n,
        Err(e) => return Err(e),
    };
    let query = parse_with(req.query.as_str(), req.preset);
    let mode = mode_for(req, &query);
    let tuning = GrepTuning::of_grep(req);
    Ok(GrepPlan { options: options(&tuning, mode, file_offset, state.pool.config()), display })
}

/// Where the first empty pattern stands, if there is one.
pub open spec fn first_empty(patterns: Seq<Seq<char>>) -> Option<nat>
    decreases patterns.len(),
{
    if patterns.len() == 0 {
        None
    } else {
        match first_empty(patterns.drop_last()) {
            Some(i) => Some(i),
            None => if patterns.last().len() == 0 {
                Some((patterns.len() - 1) as nat)
            } else {
                None
            },
        }
    }
}

/// The error of a list of patterns that cannot be searched for.
pub open spec fn bad_patterns(patterns: Seq<Seq<char>>, e: ApiError) -> bool {
    &&& e is InvalidBody
    &&& if patterns.len() == 0 {
        e.message() == "patterns must contain at least one entry"@
    } else {
        first_empty(patterns) matches Some(i) && e.message() == "patterns["@ + decimal_text(i)
            + "] is empty; an empty pattern would match every line"@
    }
}

/// Whether a list of patterns can be searched for: there is one, and none is empty.
pub open spec fn good_patterns(patterns: Seq<Seq<char>>) -> bool {
    patterns.len() > 0 && first_empty(patterns) is None
}

/// Checks a list of patterns.
pub fn check_patterns(patterns: &Vec<String>) -> (r: ApiResult<()>)
    ensures
        match r {
            Ok(_) => good_patterns(texts(patterns@)),
            Err(e) => !good_patterns(texts(patterns@)) && bad_patterns(texts(patterns@), e),
        },
{
    if patterns.len() == 0 {
        return Err(
            ApiError::InvalidBody("patterns must contain at least one entry".to_owned()),
        );
    }
    let ghost all = texts(patterns@);
    let mut i: usize = 0;
    while i < patterns.len()
        invariant
            i <= patterns@.len(),
            patterns@.len() > 0,
            all == texts(patterns@),
            first_empty(all.take(i as int)) is None,
        decreases patterns@.len() - i,
    {
        assert(all.take(i + 1).drop_last() =~= all.take(i as int));
        assert(all.take(i + 1).last() == patterns@[i as int]@);
        if patterns[i].as_str().is_empty() {
            proof {
                lemma_first_empty(all, i + 1);
            }
            let mut text = "patterns[".to_owned();
            text.append(decimal(i as u64).as_str());
            text.append("] is empty; an empty pattern would match every line");
            return Err(ApiError::InvalidBody(text));
        }
        i += 1;
    }
    assert(all.take(i as int) =~= all);
    Ok(())
}

/// The first empty pattern of the first few is the first of all.
proof fn lemma_first_empty(patterns: Seq<Seq<char>>, n: int)
    requires
        0 <= n <= patterns.len(),
        first_empty(patterns.take(n)) is Some,
    ensures
        first_empty(patterns) == first_empty(patterns.take(n)),
    decreases patterns.len(),
{
    if n == patterns.len() {
        assert(patterns.take(n) =~= patterns);
    } else {
        let t = patterns.drop_last();
        assert(t.take(n) =~= patterns.take(n));
        lemma_first_empty(t, n);
    }
}

/// Looks the workspace up, checks the patterns, reads the cursor, and says what the engine is to
/// search for. Multi-pattern search is always literal.
pub fn plan_multi_grep(state: &mut AppState, id: &str, req: &MultiGrepRequest, now: Duration) -> (r:
    ApiResult<GrepPlan>)
    requires
        old(state).wf(),
    ensures
        final(state).wf(),
        final(state).pool.settings() == old(state).pool.settings(),
        final(state).pool@ == looked_up(old(state).pool@, id@, now@),
        match r {
            Ok(p) => old(state).pool@.dom().contains(id@) && good_patterns(texts(req.patterns@))
                && start_of(req.cursor) is Some && p.options == options_of(
                multi_tuning(*req),
                GrepMode::PlainText,
                start_of(req.cursor)->0,
                old(state).pool.settings(),
            ) && p.display@ == old(state).pool@[id@].root.display@,
            Err(e) => if !old(state).pool@.dom().contains(id@) {
                is_unknown_workspace(e, id@)
            } else if !good_patterns(texts(req.patterns@)) {
                bad_patterns(texts(req.patterns@), e)
            } else {
                start_of(req.cursor) is None && is_bad_cursor(e)
            },
        },
        r matches Ok(p) ==> {
            &&& req.casing is Smart ==> p.options.casing == Some(Casing::Smart)
            &&& req.casing is Sensitive ==> p.options.casing == Some(Casing::Sensitive)
            &&& req.casing is Insensitive ==> p.options.casing == Some(Casing::Insensitive)
            &&& req.page_size matches Some(n) ==> n >= 1 ==> p.options.page_limit == n
            &&& req.max_file_size matches Some(n) ==> p.options.max_file_size == n
            &&& req.max_matches_per_file matches Some(n) ==> p.options.max_matches_per_file == n
            &&& req.before_context matches Some(n) ==> p.options.before_context == n
            &&& req.after_context matches Some(n) ==> p.options.after_context == n
            &&& req.time_budget_ms matches Some(n) ==> p.options.time_budget_ms == n
            &&& p.options.classify_definitions == req.classify_definitions
            &&& p.options.trim_whitespace == req.trim_whitespace
            &&& p.options.enforce_time_budget == req.enforce_time_budget
        },
{
    let display = match workspace(state, id, now) {
        Ok(ws) => ws.root.display.clone(),
        Err(e) => return Err(e),
    };
    if let Err(e) = check_patterns(&req.patterns) {
        return Err(e);
    }
    let file_offset = match start(&req.cursor) {
        Ok(n) => n,
        Err(e) => return Err(e),
    };
    let tuning = GrepTuning::of_multi_grep(req);
    let mode = GrepMode::PlainText;
    Ok(GrepPlan { options: options(&tuning, mode, file_offset, state.pool.config()), display })
}

// ---------------------------------------------------------------------------------------------
// Replies.
// ---------------------------------------------------------------------------------------------

impl GrepMatchDto {
    /// What is said of a matching line. The column is converted the same way as the ranges, so a
    /// client can index the line with either.
    pub open spec fn shows(self, m: GrepMatch) -> bool {
        &&& self.file_index == m.file_index
        &&& self.line_number == m.line_number
        &&& self.col_utf16 == utf16_offset(m.line_content@, (m.col as u32) as nat)
        &&& self.byte_offset == m.byte_offset
        &&& self.line_content@ == m.line_content@
        &&& self.match_ranges_utf16@ == utf16_range_seq(m.line_content@, m.match_byte_offsets@)
        &&& self.fuzzy_score == m.fuzzy_score
        &&& self.is_definition == m.is_definition
        &&& texts(self.context_before@) == texts(m.context_before@)
        &&& texts(self.context_after@) == texts(m.context_after@)
    }

    /// Reports a matching line.
    pub fn build(m: &GrepMatch) -> (r: Self)
        ensures
            r.shows(*m),
    {
        let line = m.line_content.as_str();
        GrepMatchDto {
            file_index: m.file_index,
            line_number: m.line_number,
            col_utf16: utf16_prefix_len(line, m.col as u32 as usize),
            byte_offset: m.byte_offset,
            line_content: m.line_content.clone(),
            match_ranges_utf16: utf16_ranges(line, m.match_byte_offsets.as_slice()),
            fuzzy_score: m.fuzzy_score,
            is_definition: m.is_definition,
            context_before: cloned(&m.context_before),
            context_after: cloned(&m.context_after),
        }
    }
}

impl GrepResponse {
    /// What is said of a result: every match and every file, in order, and the counts. The cursor
    /// is that of the offset to go on from; 0 is the engine's way to say that there is none.
    pub open spec fn shows(
        self,
        result: GrepResult,
        base: Seq<char>,
        sep: char,
        mode: Seq<char>,
        aborted: bool,
    ) -> bool {
        &&& self.matches@.len() == result.matches@.len()
        &&& forall|i: int|
            0 <= i < self.matches@.len() ==> (#[trigger] self.matches@[i]).shows(
                result.matches@[i],
            )
        &&& self.files@.len() == result.files@.len()
        &&& forall|i: int|
            0 <= i < self.files@.len() ==> (#[trigger] self.files@[i]).shows(
                result.files@[i],
                base,
                sep,
            )
        &&& self.total_matched == result.matches@.len()
        &&& self.total_files_searched == result.total_files_searched
        &&& self.total_files == result.total_files
        &&& self.filtered_file_count == result.filtered_file_count
        &&& self.files_with_matches == result.files_with_matches
        &&& match self.next_cursor {
            Some(c) => result.next_file_offset > 0 && c@ == cursor_token(
                result.next_file_offset as nat,
            ),
            None => result.next_file_offset == 0,
        }
        &&& same_opt(self.regex_fallback_error, result.regex_fallback_error)
        &&& self.literal_fallback == result.literal_fallback
        &&& self.mode@ == mode
        &&& self.aborted == aborted
    }
}

/// Reports the result of a content search.
pub fn to_response(
    result: &GrepResult,
    display: &str,
    sep: char,
    mode: &'static str,
    aborted: bool,
) -> (r: GrepResponse)
    ensures
        r.shows(*result, display@, sep, mode@, aborted),
{
    let mut files: Vec<FileItemDto> = Vec::new();
    let mut i: usize = 0;
    while i < result.files.len()
        invariant
            i <= result.files@.len(),
            files@.len() == i,
            forall|k: int|
                0 <= k < i ==> (#[trigger] files@[k]).shows(result.files@[k], display@, sep),
        decreases result.files@.len() - i,
    {
        files.push(FileItemDto::build(&result.files[i], display, sep));
        i += 1;
    }
    let mut matches: Vec<GrepMatchDto> = Vec::new();
    let mut j: usize = 0;
    while j < result.matches.len()
        invariant
            j <= result.matches@.len(),
            matches@.len() == j,
            forall|k: int| 0 <= k < j ==> (#[trigger] matches@[k]).shows(result.matches@[k]),
        decreases result.matches@.len() - j,
    {
        matches.push(GrepMatchDto::build(&result.matches[j]));
        j += 1;
    }
    GrepResponse {
        total_matched: matches.len(),
        matches,
        files,
        total_files_searched: result.total_files_searched,
        total_files: result.total_files,
        filtered_file_count: result.filtered_file_count,
        files_with_matches: result.files_with_matches,
        next_cursor: if result.next_file_offset > 0 {
            Some(GrepCursor::from_offset(result.next_file_offset))
        } else {
            None
        },
        regex_fallback_error: copy_opt(&result.regex_fallback_error),
        literal_fallback: result.literal_fallback,
        mode,
        aborted,
    }
}

/// Answers a content search; `aborted` says whether the abort signal was tripped.
pub fn grep(plan: &GrepPlan, answer: Answer<GrepResult>, aborted: bool, sep: char) -> (r: ApiResult<
    GrepResponse,
>)
    ensures
        match r {
            Ok(res) => answer matches Answer::Done(result) && res.shows(
                result,
                plan.display@,
                sep,
                mode_text(plan.options.mode),
                aborted,
            ),
            Err(e) => refusal(answer, STILL_BUILDING@, e),
        },
        answer is Done ==> r is Ok,
{
    match result_of(answer, STILL_BUILDING) {
        Ok(result) => Ok(
            to_response(
                &result,
                plan.display.as_str(),
                sep,
                mode_name(plan.options.mode),
                aborted,
            ),
        ),
        Err(e) => Err(e),
    }
}

/// Answers a multi-pattern content search, which is always a literal one.
pub fn multi_grep(plan: &GrepPlan, answer: Answer<GrepResult>, aborted: bool, sep: char) -> (r:
    ApiResult<GrepResponse>)
    ensures
        match r {
            Ok(res) => answer matches Answer::Done(result) && res.shows(
                result,
                plan.display@,
                sep,
                "plain"@,
                aborted,
            ) && res.mode@ == mode_text(GrepMode::PlainText),
            Err(e) => refusal(answer, STILL_BUILDING@, e),
        },
        answer is Done ==> r is Ok,
{
    match result_of(answer, STILL_BUILDING) {
        Ok(result) => Ok(to_response(&result, plan.display.as_str(), sep, "plain", aborted)),
        Err(e) => Err(e),
    }
}

// ---------------------------------------------------------------------------------------------
// What holds of every content search.
// ---------------------------------------------------------------------------------------------

/// Handing a reply's cursor back goes on exactly where the engine left off, and a reply without
/// one is the last.
pub proof fn cursors_continue_the_search(
    res: GrepResponse,
    result: GrepResult,
    base: Seq<char>,
    sep: char,
    mode: Seq<char>,
    aborted: bool,
)
    requires
        res.shows(result, base, sep, mode, aborted),
    ensures
        res.next_cursor is Some ==> start_of(res.next_cursor) == Some(result.next_file_offset),
        res.next_cursor is None <==> result.next_file_offset == 0,
{
    crate::dto::grep::cursors_give_back_their_offset(result.next_file_offset);
}

/// The property a client depends on: slicing a reported line by a reported range, in UTF-16, gives
/// the very text that the engine's byte range gives in UTF-8.
pub proof fn reported_ranges_select_the_match(
    dto: GrepMatchDto,
    m: GrepMatch,
    k: int,
    i: int,
    j: int,
)
    requires
        dto.shows(m),
        0 <= k < m.match_byte_offsets@.len(),
        0 <= i <= j <= m.line_content@.len(),
        m.match_byte_offsets@[k].0 == encode_utf8(m.line_content@.take(i)).len(),
        m.match_byte_offsets@[k].1 == encode_utf8(m.line_content@.take(j)).len(),
    ensures
        ({
            let range = dto.match_ranges_utf16@[k];
            &&& range.start <= range.end <= encode_utf16(dto.line_content@).len()
            &&& encode_utf16(dto.line_content@).subrange(range.start as int, range.end as int)
                == encode_utf16(m.line_content@.subrange(i, j))
        }),
{
    let line = m.line_content@;
    let bytes = m.match_byte_offsets@[k];
    ranges_select_the_same_text(line, i, j);
    offsets_never_grow(line, bytes.0 as nat);
    offsets_never_grow(line, bytes.1 as nat);
    assert(dto.match_ranges_utf16@[k] == utf16_range(line, bytes));
}

/// The column of a match agrees with the start of its range: a client can index the line with
/// either.
pub proof fn the_column_agrees_with_the_range(dto: GrepMatchDto, m: GrepMatch, k: int)
    requires
        dto.shows(m),
        0 <= k < m.match_byte_offsets@.len(),
        m.match_byte_offsets@[k].0 == m.col,
    ensures
        dto.col_utf16 == dto.match_ranges_utf16@[k].start,
{
    let line = m.line_content@;
    let bytes = m.match_byte_offsets@[k];
    offsets_never_grow(line, bytes.0 as nat);
    assert(dto.match_ranges_utf16@[k] == utf16_range(line, bytes));
}

/// Patterns can be searched for exactly when there is one and none is empty.
pub proof fn every_pattern_must_say_something(patterns: Seq<Seq<char>>)
    ensures
        good_patterns(patterns) <==> patterns.len() > 0 && forall|i: int|
            0 <= i < patterns.len() ==> (#[trigger] patterns[i]).len() > 0,
        first_empty(patterns) matches Some(i) ==> i < patterns.len() && patterns[i as int].len()
            == 0 && forall|k: int| 0 <= k < i ==> (#[trigger] patterns[k]).len() > 0,
    decreases patterns.len(),
{
    if patterns.len() > 0 {
        let t = patterns.drop_last();
        let n = patterns.len() - 1;
        every_pattern_must_say_something(t);
        if t.len() == 0 {
            assert(first_empty(t) is None);
        }
        if first_empty(t) is Some {
            let i = first_empty(t)->0;
            assert(patterns[i as int] == t[i as int]);
            assert forall|k: int| 0 <= k < i implies (#[trigger] patterns[k]).len() > 0 by {
                assert(t[k].len() > 0);
            }
        } else {
            assert forall|k: int| 0 <= k < n implies (#[trigger] patterns[k]).len() > 0 by {
                assert(t[k].len() > 0);
            }
            assert(patterns.last() == patterns[n]);
        }
    }
}

// ---------------------------------------------------------------------------------------------
// Chains of pages.
// ---------------------------------------------------------------------------------------------

/// Where a match stands: its file, its line, and its column in UTF-16.
pub struct Hit {
    pub path: Seq<char>,
    pub line_number: u64,
    pub col_utf16: nat,
}

/// The matches of a reply, in order.
pub open spec fn reported_hits(res: GrepResponse) -> Seq<Hit> {
    Seq::new(
        res.matches@.len(),
        |i: int|
            Hit {
                path: res.files@[res.matches@[i].file_index as int].relative_path@,
                line_number: res.matches@[i].line_number,
                col_utf16: res.matches@[i].col_utf16 as nat,
            },
    )
}

/// The matches of a result, in order.
pub open spec fn found_hits(result: GrepResult) -> Seq<Hit> {
    Seq::new(
        result.matches@.len(),
        |i: int|
            Hit {
                path: result.files@[result.matches@[i].file_index as int].relative_path@,
                line_number: result.matches@[i].line_number,
                col_utf16: utf16_offset(
                    result.matches@[i].line_content@,
                    (result.matches@[i].col as u32) as nat,
                ),
            },
    )
}

/// All the lists, one after the other.
pub open spec fn flattened(lists: Seq<Seq<Hit>>) -> Seq<Hit>
    decreases lists.len(),
{
    if lists.len() == 0 {
        seq![]
    } else {
        flattened(lists.drop_last()) + lists.last()
    }
}

/// Whether a result is the page that begins at file `from` of a search whose matches, file by
/// file, are `per_file`: it holds all the matches of the files it went through, at least one file
/// where any is left, and says where to go on, or 0 at the end.
pub open spec fn is_page(result: GrepResult, per_file: Seq<Seq<Hit>>, from: int) -> bool {
    let n = per_file.len() as int;
    let to = if result.next_file_offset == 0 {
        n
    } else {
        result.next_file_offset as int
    };
    &&& 0 <= from <= to <= n
    &&& result.next_file_offset > 0 ==> from < to < n
    &&& forall|i: int|
        0 <= i < result.matches@.len() ==> (#[trigger] result.matches@[i]).file_index
            < result.files@.len()
    &&& found_hits(result) == flattened(per_file.subrange(from, to))
}

/// Where the page `k` of a chain begins: at the beginning, or where the cursor of the page before
/// says.
pub open spec fn chain_start(replies: Seq<GrepResponse>, k: int) -> int {
    if k <= 0 {
        0
    } else {
        match start_of(replies[k - 1].next_cursor) {
            Some(offset) => offset as int,
            None => 0,
        }
    }
}

/// Whether a reply says of a result what it is.
pub open spec fn answers(
    res: GrepResponse,
    result: GrepResult,
    base: Seq<char>,
    sep: char,
) -> bool {
    res.shows(result, base, sep, res.mode@, res.aborted)
}

/// While the index does not change, a chain of pages, each asked for with the cursor of the one
/// before until a reply has none, holds every match exactly once and in order, whatever the page
/// size; and it has no more pages than the search has files, or one where it has none.
pub proof fn cursor_chains_cover_everything_exactly_once(
    per_file: Seq<Seq<Hit>>,
    results: Seq<GrepResult>,
    replies: Seq<GrepResponse>,
    base: Seq<char>,
    sep: char,
)
    requires
        results.len() == replies.len(),
        replies.len() > 0,
        forall|k: int|
            0 <= k < replies.len() ==> answers(#[trigger] replies[k], results[k], base, sep),
        forall|k: int|
            0 <= k < replies.len() ==> is_page(
                #[trigger] results[k],
                per_file,
                chain_start(replies, k),
            ),
        forall|k: int|
            0 <= k < replies.len() - 1 ==> (#[trigger] replies[k]).next_cursor is Some,
        replies.last().next_cursor is None,
    ensures
        flattened(replies.map_values(|res: GrepResponse| reported_hits(res))) == flattened(
            per_file,
        ),
        replies.len() <= per_file.len() || replies.len() == 1,
{
    let last = replies.len() - 1;
    let hits = replies.map_values(|res: GrepResponse| reported_hits(res));
    let from = chain_start(replies, last);
    lemma_chain(per_file, results, replies, base, sep, last);
    assert(answers(replies[last], results[last], base, sep));
    assert(is_page(results[last], per_file, from));
    lemma_last_page(per_file, results[last], replies[last], from, base, sep);
    lemma_one_more(hits, last);
    assert(hits.take(last + 1) =~= hits);
}

/// The pages before page `k` hold all the matches before its beginning.
proof fn lemma_chain(
    per_file: Seq<Seq<Hit>>,
    results: Seq<GrepResult>,
    replies: Seq<GrepResponse>,
    base: Seq<char>,
    sep: char,
    k: int,
)
    requires
        results.len() == replies.len(),
        0 <= k < replies.len(),
        forall|k: int|
            0 <= k < replies.len() ==> answers(#[trigger] replies[k], results[k], base, sep),
        forall|k: int|
            0 <= k < replies.len() ==> is_page(
                #[trigger] results[k],
                per_file,
                chain_start(replies, k),
            ),
        forall|k: int|
            0 <= k < replies.len() - 1 ==> (#[trigger] replies[k]).next_cursor is Some,
    ensures
        flattened(replies.map_values(|res: GrepResponse| reported_hits(res)).take(k)) == flattened(
            per_file.take(chain_start(replies, k)),
        ),
        k <= chain_start(replies, k),
        k > 0 ==> chain_start(replies, k) < per_file.len(),
    decreases k,
{
    let hits = replies.map_values(|res: GrepResponse| reported_hits(res));
    if k == 0 {
        assert(hits.take(0) =~= seq![]);
        assert(per_file.take(0) =~= seq![]);
    } else {
        let j = k - 1;
        lemma_chain(per_file, results, replies, base, sep, j);
        assert(answers(replies[j], results[j], base, sep));
        assert(is_page(results[j], per_file, chain_start(replies, j)));
        assert(replies[j].next_cursor is Some);
        lemma_page(per_file, results[j], replies[j], chain_start(replies, j), base, sep);
        lemma_one_more(hits, j);
    }
}

/// A page with a cursor holds the matches from its beginning to where its cursor points, which is
/// further on and before the end.
proof fn lemma_page(
    per_file: Seq<Seq<Hit>>,
    result: GrepResult,
    reply: GrepResponse,
    from: int,
    base: Seq<char>,
    sep: char,
)
    requires
        answers(reply, result, base, sep),
        is_page(result, per_file, from),
        reply.next_cursor is Some,
    ensures
        start_of(reply.next_cursor) is Some,
        from < start_of(reply.next_cursor)->0 < per_file.len(),
        flattened(per_file.take(from)) + reported_hits(reply) == flattened(
            per_file.take(start_of(reply.next_cursor)->0 as int),
        ),
{
    cursors_continue_the_search(reply, result, base, sep, reply.mode@, reply.aborted);
    lemma_hits(reply, result, base, sep);
    lemma_flattened_split(per_file, from, result.next_file_offset as int);
}

/// A page without a cursor holds the matches from its beginning to the end.
proof fn lemma_last_page(
    per_file: Seq<Seq<Hit>>,
    result: GrepResult,
    reply: GrepResponse,
    from: int,
    base: Seq<char>,
    sep: char,
)
    requires
        answers(reply, result, base, sep),
        is_page(result, per_file, from),
        reply.next_cursor is None,
    ensures
        flattened(per_file.take(from)) + reported_hits(reply) == flattened(per_file),
{
    let n = per_file.len() as int;
    cursors_continue_the_search(reply, result, base, sep, reply.mode@, reply.aborted);
    lemma_hits(reply, result, base, sep);
    lemma_flattened_split(per_file, from, n);
    assert(per_file.take(n) =~= per_file);
}

/// One list more adds its matches.
proof fn lemma_one_more(lists: Seq<Seq<Hit>>, k: int)
    requires
        0 <= k < lists.len(),
    ensures
        flattened(lists.take(k + 1)) == flattened(lists.take(k)) + lists[k],
{
    assert(lists.take(k + 1).drop_last() =~= lists.take(k));
}

/// A reply reports the matches of its result.
proof fn lemma_hits(res: GrepResponse, result: GrepResult, base: Seq<char>, sep: char)
    requires
        answers(res, result, base, sep),
        forall|i: int|
            0 <= i < result.matches@.len() ==> (#[trigger] result.matches@[i]).file_index
                < result.files@.len(),
    ensures
        reported_hits(res) == found_hits(result),
{
    assert forall|i: int| 0 <= i < res.matches@.len() implies reported_hits(res)[i] == found_hits(
        result,
    )[i] by {
        assert(res.matches@[i].shows(result.matches@[i]));
        let f = result.matches@[i].file_index as int;
        assert(res.files@[f].shows(result.files@[f], base, sep));
    }
    assert(reported_hits(res) =~= found_hits(result));
}

/// Lists put together in two parts are those put together at once.
proof fn lemma_flattened_split(lists: Seq<Seq<Hit>>, a: int, b: int)
    requires
        0 <= a <= b <= lists.len(),
    ensures
        flattened(lists.take(b)) == flattened(lists.take(a)) + flattened(lists.subrange(a, b)),
    decreases b - a,
{
    if a == b {
        assert(lists.subrange(a, b) =~= seq![]);
        assert(flattened(lists.take(a)) + flattened(seq![]) =~= flattened(lists.take(a)));
    } else {
        lemma_flattened_split(lists, a, b - 1);
        assert(lists.take(b).drop_last() =~= lists.take(b - 1));
        assert(lists.subrange(a, b).drop_last() =~= lists.subrange(a, b - 1));
        assert(flattened(lists.take(b)) =~= flattened(lists.take(a)) + flattened(
            lists.subrange(a, b),
        ));
    }
}

// ---------------------------------------------------------------------------------------------
// What a request asks for is what the engine is told.
// ---------------------------------------------------------------------------------------------

/// A content search is run as its request asks, field by field: each thing the client gives is
/// handed to the engine as it is, and each that it leaves out takes the configured default, or
/// else the engine's own. The case handling is the one named; a page size of 0 becomes 1 and no
/// other page size is changed; the search goes on from the file offset of the cursor.
pub proof fn greps_run_as_they_are_asked_for(
    req: GrepRequest,
    mode: GrepMode,
    file_offset: usize,
    config: Config,
    o: GrepSearchOptions,
)
    requires
        o == options_of(grep_tuning(req), mode, file_offset, config),
    ensures
        req.casing is Smart ==> o.casing == Some(Casing::Smart),
        req.casing is Sensitive ==> o.casing == Some(Casing::Sensitive),
        req.casing is Insensitive ==> o.casing == Some(Casing::Insensitive),
        o.smart_case,
        o.mode == mode,
        o.file_offset == file_offset,
        req.page_size matches Some(n) ==> n >= 1 ==> o.page_limit == n,
        req.page_size is None && config.defaults.grep_page_size >= 1 ==> o.page_limit
            == config.defaults.grep_page_size,
        req.page_size == Some(0usize) ==> o.page_limit == 1,
        req.page_size is None && config.defaults.grep_page_size == 0 ==> o.page_limit == 1,
        req.max_file_size matches Some(n) ==> o.max_file_size == n,
        req.max_file_size is None ==> o.max_file_size == 10 * 1024 * 1024,
        req.max_matches_per_file matches Some(n) ==> o.max_matches_per_file == n,
        req.max_matches_per_file is None ==> o.max_matches_per_file == 200,
        req.before_context matches Some(n) ==> o.before_context == n,
        req.before_context is None ==> o.before_context == 0,
        req.after_context matches Some(n) ==> o.after_context == n,
        req.after_context is None ==> o.after_context == 0,
        o.classify_definitions == req.classify_definitions,
        o.trim_whitespace == req.trim_whitespace,
        req.time_budget_ms matches Some(n) ==> o.time_budget_ms == n,
        req.time_budget_ms is None ==> o.time_budget_ms == config.defaults.grep_time_budget_ms,
        o.enforce_time_budget == req.enforce_time_budget,
{
}

/// A multi-pattern search is run as its request asks, field by field, in the same way.
pub proof fn multi_greps_run_as_they_are_asked_for(
    req: MultiGrepRequest,
    mode: GrepMode,
    file_offset: usize,
    config: Config,
    o: GrepSearchOptions,
)
    requires
        o == options_of(multi_tuning(req), mode, file_offset, config),
    ensures
        req.casing is Smart ==> o.casing == Some(Casing::Smart),
        req.casing is Sensitive ==> o.casing == Some(Casing::Sensitive),
        req.casing is Insensitive ==> o.casing == Some(Casing::Insensitive),
        o.smart_case,
        o.mode == mode,
        o.file_offset == file_offset,
        req.page_size matches Some(n) ==> n >= 1 ==> o.page_limit == n,
        req.page_size is None && config.defaults.grep_page_size >= 1 ==> o.page_limit
            == config.defaults.grep_page_size,
        req.page_size == Some(0usize) ==> o.page_limit == 1,
        req.page_size is None && config.defaults.grep_page_size == 0 ==> o.page_limit == 1,
        req.max_file_size matches Some(n) ==> o.max_file_size == n,
        req.max_file_size is None ==> o.max_file_size == 10 * 1024 * 1024,
        req.max_matches_per_file matches Some(n) ==> o.max_matches_per_file == n,
        req.max_matches_per_file is None ==> o.max_matches_per_file == 200,
        req.before_context matches Some(n) ==> o.before_context == n,
        req.before_context is None ==> o.before_context == 0,
        req.after_context matches Some(n) ==> o.after_context == n,
        req.after_context is None ==> o.after_context == 0,
        o.classify_definitions == req.classify_definitions,
        o.trim_whitespace == req.trim_whitespace,
        req.time_budget_ms matches Some(n) ==> o.time_budget_ms == n,
        req.time_budget_ms is None ==> o.time_budget_ms == config.defaults.grep_time_budget_ms,
        o.enforce_time_budget == req.enforce_time_budget,
{
}

/// The two kinds of content search agree: requests that ask for the same are run with the same
/// options.
pub proof fn both_kinds_of_grep_read_their_options_alike(
    a: GrepRequest,
    b: MultiGrepRequest,
    mode: GrepMode,
    file_offset: usize,
    config: Config,
)
    requires
        a.casing == b.casing,
        a.page_size == b.page_size,
        a.max_file_size == b.max_file_size,
        a.max_matches_per_file == b.max_matches_per_file,
        a.before_context == b.before_context,
        a.after_context == b.after_context,
        a.classify_definitions == b.classify_definitions,
        a.trim_whitespace == b.trim_whitespace,
        a.time_budget_ms == b.time_budget_ms,
        a.enforce_time_budget == b.enforce_time_budget,
    ensures
        options_of(grep_tuning(a), mode, file_offset, config) == options_of(
            multi_tuning(b),
            mode,
            file_offset,
            config,
        ),
{
}

/// A grep query is read by the parser preset it names.
pub proof fn each_grep_has_its_own_parser(preset: GrepPreset, text: Seq<char>)
    ensures
        preset is Grep ==> parsed_query(parser_preset(preset), text) == parsed_query(
            ParsePreset::Grep,
            text,
        ),
        preset is AiGrep ==> parsed_query(parser_preset(preset), text) == parsed_query(
            ParsePreset::AiGrep,
            text,
        ),
{
}

/// A reply names the mode that was searched in, and no two modes share a name.
pub proof fn modes_are_told_apart(a: GrepMode, b: GrepMode)
    ensures
        a is PlainText ==> mode_text(a) == "plain"@,
        a is Regex ==> mode_text(a) == "regex"@,
        a is Fuzzy ==> mode_text(a) == "fuzzy"@,
        mode_text(a) == mode_text(b) ==> a == b,
{
    reveal_strlit("plain");
    reveal_strlit("regex");
    reveal_strlit("fuzzy");
    assert(mode_text(a)[0] != mode_text(b)[0] || a == b);
}

/// A search without a cursor begins at the first file; one with a cursor begins where the cursor
/// was made to begin, and a token that no offset gives is refused.
pub proof fn searches_begin_where_their_cursor_says(cursor: GrepCursor, offset: usize)
    ensures
        start_of(None) == Some(0usize),
        cursor@ == cursor_token(offset as nat) ==> start_of(Some(cursor)) == Some(offset),
        crate::dto::base64::b64_decoded(cursor@) is None ==> start_of(Some(cursor)) is None,
{
    crate::dto::grep::cursors_give_back_their_offset(offset);
}

/// A matching line is reported in full and each part of it in its own place: the line, its number
/// and its offset as the engine gives them, what comes before it before and what comes after it
/// after.
pub proof fn matches_are_reported_in_full(dto: GrepMatchDto, m: GrepMatch)
    requires
        dto.shows(m),
    ensures
        dto.file_index == m.file_index,
        dto.line_number == m.line_number,
        dto.byte_offset == m.byte_offset,
        dto.line_content@ == m.line_content@,
        dto.fuzzy_score == m.fuzzy_score,
        dto.is_definition == m.is_definition,
        dto.context_before@.len() == m.context_before@.len(),
        forall|k: int|
            0 <= k < m.context_before@.len() ==> (#[trigger] dto.context_before@[k])@
                == m.context_before@[k]@,
        dto.context_after@.len() == m.context_after@.len(),
        forall|k: int|
            0 <= k < m.context_after@.len() ==> (#[trigger] dto.context_after@[k])@
                == m.context_after@[k]@,
        dto.match_ranges_utf16@.len() == m.match_byte_offsets@.len(),
        forall|k: int|
            0 <= k < m.match_byte_offsets@.len() ==> (#[trigger] dto.match_ranges_utf16@[k]).start
                <= m.match_byte_offsets@[k].0 && dto.match_ranges_utf16@[k].end
                <= m.match_byte_offsets@[k].1,
{
    assert(texts(dto.context_before@).len() == texts(m.context_before@).len());
    assert forall|k: int| 0 <= k < m.context_before@.len() implies (
    #[trigger] dto.context_before@[k])@ == m.context_before@[k]@ by {
        assert(texts(dto.context_before@)[k] == texts(m.context_before@)[k]);
    }
    assert(texts(dto.context_after@).len() == texts(m.context_after@).len());
    assert forall|k: int| 0 <= k < m.context_after@.len() implies (
    #[trigger] dto.context_after@[k])@ == m.context_after@[k]@ by {
        assert(texts(dto.context_after@)[k] == texts(m.context_after@)[k]);
    }
    assert forall|k: int| 0 <= k < m.match_byte_offsets@.len() implies (
    #[trigger] dto.match_ranges_utf16@[k]).start <= m.match_byte_offsets@[k].0
        && dto.match_ranges_utf16@[k].end <= m.match_byte_offsets@[k].1 by {
        let bytes = m.match_byte_offsets@[k];
        offsets_never_grow(m.line_content@, bytes.0 as nat);
        offsets_never_grow(m.line_content@, bytes.1 as nat);
        assert(dto.match_ranges_utf16@[k] == utf16_range(m.line_content@, bytes));
    }
}

/// The counts of a content search are the engine's, each under its own name; `total_matched` is
/// the number of matches in the reply. Which file a match is in, the reply says as the engine does.
pub proof fn grep_replies_count_what_was_found(
    res: GrepResponse,
    result: GrepResult,
    base: Seq<char>,
    sep: char,
    mode: Seq<char>,
    aborted: bool,
)
    requires
        res.shows(result, base, sep, mode, aborted),
    ensures
        res.matches@.len() == result.matches@.len(),
        res.files@.len() == result.files@.len(),
        res.total_matched == res.matches@.len(),
        res.total_files_searched == result.total_files_searched,
        res.total_files == result.total_files,
        res.filtered_file_count == result.filtered_file_count,
        res.files_with_matches == result.files_with_matches,
        res.literal_fallback == result.literal_fallback,
        res.aborted == aborted,
        res.mode@ == mode,
        res.regex_fallback_error is Some <==> result.regex_fallback_error is Some,
        result.regex_fallback_error matches Some(why) ==> res.regex_fallback_error->0@ == why@,
        forall|i: int|
            0 <= i < result.files@.len() ==> (#[trigger] res.files@[i]).relative_path@
                == result.files@[i].relative_path@ && res.files@[i].shows(
                result.files@[i],
                base,
                sep,
            ),
        forall|i: int|
            0 <= i < result.matches@.len() ==> (#[trigger] res.matches@[i]).file_index
                == result.matches@[i].file_index && res.matches@[i].line_number
                == result.matches@[i].line_number && res.matches@[i].line_content@
                == result.matches@[i].line_content@ && res.matches@[i].shows(result.matches@[i]),
{
    assert forall|i: int| 0 <= i < result.files@.len() implies (
    #[trigger] res.files@[i]).relative_path@ == result.files@[i].relative_path@
        && res.files@[i].shows(result.files@[i], base, sep) by {
        assert(res.files@[i].shows(result.files@[i], base, sep));
    }
    assert forall|i: int| 0 <= i < result.matches@.len() implies (
    #[trigger] res.matches@[i]).file_index == result.matches@[i].file_index
        && res.matches@[i].line_number == result.matches@[i].line_number
        && res.matches@[i].line_content@ == result.matches@[i].line_content@
        && res.matches@[i].shows(result.matches@[i]) by {
        assert(res.matches@[i].shows(result.matches@[i]));
    }
}

/// Patterns that cannot be searched for are a bad request: there are none, or the first that is
/// empty is named by its place.
pub proof fn bad_patterns_are_named(patterns: Seq<Seq<char>>, e: ApiError, k: int)
    requires
        bad_patterns(patterns, e),
    ensures
        e.status_code() == 400,
        e.code() == "invalid-request-body"@,
        patterns.len() == 0 ==> e.message() == "patterns must contain at least one entry"@,
        0 <= k < patterns.len() && patterns[k].len() == 0 && (forall|j: int|
            0 <= j < k ==> (#[trigger] patterns[j]).len() > 0) ==> e.message() == "patterns["@
            + decimal_text(k as nat) + "] is empty; an empty pattern would match every line"@,
{
    every_pattern_must_say_something(patterns);
    if patterns.len() > 0 {
        let i = first_empty(patterns)->0 as int;
        if 0 <= k < patterns.len() && patterns[k].len() == 0 && (forall|j: int|
            0 <= j < k ==> (#[trigger] patterns[j]).len() > 0) {
            if i < k {
                assert(patterns[i].len() > 0);
            } else if k < i {
                assert(patterns[k].len() > 0);
            }
        }
    }
}

/// Whatever the server holds, a planned content search has the options its request names, the
/// display root of the workspace it names, and begins at the first file where no cursor is given.
pub proof fn planned_greps_follow_their_request(id: &str, req: &GrepRequest, now: Duration)
    ensures
        forall|state: &mut AppState, p: GrepPlan| #[trigger]
            call_ensures(plan_grep, (state, id, req, now), Ok::<GrepPlan, ApiError>(p)) ==> {
                &&& state.pool@.dom().contains(id@)
                &&& p.display@ == state.pool@[id@].root.display@
                &&& req.casing is Smart ==> p.options.casing == Some(Casing::Smart)
                &&& req.casing is Sensitive ==> p.options.casing == Some(Casing::Sensitive)
                &&& req.casing is Insensitive ==> p.options.casing == Some(Casing::Insensitive)
                &&& req.mode is Plain ==> p.options.mode == GrepMode::PlainText
                &&& req.mode is Regex ==> p.options.mode == GrepMode::Regex
                &&& req.mode is Fuzzy ==> p.options.mode == GrepMode::Fuzzy
                &&& req.cursor is None ==> p.options.file_offset == 0
                &&& req.page_size matches Some(n) ==> n >= 1 ==> p.options.page_limit == n
                &&& req.page_size is None && state.pool.settings().defaults.grep_page_size >= 1
                    ==> p.options.page_limit == state.pool.settings().defaults.grep_page_size
                &&& req.before_context matches Some(n) ==> p.options.before_context == n
                &&& req.after_context matches Some(n) ==> p.options.after_context == n
                &&& req.max_file_size matches Some(n) ==> p.options.max_file_size == n
                &&& req.max_matches_per_file matches Some(n) ==> p.options.max_matches_per_file
                    == n
                &&& req.time_budget_ms matches Some(n) ==> p.options.time_budget_ms == n
                &&& req.time_budget_ms is None ==> p.options.time_budget_ms
                    == state.pool.settings().defaults.grep_time_budget_ms
                &&& p.options.classify_definitions == req.classify_definitions
                &&& p.options.trim_whitespace == req.trim_whitespace
                &&& p.options.enforce_time_budget == req.enforce_time_budget
            },
{
}

/// Whatever the server holds, a planned multi-pattern search is a literal one with the options its
/// request names, over patterns none of which is empty.
pub proof fn planned_multi_greps_follow_their_request(
    id: &str,
    req: &MultiGrepRequest,
    now: Duration,
)
    ensures
        forall|state: &mut AppState, p: GrepPlan| #[trigger]
            call_ensures(plan_multi_grep, (state, id, req, now), Ok::<GrepPlan, ApiError>(p)) ==> {
                &&& state.pool@.dom().contains(id@)
                &&& p.display@ == state.pool@[id@].root.display@
                &&& req.patterns@.len() > 0
                &&& p.options.mode == GrepMode::PlainText
                &&& req.casing is Smart ==> p.options.casing == Some(Casing::Smart)
                &&& req.casing is Sensitive ==> p.options.casing == Some(Casing::Sensitive)
                &&& req.casing is Insensitive ==> p.options.casing == Some(Casing::Insensitive)
                &&& req.cursor is None ==> p.options.file_offset == 0
                &&& req.page_size matches Some(n) ==> n >= 1 ==> p.options.page_limit == n
                &&& req.page_size is None && state.pool.settings().defaults.grep_page_size >= 1
                    ==> p.options.page_limit == state.pool.settings().defaults.grep_page_size
                &&& req.before_context matches Some(n) ==> p.options.before_context == n
                &&& req.after_context matches Some(n) ==> p.options.after_context == n
                &&& req.max_file_size matches Some(n) ==> p.options.max_file_size == n
                &&& req.max_matches_per_file matches Some(n) ==> p.options.max_matches_per_file
                    == n
                &&& req.time_budget_ms matches Some(n) ==> p.options.time_budget_ms == n
                &&& req.time_budget_ms is None ==> p.options.time_budget_ms
                    == state.pool.settings().defaults.grep_time_budget_ms
                &&& p.options.classify_definitions == req.classify_definitions
                &&& p.options.trim_whitespace == req.trim_whitespace
                &&& p.options.enforce_time_budget == req.enforce_time_budget
            },
{
    assert(texts(req.patterns@).len() == req.patterns@.len());
}

/// A content search that the engine did is answered with its matches and the mode that was
/// planned; one with several patterns is always answered as a plain one. Whether it was aborted is
/// said as it is.
pub proof fn greps_are_answered_in_their_mode(
    plan: &GrepPlan,
    result: GrepResult,
    aborted: bool,
    sep: char,
    one: ApiResult<GrepResponse>,
    many: ApiResult<GrepResponse>,
)
    requires
        call_ensures(grep, (plan, Answer::Done(result), aborted, sep), one),
        call_ensures(multi_grep, (plan, Answer::Done(result), aborted, sep), many),
    ensures
        one matches Ok(res) && {
            &&& plan.options.mode is PlainText ==> res.mode@ == "plain"@
            &&& plan.options.mode is Regex ==> res.mode@ == "regex"@
            &&& plan.options.mode is Fuzzy ==> res.mode@ == "fuzzy"@
            &&& res.matches@.len() == result.matches@.len()
            &&& res.total_matched == result.matches@.len()
            &&& res.aborted == aborted
            &&& res.next_cursor is None <==> result.next_file_offset == 0
        },
        many matches Ok(res) && {
            &&& res.mode@ == "plain"@
            &&& res.matches@.len() == result.matches@.len()
            &&& res.total_matched == result.matches@.len()
            &&& res.aborted == aborted
            &&& res.next_cursor is None <==> result.next_file_offset == 0
        },
{
}

} // verus!
