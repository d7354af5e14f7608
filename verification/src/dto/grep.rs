//! Content search wire types.

use crate::dto::base64::{b64_decoded, b64_text, base64_decode, base64_encode, base64_round_trips};
use crate::dto::file::{FileItemDto, Utf16Range};
use crate::engine::{has_regex_meta, is_regex_meta, Casing, GrepMode};
use crate::error::ApiError;
use crate::number::{decimal, decimal_bytes, decimal_reads_back, parse_usize, parsed_usize};
use crate::text::chars_of;
use vstd::prelude::*;
use vstd::std_specs::convert::FromSpecImpl;

verus! {

/// Case handling.
#[derive(Debug, Clone, Copy, PartialEq, Eq, Structural)]
pub enum CasingDto {
    /// Case-insensitive unless the pattern contains an uppercase character.
    Smart,
    Sensitive,
    Insensitive,
}

impl Default for CasingDto {
    fn default() -> (r: Self)
        ensures
            r == CasingDto::Smart,
    {
        CasingDto::Smart
    }
}

/// The engine's name for a case handling.
pub open spec fn casing_of(c: CasingDto) -> Casing {
    match c {
        CasingDto::Smart => Casing::Smart,
        CasingDto::Sensitive => Casing::Sensitive,
        CasingDto::Insensitive => Casing::Insensitive,
    }
}

impl From<CasingDto> for Casing {
    fn from(c: CasingDto) -> (r: Casing)
        ensures
            c is Smart ==> r is Smart,
            c is Sensitive ==> r is Sensitive,
            c is Insensitive ==> r is Insensitive,
    {
        match c {
            CasingDto::Smart => Casing::Smart,
            CasingDto::Sensitive => Casing::Sensitive,
            CasingDto::Insensitive => Casing::Insensitive,
        }
    }
}

impl FromSpecImpl<CasingDto> for Casing {
    open spec fn obeys_from_spec() -> bool {
        true
    }

    open spec fn from_spec(c: CasingDto) -> Casing {
        casing_of(c)
    }
}

/// How to interpret the pattern.
#[derive(Debug, Clone, Copy, PartialEq, Eq, Structural)]
pub enum GrepModeDto {
    /// Literal text. The fastest path.
    Plain,
    /// A regular expression. An uncompilable pattern falls back to literal matching and reports
    /// why in `regex_fallback_error` rather than failing the request.
    Regex,
    /// Typo-tolerant scoring per line. Substantially slower.
    Fuzzy,
    /// Plain unless the pattern contains regex metacharacters, then regex.
    Auto,
}

impl Default for GrepModeDto {
    fn default() -> (r: Self)
        ensures
            r == GrepModeDto::Plain,
    {
        GrepModeDto::Plain
    }
}

impl GrepModeDto {
    /// The mode a pattern is searched with.
    pub open spec fn resolved(self, grep_text: Seq<char>) -> GrepMode {
        match self {
            GrepModeDto::Plain => GrepMode::PlainText,
            GrepModeDto::Regex => GrepMode::Regex,
            GrepModeDto::Fuzzy => GrepMode::Fuzzy,
            GrepModeDto::Auto => if has_regex_meta(grep_text) {
                GrepMode::Regex
            } else {
                GrepMode::PlainText
            },
        }
    }

    /// `Auto` is resolved against the pattern the engine will actually search for, which is the
    /// query minus any constraint tokens.
    pub fn resolve(self, grep_text: &str) -> (r: GrepMode)
        ensures
            r == self.resolved(grep_text@),
    {
        match self {
            GrepModeDto::Plain => GrepMode::PlainText,
            GrepModeDto::Regex => GrepMode::Regex,
            GrepModeDto::Fuzzy => GrepMode::Fuzzy,
            GrepModeDto::Auto => {
                if fff_search::has_regex_metacharacters(grep_text) {
                    GrepMode::Regex
                } else {
                    GrepMode::PlainText
                }
            },
        }
    }
}

/// An explicit mode is never second-guessed, and `Auto` never picks fuzzy.
pub proof fn explicit_modes_stand(text: Seq<char>, other: Seq<char>)
    ensures
        forall|m: GrepModeDto|
            m !is Auto ==> #[trigger] m.resolved(text) == m.resolved(other),
        forall|m: GrepModeDto|
            (#[trigger] m.resolved(text)) is Fuzzy <==> m is Fuzzy,
{
    assert forall|m: GrepModeDto| m !is Auto implies #[trigger] m.resolved(text) == m.resolved(
        other,
    ) by {}
}

/// Which parser preset to read constraint tokens with.
#[derive(Debug, Clone, Copy, PartialEq, Eq, Structural)]
pub enum GrepPreset {
    /// Recognises extension, glob, path and exclusion constraints.
    Grep,
    /// Additionally treats a filename-looking token (`score.rs`) as a path filter that scopes the
    /// search.
    AiGrep,
}

impl Default for GrepPreset {
    fn default() -> (r: Self)
        ensures
            r == GrepPreset::Grep,
    {
        GrepPreset::Grep
    }
}

/// An opaque continuation token.
///
/// It wraps the engine's file offset, which is a forward-only position in the filtered file list.
/// There is no way to seek backwards or jump to page N. Its view is the token.
#[derive(Debug, Clone, PartialEq, Eq)]
pub struct GrepCursor(String);

impl View for GrepCursor {
    type V = Seq<char>;

    closed spec fn view(&self) -> Seq<char> {
        self.0@
    }
}

/// The token for an offset: base64 of its decimal digits.
pub open spec fn cursor_token(offset: nat) -> Seq<char> {
    b64_text(decimal_bytes(offset))
}

/// The offset that a token stands for, where it stands for one.
pub open spec fn cursor_offset(token: Seq<char>) -> Option<usize> {
    match b64_decoded(token) {
        Some(bytes) => parsed_usize(bytes),
        None => None,
    }
}

impl GrepCursor {
    /// The cursor for an offset.
    pub fn from_offset(offset: usize) -> (r: Self)
        ensures
            r@ == cursor_token(offset as nat),
    {
        let chars = chars_of(decimal(offset as u64).as_str());
        let mut bytes: Vec<u8> = Vec::new();
        let mut i: usize = 0;
        while i < chars.len()
            invariant
                i <= chars@.len(),
                bytes@ == chars@.take(i as int).map_values(|c: char| c as u8),
            decreases chars@.len() - i,
        {
            bytes.push(chars[i] as u8);
            i += 1;
            assert(bytes@ =~= chars@.take(i as int).map_values(|c: char| c as u8));
        }
        assert(chars@.take(i as int) =~= chars@);
        GrepCursor(base64_encode(bytes.as_slice()))
    }

    /// A cursor as a client hands it back.
    pub fn from_token(token: String) -> (r: Self)
        ensures
            r@ == token@,
    {
        GrepCursor(token)
    }

    /// The token, as a client sees it.
    pub fn token(&self) -> (r: &str)
        ensures
            r@ == self@,
    {
        self.0.as_str()
    }

    /// The offset, or the error for a token that stands for none.
    pub fn offset(&self) -> (r: Result<usize, ApiError>)
        ensures
            match r {
                Ok(n) => cursor_offset(self@) == Some(n),
                Err(e) => cursor_offset(self@) is None && is_bad_cursor(e),
            },
    {
        match base64_decode(self.0.as_str()) {
            Some(bytes) => match parse_usize(&bytes) {
                Some(n) => Ok(n),
                None => Err(bad_cursor()),
            },
            None => Err(bad_cursor()),
        }
    }
}

/// The error for a token that stands for no offset.
pub open spec fn is_bad_cursor(e: ApiError) -> bool {
    e is InvalidBody && e.message() == "cursor is not a valid token"@
}

fn bad_cursor() -> (r: ApiError)
    ensures
        is_bad_cursor(r),
{
    ApiError::InvalidBody("cursor is not a valid token".to_owned())
}

/// A cursor gives back the offset it was made from, whatever the offset.
pub proof fn cursors_give_back_their_offset(offset: usize)
    ensures
        cursor_offset(cursor_token(offset as nat)) == Some(offset),
{
    base64_round_trips(decimal_bytes(offset as nat));
    decimal_reads_back(offset);
}

/// Two offsets never share a cursor.
pub proof fn cursors_are_distinct(a: usize, b: usize)
    requires
        cursor_token(a as nat) == cursor_token(b as nat),
    ensures
        a == b,
{
    cursors_give_back_their_offset(a);
    cursors_give_back_their_offset(b);
}

/// A cursor is longer than the number it stands for, so it is never that number itself.
pub proof fn cursors_are_not_the_number(offset: usize)
    ensures
        cursor_token(offset as nat) != crate::number::decimal_text(offset as nat),
{
    crate::number::lemma_decimal_value(offset as nat);
    lemma_b64_grows(decimal_bytes(offset as nat));
}

/// Encoding makes a sequence longer.
proof fn lemma_b64_grows(b: Seq<u8>)
    requires
        b.len() > 0,
    ensures
        b64_text(b).len() > b.len(),
    decreases b.len(),
{
    if b.len() > 3 {
        lemma_b64_grows(b.skip(3));
    } else if b.len() == 3 {
        assert(b64_text(b.skip(3)).len() == 0);
    }
}

/// Content search request.
#[derive(Debug, Clone, Default)]
pub struct GrepRequest {
    /// Pattern plus optional constraint tokens, e.g. `*.rs !tests/ TODO`. Passed to the engine
    /// as it is: backslashes are **not** folded, because a backslash is legitimate content in a
    /// pattern.
    pub query: String,
    pub mode: GrepModeDto,
    pub casing: CasingDto,
    pub preset: GrepPreset,
    /// Continuation token from a previous response's `next_cursor`.
    pub cursor: Option<GrepCursor>,
    /// Soft cap on matches per response; the engine finishes the file it is in.
    pub page_size: Option<usize>,
    pub max_file_size: Option<u64>,
    pub max_matches_per_file: Option<usize>,
    pub before_context: Option<usize>,
    pub after_context: Option<usize>,
    /// Tags lines that look like definitions.
    pub classify_definitions: bool,
    /// Strips leading whitespace from matched and context lines.
    pub trim_whitespace: bool,
    /// Milliseconds before returning partial results. 0 means unbounded.
    pub time_budget_ms: Option<u64>,
    /// Apply the budget even before anything has matched.
    pub enforce_time_budget: bool,
}

/// Multi-pattern search: any pattern matching counts. Always literal text.
#[derive(Debug, Clone, Default)]
pub struct MultiGrepRequest {
    /// At least one literal pattern.
    pub patterns: Vec<String>,
    /// Constraint tokens only, no pattern text, e.g. `*.rs !tests/`.
    pub constraints: String,
    pub casing: CasingDto,
    pub preset: GrepPreset,
    pub cursor: Option<GrepCursor>,
    pub page_size: Option<usize>,
    pub max_file_size: Option<u64>,
    pub max_matches_per_file: Option<usize>,
    pub before_context: Option<usize>,
    pub after_context: Option<usize>,
    pub classify_definitions: bool,
    pub trim_whitespace: bool,
    pub time_budget_ms: Option<u64>,
    pub enforce_time_budget: bool,
}

/// One matching line.
#[derive(Debug, Clone)]
pub struct GrepMatchDto {
    /// Index into the response's `files`.
    pub file_index: usize,
    /// 1-based.
    pub line_number: u64,
    /// Column of the first match on this line, in **UTF-16 code units** into `line_content`.
    pub col_utf16: u32,
    /// Byte offset of this line within the file. Stays a byte count: it is for seeking.
    pub byte_offset: u64,
    pub line_content: String,
    /// Every match on this line, in UTF-16 code units into `line_content`.
    pub match_ranges_utf16: Vec<Utf16Range>,
    /// Only present in fuzzy mode.
    pub fuzzy_score: Option<u16>,
    /// Only meaningful when `classify_definitions` was requested.
    pub is_definition: bool,
    pub context_before: Vec<String>,
    pub context_after: Vec<String>,
}

/// The answer to a content search.
#[derive(Debug, Clone)]
pub struct GrepResponse {
    pub matches: Vec<GrepMatchDto>,
    /// Deduplicated files referenced by the matches' `file_index`.
    pub files: Vec<FileItemDto>,
    pub total_matched: usize,
    /// Files actually searched in this call.
    pub total_files_searched: usize,
    /// Files in the index.
    pub total_files: usize,
    /// Files eligible after filtering out binaries, oversized files and constraint misses.
    pub filtered_file_count: usize,
    pub files_with_matches: usize,
    /// Pass back as `cursor` for the next page. `None` means the search is exhausted.
    pub next_cursor: Option<GrepCursor>,
    /// Set when a regex failed to compile and the search fell back to literal matching.
    pub regex_fallback_error: Option<String>,
    /// True when a constrained query found nothing and the engine retried the whole raw query as
    /// literal text.
    pub literal_fallback: bool,
    /// The mode actually used, after `auto` resolution.
    pub mode: &'static str,
    /// True when the engine's abort signal was tripped. Results are partial.
    ///
    /// This does **not** cover a time budget that ran out: the engine reports that by returning
    /// early with a `next_cursor` and no separate flag.
    pub aborted: bool,
}

/// A case handling keeps its name on the way to the engine.
pub proof fn casings_keep_their_name(c: CasingDto)
    ensures
        c is Smart ==> casing_of(c) == Casing::Smart,
        c is Sensitive ==> casing_of(c) == Casing::Sensitive,
        c is Insensitive ==> casing_of(c) == Casing::Insensitive,
{
}

/// A mode is searched with as it is named; `Auto` is a regular expression exactly where the text
/// holds a character that means something in one, and plain text everywhere else.
pub proof fn modes_are_resolved_by_name(text: Seq<char>)
    ensures
        GrepModeDto::Plain.resolved(text) == GrepMode::PlainText,
        GrepModeDto::Regex.resolved(text) == GrepMode::Regex,
        GrepModeDto::Fuzzy.resolved(text) == GrepMode::Fuzzy,
        (exists|i: int| 0 <= i < text.len() && is_regex_meta(#[trigger] text[i]))
            ==> GrepModeDto::Auto.resolved(text) == GrepMode::Regex,
        (forall|i: int| 0 <= i < text.len() ==> !is_regex_meta(#[trigger] text[i]))
            ==> GrepModeDto::Auto.resolved(text) == GrepMode::PlainText,
{
}

/// A cursor decodes to the digits of its offset, and a token that does not decode, or decodes to
/// something that is no number, stands for no offset.
pub proof fn cursors_hold_the_digits_of_their_offset(offset: usize, token: Seq<char>)
    ensures
        b64_decoded(cursor_token(offset as nat)) == Some(decimal_bytes(offset as nat)),
        b64_decoded(token) is None ==> cursor_offset(token) is None,
        b64_decoded(token) matches Some(bytes) ==> cursor_offset(token) == parsed_usize(bytes),
{
    base64_round_trips(decimal_bytes(offset as nat));
}

/// A bad cursor is a bad request, and says what is wrong with it.
pub proof fn bad_cursors_are_bad_requests(e: ApiError)
    requires
        is_bad_cursor(e),
    ensures
        e.status_code() == 400,
        e.code() == "invalid-request-body"@,
        e.message() == "cursor is not a valid token"@,
{
}

/// What a content search is unless the client says otherwise: plain text, smart case, and the
/// preset that does not take a file name for a path.
pub proof fn what_a_grep_starts_from(m: GrepModeDto, c: CasingDto, p: GrepPreset)
    requires
        call_ensures(GrepModeDto::default, (), m),
        call_ensures(CasingDto::default, (), c),
        call_ensures(GrepPreset::default, (), p),
    ensures
        m == GrepModeDto::Plain,
        c == CasingDto::Smart,
        p == GrepPreset::Grep,
{
}

} // verus!
