//! Path search wire types.

use crate::dto::file::{
    location_dto_opt, score_dto, DirItemDto, FileItemDto, LocationDto, ScoreDto, Utf16Range,
};
use crate::engine::{DirSearchResult, MixedItem, MixedSearchResult, SearchResult};
use crate::query::StructuredQuery;
use crate::utf16::{offsets_never_grow, utf16_offset, utf16_range, utf16_range_seq};
use vstd::prelude::*;

verus! {

/// Search request. Supply `query`, or `structured`, or neither (an empty query ranks the whole
/// index by frecency). Supplying both is rejected rather than silently preferring one.
#[derive(Debug, Clone, Default)]
pub struct SearchRequest {
    /// The raw query DSL, e.g. `git:modified src/**/*.rs !tests/ user controller`. Passed to the
    /// engine as it is. Glob separators must be `/`.
    pub query: Option<String>,
    /// Constraints as data, instead of a DSL string.
    pub structured: Option<StructuredQuery>,
    /// Zero-based page index.
    pub page: Option<usize>,
    /// Defaults to the configured page size.
    pub page_size: Option<usize>,
    /// A path to deprioritise, so the file a caller is already looking at does not dominate its
    /// own results.
    pub current_file: Option<String>,
    /// 0 lets the engine choose.
    pub max_threads: Option<usize>,
    /// Query-history combo boost.
    pub combo_boost_multiplier: Option<i32>,
    pub min_combo_count: Option<u32>,
}

/// Glob-only request. Bypasses the query parser entirely: the pattern is used literally, results
/// are frecency-ranked.
#[derive(Debug, Clone)]
pub struct GlobRequest {
    /// Forward slashes only.
    pub pattern: String,
    pub page: Option<usize>,
    pub page_size: Option<usize>,
    pub current_file: Option<String>,
    pub max_threads: Option<usize>,
}

/// One file hit, with its score and match highlighting.
///
/// The engine returns items, scores and match offsets as three parallel lists; they are zipped
/// here. Nothing is lost.
#[derive(Debug, Clone)]
pub struct SearchHit {
    pub item: FileItemDto,
    pub score: ScoreDto,
    /// Which parts of the item's relative path matched, in UTF-16 code units.
    pub match_ranges_utf16: Vec<Utf16Range>,
}

#[derive(Debug, Clone)]
pub struct DirHit {
    pub item: DirItemDto,
    pub score: ScoreDto,
}

/// Whether a mixed hit is a file or a directory.
#[derive(Debug, Clone, Copy, PartialEq, Eq, Structural)]
pub enum MixedKind {
    File,
    Directory,
}

/// A file from a mixed search.
#[derive(Debug, Clone)]
pub struct MixedFileHit {
    /// Always `File`. The discriminator.
    pub kind: MixedKind,
    pub item: FileItemDto,
    pub score: ScoreDto,
}

/// A directory from a mixed search.
#[derive(Debug, Clone)]
pub struct MixedDirectoryHit {
    /// Always `Directory`. The discriminator.
    pub kind: MixedKind,
    pub item: DirItemDto,
    pub score: ScoreDto,
}

/// A hit from a mixed search: a file or a directory, distinguished by its kind.
#[derive(Debug, Clone)]
pub enum MixedHit {
    File(MixedFileHit),
    Directory(MixedDirectoryHit),
}

impl MixedHit {
    pub fn file(item: FileItemDto, score: ScoreDto) -> (r: Self)
        ensures
            r == MixedHit::File((MixedFileHit { kind: MixedKind::File, item, score })),
    {
        MixedHit::File(MixedFileHit { kind: MixedKind::File, item, score })
    }

    pub fn directory(item: DirItemDto, score: ScoreDto) -> (r: Self)
        ensures
            r == MixedHit::Directory(
                (MixedDirectoryHit { kind: MixedKind::Directory, item, score }),
            ),
    {
        MixedHit::Directory(MixedDirectoryHit { kind: MixedKind::Directory, item, score })
    }
}

/// The answer to a file search.
#[derive(Debug, Clone)]
pub struct SearchResponse {
    pub items: Vec<SearchHit>,
    /// Matches across the whole index, not just this page.
    pub total_matched: usize,
    /// Files in the index.
    pub total_files: usize,
    /// A `file.ts:42:10` suffix parsed out of the query, if present.
    pub location: Option<LocationDto>,
    pub page: usize,
    pub page_size: usize,
    pub has_more: bool,
    /// Non-fatal notes about the query.
    pub warnings: Vec<String>,
}

/// The answer to a directory search.
#[derive(Debug, Clone)]
pub struct DirSearchResponse {
    pub items: Vec<DirHit>,
    pub total_matched: usize,
    pub total_dirs: usize,
    pub page: usize,
    pub page_size: usize,
    pub has_more: bool,
    pub warnings: Vec<String>,
}

/// The answer to a mixed search.
#[derive(Debug, Clone)]
pub struct MixedSearchResponse {
    pub items: Vec<MixedHit>,
    pub total_matched: usize,
    pub total_files: usize,
    pub total_dirs: usize,
    pub location: Option<LocationDto>,
    pub page: usize,
    pub page_size: usize,
    pub has_more: bool,
    pub warnings: Vec<String>,
}

/// The byte ranges that matched in item `i`; none where the engine reports none for it.
pub open spec fn offsets_at(result: SearchResult, i: int) -> Seq<(u32, u32)> {
    if i < result.match_byte_offsets@.len() {
        result.match_byte_offsets@[i]@
    } else {
        seq![]
    }
}

impl SearchHit {
    /// What is said of item `i` of a result. The matched parts are left out where `ranges` is
    /// false.
    pub open spec fn shows(
        self,
        result: SearchResult,
        i: int,
        ranges: bool,
        base: Seq<char>,
        sep: char,
    ) -> bool {
        &&& self.item.shows(result.items@[i], base, sep)
        &&& self.score == score_dto(result.scores@[i])
        &&& self.match_ranges_utf16@ == if ranges {
            utf16_range_seq(result.items@[i].relative_path@, offsets_at(result, i))
        } else {
            seq![]
        }
    }
}

impl DirHit {
    /// What is said of item `i` of a result.
    pub open spec fn shows(
        self,
        result: DirSearchResult,
        i: int,
        base: Seq<char>,
        sep: char,
    ) -> bool {
        &&& self.item.shows(result.items@[i], base, sep)
        &&& self.score == score_dto(result.scores@[i])
    }
}

impl MixedHit {
    /// What is said of item `i` of a result: a file as a file, a directory as a directory.
    pub open spec fn shows(
        self,
        result: MixedSearchResult,
        i: int,
        base: Seq<char>,
        sep: char,
    ) -> bool {
        match result.items@[i] {
            MixedItem::File(f) => self matches MixedHit::File(hit) && hit.kind == MixedKind::File
                && hit.item.shows(f, base, sep) && hit.score == score_dto(result.scores@[i]),
            MixedItem::Dir(d) => self matches MixedHit::Directory(hit) && hit.kind
                == MixedKind::Directory && hit.item.shows(d, base, sep) && hit.score == score_dto(
                result.scores@[i],
            ),
        }
    }
}

impl SearchResponse {
    /// What is said of a result: every item, in order, and the counts.
    pub open spec fn shows(
        self,
        result: SearchResult,
        ranges: bool,
        base: Seq<char>,
        sep: char,
    ) -> bool {
        &&& self.items@.len() == result.items@.len()
        &&& forall|i: int|
            0 <= i < self.items@.len() ==> (#[trigger] self.items@[i]).shows(
                result,
                i,
                ranges,
                base,
                sep,
            )
        &&& self.total_matched == result.total_matched
        &&& self.total_files == result.total_files
    }
}

impl DirSearchResponse {
    /// What is said of a result: every item, in order, and the counts.
    pub open spec fn shows(self, result: DirSearchResult, base: Seq<char>, sep: char) -> bool {
        &&& self.items@.len() == result.items@.len()
        &&& forall|i: int|
            0 <= i < self.items@.len() ==> (#[trigger] self.items@[i]).shows(result, i, base, sep)
        &&& self.total_matched == result.total_matched
        &&& self.total_dirs == result.total_dirs
    }
}

impl MixedSearchResponse {
    /// What is said of a result: every item, in order, and the counts.
    pub open spec fn shows(self, result: MixedSearchResult, base: Seq<char>, sep: char) -> bool {
        &&& self.items@.len() == result.items@.len()
        &&& forall|i: int|
            0 <= i < self.items@.len() ==> (#[trigger] self.items@[i]).shows(result, i, base, sep)
        &&& self.total_matched == result.total_matched
        &&& self.total_files == result.total_files
        &&& self.total_dirs == result.total_dirs
        &&& self.location == location_dto_opt(result.location)
    }
}

/// A file hit is item, score and matched parts of one and the same result: the item's own path,
/// its own score, and one range for each of its own matched parts, in order. Without ranges, or
/// where the engine reports no matched parts for the item, there are none.
pub proof fn hits_are_zipped(
    hit: SearchHit,
    result: SearchResult,
    i: int,
    ranges: bool,
    base: Seq<char>,
    sep: char,
)
    requires
        hit.shows(result, i, ranges, base, sep),
        0 <= i < result.items@.len() <= result.scores@.len(),
    ensures
        hit.item.shows(result.items@[i], base, sep),
        hit.score == score_dto(result.scores@[i]),
        hit.item.relative_path@ == result.items@[i].relative_path@,
        hit.item.file_name@ == result.items@[i].file_name@,
        hit.item.size == result.items@[i].size,
        hit.score.total == result.scores@[i].total,
        hit.score.base_score == result.scores@[i].base_score,
        hit.score.exact_match == result.scores@[i].exact_match,
        hit.score.match_type == result.scores@[i].match_type,
        !ranges ==> hit.match_ranges_utf16@.len() == 0,
        ranges && i >= result.match_byte_offsets@.len() ==> hit.match_ranges_utf16@.len() == 0,
        ranges && i < result.match_byte_offsets@.len() ==> {
            let path = result.items@[i].relative_path@;
            let bytes = result.match_byte_offsets@[i]@;
            &&& hit.match_ranges_utf16@.len() == bytes.len()
            &&& forall|k: int|
                0 <= k < bytes.len() ==> {
                    &&& (#[trigger] hit.match_ranges_utf16@[k]).start == utf16_offset(
                        path,
                        bytes[k].0 as nat,
                    )
                    &&& hit.match_ranges_utf16@[k].end == utf16_offset(path, bytes[k].1 as nat)
                }
        },
{
    if ranges && i < result.match_byte_offsets@.len() {
        let path = result.items@[i].relative_path@;
        let bytes = result.match_byte_offsets@[i]@;
        assert forall|k: int| 0 <= k < bytes.len() implies {
            &&& (#[trigger] hit.match_ranges_utf16@[k]).start == utf16_offset(
                path,
                bytes[k].0 as nat,
            )
            &&& hit.match_ranges_utf16@[k].end == utf16_offset(path, bytes[k].1 as nat)
        } by {
            offsets_never_grow(path, bytes[k].0 as nat);
            offsets_never_grow(path, bytes[k].1 as nat);
            assert(hit.match_ranges_utf16@[k] == utf16_range(path, bytes[k]));
        }
    }
}

/// The answer to a file search holds one hit for each item, in the engine's order, and the
/// engine's counts, each under its own name.
pub proof fn file_searches_are_answered_in_full(
    res: SearchResponse,
    result: SearchResult,
    ranges: bool,
    base: Seq<char>,
    sep: char,
)
    requires
        res.shows(result, ranges, base, sep),
        result.items@.len() <= result.scores@.len(),
    ensures
        res.items@.len() == result.items@.len(),
        res.total_matched == result.total_matched,
        res.total_files == result.total_files,
        forall|i: int|
            0 <= i < result.items@.len() ==> (#[trigger] res.items@[i]).item.shows(
                result.items@[i],
                base,
                sep,
            ) && res.items@[i].score == score_dto(result.scores@[i])
                && res.items@[i].item.relative_path@ == result.items@[i].relative_path@,
{
    assert forall|i: int| 0 <= i < result.items@.len() implies (
    #[trigger] res.items@[i]).item.shows(result.items@[i], base, sep)
        && res.items@[i].score == score_dto(result.scores@[i])
        && res.items@[i].item.relative_path@ == result.items@[i].relative_path@ by {
        assert(res.items@[i].shows(result, i, ranges, base, sep));
    }
}

/// The answer to a directory search holds one hit for each item, in the engine's order, with its
/// own score, and the engine's counts, each under its own name.
pub proof fn directory_searches_are_answered_in_full(
    res: DirSearchResponse,
    result: DirSearchResult,
    base: Seq<char>,
    sep: char,
)
    requires
        res.shows(result, base, sep),
        result.items@.len() <= result.scores@.len(),
    ensures
        res.items@.len() == result.items@.len(),
        res.total_matched == result.total_matched,
        res.total_dirs == result.total_dirs,
        forall|i: int|
            0 <= i < result.items@.len() ==> (#[trigger] res.items@[i]).item.relative_path@
                == result.items@[i].relative_path@ && res.items@[i].item.dir_name@
                == result.items@[i].dir_name@ && res.items@[i].item.max_access_frecency
                == result.items@[i].max_access_frecency && res.items@[i].score == score_dto(
                result.scores@[i],
            ) && res.items@[i].item.shows(result.items@[i], base, sep),
{
    assert forall|i: int| 0 <= i < result.items@.len() implies (
    #[trigger] res.items@[i]).item.relative_path@ == result.items@[i].relative_path@
        && res.items@[i].item.dir_name@ == result.items@[i].dir_name@
        && res.items@[i].item.max_access_frecency == result.items@[i].max_access_frecency
        && res.items@[i].score == score_dto(result.scores@[i]) && res.items@[i].item.shows(
        result.items@[i],
        base,
        sep,
    ) by {
        assert(res.items@[i].shows(result, i, base, sep));
    }
}

/// The answer to a mixed search holds one hit for each item, in the engine's order: a file as a
/// file, a directory as a directory, each with its own score, and the engine's counts, each under
/// its own name.
pub proof fn mixed_searches_are_answered_in_full(
    res: MixedSearchResponse,
    result: MixedSearchResult,
    base: Seq<char>,
    sep: char,
    i: int,
)
    requires
        res.shows(result, base, sep),
        0 <= i < result.items@.len() <= result.scores@.len(),
    ensures
        res.items@.len() == result.items@.len(),
        res.total_matched == result.total_matched,
        res.total_files == result.total_files,
        res.total_dirs == result.total_dirs,
        res.location == location_dto_opt(result.location),
        result.items@[i] matches MixedItem::File(f) ==> (res.items@[i] matches MixedHit::File(hit)
            && hit.kind == MixedKind::File && hit.item.relative_path@ == f.relative_path@
            && hit.item.shows(f, base, sep) && hit.score == score_dto(result.scores@[i])),
        result.items@[i] matches MixedItem::Dir(d) ==> (res.items@[i] matches MixedHit::Directory(
            hit,
        ) && hit.kind == MixedKind::Directory && hit.item.relative_path@ == d.relative_path@
            && hit.item.shows(d, base, sep) && hit.score == score_dto(result.scores@[i])),
{
    assert(res.items@[i].shows(result, i, base, sep));
}

} // verus!
