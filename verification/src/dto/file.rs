//! File, directory and score wire types.
//!
//! Every field the engine computes is carried through, the match ranges and the complete git
//! status among them.

use crate::engine::{str_texts, DirItem, FileItem, Location, Score};
use crate::paths::VERBATIM;
use crate::text::{
    lemma_without_trailing, replace_char, replaced, trim_trailing, without_trailing,
};
use vstd::prelude::*;
use vstd::std_specs::convert::FromSpecImpl;

pub use crate::utf16::{utf16_prefix_len, utf16_ranges, Utf16Range};

verus! {

// ---------------------------------------------------------------------------------------------
// Git status.
// ---------------------------------------------------------------------------------------------

pub const INDEX_NEW: u32 = 0x1;

pub const INDEX_MODIFIED: u32 = 0x2;

pub const INDEX_DELETED: u32 = 0x4;

pub const INDEX_RENAMED: u32 = 0x8;

pub const INDEX_TYPECHANGE: u32 = 0x10;

pub const WT_NEW: u32 = 0x80;

pub const WT_MODIFIED: u32 = 0x100;

pub const WT_DELETED: u32 = 0x200;

pub const WT_TYPECHANGE: u32 = 0x400;

pub const WT_RENAMED: u32 = 0x800;

pub const WT_UNREADABLE: u32 = 0x1000;

pub const IGNORED: u32 = 0x4000;

pub const CONFLICTED: u32 = 0x8000;

/// Git status, in full.
///
/// A status is a set of bits: a file can be staged-modified *and* worktree-modified at once. Both
/// forms are emitted: `status` for convenience, `flags` for fidelity.
#[derive(Debug, Clone)]
pub struct GitStatus {
    /// A single label: `clean`, `modified`, `untracked`, `staged_new`, `staged_modified`,
    /// `staged_deleted`, `deleted`, `renamed`, `ignored`, `unknown`.
    pub status: &'static str,
    /// Every set bit, so a client can see combinations the single label hides.
    pub flags: Vec<&'static str>,
}

/// Whether all of `bit` is set in `bits`.
pub open spec fn has_bit(bits: u32, bit: u32) -> bool {
    bits & bit == bit
}

/// The label the engine gives a status: that of the first bit it finds, worktree before index.
pub open spec fn status_label_of(status: Option<u32>) -> Seq<char> {
    match status {
        None => "clean"@,
        Some(bits) => if has_bit(bits, WT_NEW) {
            "untracked"@
        } else if has_bit(bits, WT_MODIFIED) {
            "modified"@
        } else if has_bit(bits, WT_DELETED) {
            "deleted"@
        } else if has_bit(bits, WT_RENAMED) {
            "renamed"@
        } else if has_bit(bits, INDEX_NEW) {
            "staged_new"@
        } else if has_bit(bits, INDEX_MODIFIED) {
            "staged_modified"@
        } else if has_bit(bits, INDEX_DELETED) {
            "staged_deleted"@
        } else if has_bit(bits, IGNORED) {
            "ignored"@
        } else if bits == 0 {
            "clean"@
        } else {
            "unknown"@
        },
    }
}

/// `fff_search::git::format_git_status`, on the status with these bits: the label of the first bit
/// it finds, `clean` where there is no status or no bit, `unknown` where there are only others.
#[verifier::external_body]
fn status_label(status: Option<u32>) -> (r: &'static str)
    ensures
        r@ == status_label_of(status),
{
    fff_search::git::format_git_status(status.map(git2::Status::from_bits_retain))
}

/// The bits that have a name, in the order they are named in.
pub open spec fn flag_table() -> Seq<(u32, Seq<char>)> {
    seq![
        (INDEX_NEW, "stagedNew"@),
        (INDEX_MODIFIED, "stagedModified"@),
        (INDEX_DELETED, "stagedDeleted"@),
        (INDEX_RENAMED, "stagedRenamed"@),
        (INDEX_TYPECHANGE, "stagedTypechange"@),
        (WT_NEW, "untracked"@),
        (WT_MODIFIED, "modified"@),
        (WT_DELETED, "deleted"@),
        (WT_RENAMED, "renamed"@),
        (WT_TYPECHANGE, "typechange"@),
        (WT_UNREADABLE, "unreadable"@),
        (IGNORED, "ignored"@),
        (CONFLICTED, "conflicted"@),
    ]
}

/// The names of the bits of `table` that are set, in order.
pub open spec fn set_names(bits: u32, table: Seq<(u32, Seq<char>)>) -> Seq<Seq<char>>
    decreases table.len(),
{
    if table.len() == 0 {
        seq![]
    } else {
        let before = set_names(bits, table.drop_last());
        if has_bit(bits, table.last().0) {
            before.push(table.last().1)
        } else {
            before
        }
    }
}

/// The names of all the bits that are set.
pub open spec fn flag_names(status: Option<u32>) -> Seq<Seq<char>> {
    match status {
        None => seq![],
        Some(bits) => set_names(bits, flag_table()),
    }
}

/// Appends the name of entry `k` of the table where its bit is set.
fn push_flag(
    out: &mut Vec<&'static str>,
    bits: u32,
    bit: u32,
    name: &'static str,
    Ghost(k): Ghost<int>,
)
    requires
        0 <= k < flag_table().len(),
        flag_table()[k] == (bit, name@),
        str_texts(old(out)@) == set_names(bits, flag_table().take(k)),
    ensures
        str_texts(final(out)@) == set_names(bits, flag_table().take(k + 1)),
{
    if bits & bit == bit {
        out.push(name);
    }
    proof {
        let next = flag_table().take(k + 1);
        assert(next.drop_last() =~= flag_table().take(k));
        assert(next.last() == (bit, name@));
        assert(str_texts(out@) =~= set_names(bits, next));
    }
}

/// Every set bit by name.
fn flags_of(status: Option<u32>) -> (r: Vec<&'static str>)
    ensures
        str_texts(r@) == flag_names(status),
{
    let mut out: Vec<&'static str> = Vec::new();
    if let Some(bits) = status {
        assert(str_texts(out@) =~= set_names(bits, flag_table().take(0)));
        push_flag(&mut out, bits, INDEX_NEW, "stagedNew", Ghost(0));
        push_flag(&mut out, bits, INDEX_MODIFIED, "stagedModified", Ghost(1));
        push_flag(&mut out, bits, INDEX_DELETED, "stagedDeleted", Ghost(2));
        push_flag(&mut out, bits, INDEX_RENAMED, "stagedRenamed", Ghost(3));
        push_flag(&mut out, bits, INDEX_TYPECHANGE, "stagedTypechange", Ghost(4));
        push_flag(&mut out, bits, WT_NEW, "untracked", Ghost(5));
        push_flag(&mut out, bits, WT_MODIFIED, "modified", Ghost(6));
        push_flag(&mut out, bits, WT_DELETED, "deleted", Ghost(7));
        push_flag(&mut out, bits, WT_RENAMED, "renamed", Ghost(8));
        push_flag(&mut out, bits, WT_TYPECHANGE, "typechange", Ghost(9));
        push_flag(&mut out, bits, WT_UNREADABLE, "unreadable", Ghost(10));
        push_flag(&mut out, bits, IGNORED, "ignored", Ghost(11));
        push_flag(&mut out, bits, CONFLICTED, "conflicted", Ghost(12));
        assert(flag_table().take(13) =~= flag_table());
    } else {
        assert(str_texts(out@) =~= flag_names(status));
    }
    out
}

impl GitStatus {
    /// What is said of a status: its label and the names of its bits.
    pub open spec fn shows(self, status: Option<u32>) -> bool {
        &&& self.status@ == status_label_of(status)
        &&& str_texts(self.flags@) == flag_names(status)
    }

    /// `None` is a file the engine reports no status for, which is a clean one.
    pub fn from_status(status: Option<u32>) -> (r: Self)
        ensures
            r.shows(status),
    {
        GitStatus { status: status_label(status), flags: flags_of(status) }
    }
}

/// The single label says `clean` exactly when no bit is set, and then there are no flags.
pub proof fn clean_means_no_bits(status: Option<u32>)
    ensures
        status_label_of(status) == "clean"@ <==> (status is None || status == Some(0u32)),
        status_label_of(status) == "clean"@ ==> flag_names(status).len() == 0,
{
    reveal_strlit("clean");
    reveal_strlit("untracked");
    reveal_strlit("modified");
    reveal_strlit("deleted");
    reveal_strlit("renamed");
    reveal_strlit("staged_new");
    reveal_strlit("staged_modified");
    reveal_strlit("staged_deleted");
    reveal_strlit("ignored");
    reveal_strlit("unknown");
    assert("clean"@.len() == 5);
    assert(forall|bit: u32| bit != 0 ==> #[trigger] (0u32 & bit) != bit) by (bit_vector);
    if let Some(bits) = status {
        if bits != 0 {
            assert(status_label_of(status).len() != 5);
        }
    }
    if status == Some(0u32) {
        assert(!has_bit(0, WT_NEW));
        lemma_no_names(flag_table());
    }
}

/// Without a bit there is no name.
proof fn lemma_no_names(table: Seq<(u32, Seq<char>)>)
    requires
        forall|k: int| 0 <= k < table.len() ==> !has_bit(0, (#[trigger] table[k]).0),
    ensures
        set_names(0, table).len() == 0,
    decreases table.len(),
{
    if table.len() > 0 {
        assert(!has_bit(0, table[table.len() - 1].0));
        lemma_no_names(table.drop_last());
    }
}

/// No bit is lost and none is made up: each name is among the flags exactly when its bit is set,
/// and nothing else is.
pub proof fn flags_name_every_bit(bits: u32)
    ensures
        forall|k: int|
            0 <= k < flag_table().len() ==> (flag_names(Some(bits)).contains(
                (#[trigger] flag_table()[k]).1,
            ) <==> has_bit(bits, flag_table()[k].0)),
        forall|name: Seq<char>| #[trigger]
            flag_names(Some(bits)).contains(name) ==> exists|k: int|
                0 <= k < flag_table().len() && (#[trigger] flag_table()[k]).1 == name,
{
    let t = flag_table();
    assert forall|k: int| 0 <= k < t.len() implies (flag_names(Some(bits)).contains(
        (#[trigger] t[k]).1,
    ) <==> has_bit(bits, t[k].0)) by {
        lemma_set_names(bits, t, t[k].1);
        if flag_names(Some(bits)).contains(t[k].1) {
            let j = choose|j: int|
                0 <= j < t.len() && (#[trigger] t[j]).1 == t[k].1 && has_bit(bits, t[j].0);
            if j < k {
                lemma_names_differ(j, k);
            } else if k < j {
                lemma_names_differ(k, j);
            }
        }
    }
    assert forall|name: Seq<char>| #[trigger]
        flag_names(Some(bits)).contains(name) implies exists|k: int|
        0 <= k < t.len() && (#[trigger] t[k]).1 == name by {
        lemma_set_names(bits, t, name);
    }
}

/// A name is among those of the set bits exactly when it stands in the table beside a set bit.
proof fn lemma_set_names(bits: u32, table: Seq<(u32, Seq<char>)>, name: Seq<char>)
    ensures
        set_names(bits, table).contains(name) <==> exists|k: int|
            0 <= k < table.len() && (#[trigger] table[k]).1 == name && has_bit(bits, table[k].0),
    decreases table.len(),
{
    if table.len() > 0 {
        let t = table.drop_last();
        lemma_set_names(bits, t, name);
        let before = set_names(bits, t);
        let names = set_names(bits, table);
        if names.contains(name) {
            let i = choose|i: int| 0 <= i < names.len() && names[i] == name;
            if i < before.len() {
                assert(before[i] == name);
                let k = choose|k: int|
                    0 <= k < t.len() && (#[trigger] t[k]).1 == name && has_bit(bits, t[k].0);
                assert(table[k] == t[k]);
            } else {
                assert(table[table.len() - 1].1 == name);
            }
        }
        if exists|k: int|
            0 <= k < table.len() && (#[trigger] table[k]).1 == name && has_bit(bits, table[k].0) {
            let k = choose|k: int|
                0 <= k < table.len() && (#[trigger] table[k]).1 == name && has_bit(
                    bits,
                    table[k].0,
                );
            if k < t.len() {
                assert(t[k] == table[k]);
                let i = choose|i: int| 0 <= i < before.len() && before[i] == name;
                assert(names[i] == name);
            } else {
                assert(names[names.len() - 1] == name);
            }
        }
    }
}

/// No two entries of the table share a name.
proof fn lemma_names_differ(i: int, j: int)
    requires
        0 <= i < j < flag_table().len(),
    ensures
        flag_table()[i].1 != flag_table()[j].1,
{
    reveal_strlit("stagedNew");
    reveal_strlit("stagedModified");
    reveal_strlit("stagedDeleted");
    reveal_strlit("stagedRenamed");
    reveal_strlit("stagedTypechange");
    reveal_strlit("untracked");
    reveal_strlit("modified");
    reveal_strlit("deleted");
    reveal_strlit("renamed");
    reveal_strlit("typechange");
    reveal_strlit("unreadable");
    reveal_strlit("ignored");
    reveal_strlit("conflicted");
    let a = flag_table()[i].1;
    let b = flag_table()[j].1;
    assert(a.len() != b.len() || a[0] != b[0] || a[6] != b[6]);
}

// ---------------------------------------------------------------------------------------------
// Paths and times.
// ---------------------------------------------------------------------------------------------

/// A relative path beneath `base`, with `sep` for every separator. `base` itself where the
/// relative path is empty.
pub open spec fn native_path(base: Seq<char>, relative: Seq<char>, sep: char) -> Seq<char> {
    let top = without_trailing(base, sep);
    if relative.len() == 0 {
        top
    } else {
        top + seq![sep] + replaced(relative, '/', sep)
    }
}

/// `std::path::MAIN_SEPARATOR`: the primary path separator of the platform. Which one it is, is a
/// property of the machine, so nothing is claimed of it.
#[verifier::external_body]
fn main_separator() -> char {
    std::path::MAIN_SEPARATOR
}

/// Joins a relative path to a base with a given separator.
///
/// `base_display` is already free of verbatim prefixes; the relative part has forward slashes,
/// which become `sep`.
pub fn join_with(base_display: &str, relative: &str, sep: char) -> (r: String)
    ensures
        r@ == native_path(base_display@, relative@, sep),
{
    let mut out = trim_trailing(base_display, sep);
    if !relative.is_empty() {
        out.push(sep);
        out.append(replace_char(relative, '/', sep).as_str());
        assert(out@ =~= native_path(base_display@, relative@, sep));
    }
    out
}

/// Joins a relative path to a base with the separator of the machine, whichever that is.
pub fn join_native(base_display: &str, relative: &str) -> (r: String)
    ensures
        exists|sep: char| r@ == #[trigger] native_path(base_display@, relative@, sep),
{
    let sep = main_separator();
    let r = join_with(base_display, relative, sep);
    assert(r@ == native_path(base_display@, relative@, sep));
    r
}

/// The earliest time that has a date, in seconds since the Unix epoch.
pub const MIN_TIMESTAMP: i64 = -377705116800;

/// The latest time that has a date, in seconds since the Unix epoch.
pub const MAX_TIMESTAMP: i64 = 253402300799;

/// The time that `secs` is reported as, in seconds since the Unix epoch: the same number read as
/// a signed one, or the epoch itself where that is no date.
pub open spec fn timestamp_of(secs: u64) -> int {
    let t = if secs < 0x8000_0000_0000_0000 {
        secs as int
    } else {
        secs - 0x1_0000_0000_0000_0000
    };
    if MIN_TIMESTAMP <= t <= MAX_TIMESTAMP {
        t
    } else {
        0
    }
}

/// `time::OffsetDateTime::from_unix_timestamp` succeeds exactly on the seconds of the years -9999
/// to 9999.
#[verifier::external_body]
fn is_timestamp(secs: i64) -> (r: bool)
    ensures
        r == (MIN_TIMESTAMP <= secs <= MAX_TIMESTAMP),
{
    time::OffsetDateTime::from_unix_timestamp(secs).is_ok()
}

/// A time the engine counts in unsigned seconds, as one that has a date.
pub fn unix_to_offset(secs: u64) -> (r: i64)
    ensures
        r == timestamp_of(secs),
{
    let t: i64 = secs as i64;
    assert(secs < 0x8000_0000_0000_0000 ==> t == secs) by (bit_vector)
        requires
            t == secs as i64,
    ;
    assert(secs >= 0x8000_0000_0000_0000 ==> t == secs - 0x1_0000_0000_0000_0000) by (bit_vector)
        requires
            t == secs as i64,
    ;
    if is_timestamp(t) {
        t
    } else {
        0
    }
}

/// A time before the year 10000 is reported as it is.
pub proof fn ordinary_times_are_kept(secs: u64)
    requires
        secs <= 253402300799,
    ensures
        timestamp_of(secs) == secs,
{
}

// ---------------------------------------------------------------------------------------------
// Items.
// ---------------------------------------------------------------------------------------------

/// An indexed file.
#[derive(Debug, Clone)]
pub struct FileItemDto {
    /// Relative to the root, forward slashes on every platform, carrying on-disk casing.
    pub relative_path: String,
    pub file_name: String,
    /// Parent directory, with a trailing `/`. Empty at the root.
    pub directory: String,
    /// Native separators, and free of any verbatim prefix. Not an identity key.
    pub absolute_path: String,
    pub size: u64,
    /// Seconds since the Unix epoch.
    pub modified: i64,
    pub is_binary: bool,
    pub access_frecency_score: i32,
    pub modification_frecency_score: i32,
    /// Boost from recent commits on the current branch. `total_frecency_score` does **not** hold
    /// it.
    pub git_recency_score: i32,
    /// Access plus modification only.
    pub total_frecency_score: i32,
    pub git_status: GitStatus,
}

impl FileItemDto {
    /// What is said of a file of a workspace that is displayed as `base`.
    pub open spec fn shows(self, item: FileItem, base: Seq<char>, sep: char) -> bool {
        &&& self.relative_path@ == item.relative_path@
        &&& self.file_name@ == item.file_name@
        &&& self.directory@ == item.directory@
        &&& self.absolute_path@ == native_path(base, item.relative_path@, sep)
        &&& self.size == item.size
        &&& self.modified == timestamp_of(item.modified)
        &&& self.is_binary == item.is_binary
        &&& self.access_frecency_score == item.access_frecency_score
        &&& self.modification_frecency_score == item.modification_frecency_score
        &&& self.git_recency_score == item.git_recency_score
        &&& self.total_frecency_score == item.access_frecency_score
            + item.modification_frecency_score
        &&& self.git_status.shows(item.git_status)
    }

    pub fn build(item: &FileItem, base_display: &str, sep: char) -> (r: Self)
        ensures
            r.shows(*item, base_display@, sep),
    {
        FileItemDto {
            relative_path: item.relative_path.clone(),
            file_name: item.file_name.clone(),
            directory: item.directory.clone(),
            absolute_path: join_with(base_display, item.relative_path.as_str(), sep),
            size: item.size,
            modified: unix_to_offset(item.modified),
            is_binary: item.is_binary,
            access_frecency_score: item.access_frecency_score as i32,
            modification_frecency_score: item.modification_frecency_score as i32,
            git_recency_score: item.git_recency_score as i32,
            total_frecency_score: item.total_frecency_score(),
            git_status: GitStatus::from_status(item.git_status),
        }
    }
}

/// An indexed directory.
#[derive(Debug, Clone)]
pub struct DirItemDto {
    /// Forward slashes, with a trailing `/`.
    pub relative_path: String,
    pub dir_name: String,
    pub absolute_path: String,
    /// Highest access-frecency score among the files beneath it.
    pub max_access_frecency: i32,
}

impl DirItemDto {
    /// What is said of a directory of a workspace that is displayed as `base`.
    pub open spec fn shows(self, item: DirItem, base: Seq<char>, sep: char) -> bool {
        &&& self.relative_path@ == item.relative_path@
        &&& self.dir_name@ == item.dir_name@
        &&& self.absolute_path@ == native_path(base, item.relative_path@, sep)
        &&& self.max_access_frecency == item.max_access_frecency
    }

    pub fn build(item: &DirItem, base_display: &str, sep: char) -> (r: Self)
        ensures
            r.shows(*item, base_display@, sep),
    {
        DirItemDto {
            relative_path: item.relative_path.clone(),
            dir_name: item.dir_name.clone(),
            absolute_path: join_with(base_display, item.relative_path.as_str(), sep),
            max_access_frecency: item.max_access_frecency,
        }
    }
}

/// The complete score breakdown.
#[derive(Debug, Clone)]
pub struct ScoreDto {
    pub total: i32,
    pub base_score: i32,
    pub filename_bonus: i32,
    pub special_filename_bonus: i32,
    pub frecency_boost: i32,
    pub git_status_boost: i32,
    pub git_recency_boost: i32,
    pub distance_penalty: i32,
    pub current_file_penalty: i32,
    pub combo_match_boost: i32,
    pub path_alignment_bonus: i32,
    pub exact_match: bool,
    /// An **open** string, not a closed enum: a future value must not break a client. Known
    /// values are `fuzzy`, `fuzzy_filename`, `exact`, `prefix` and `path`.
    pub match_type: &'static str,
}

/// What is said of a score: all of it.
pub open spec fn score_dto(s: Score) -> ScoreDto {
    ScoreDto {
        total: s.total,
        base_score: s.base_score,
        filename_bonus: s.filename_bonus,
        special_filename_bonus: s.special_filename_bonus,
        frecency_boost: s.frecency_boost,
        git_status_boost: s.git_status_boost,
        git_recency_boost: s.git_recency_boost,
        distance_penalty: s.distance_penalty,
        current_file_penalty: s.current_file_penalty,
        combo_match_boost: s.combo_match_boost,
        path_alignment_bonus: s.path_alignment_bonus,
        exact_match: s.exact_match,
        match_type: s.match_type,
    }
}

impl From<&Score> for ScoreDto {
    fn from(s: &Score) -> (r: ScoreDto) {
        ScoreDto {
            total: s.total,
            base_score: s.base_score,
            filename_bonus: s.filename_bonus,
            special_filename_bonus: s.special_filename_bonus,
            frecency_boost: s.frecency_boost,
            git_status_boost: s.git_status_boost,
            git_recency_boost: s.git_recency_boost,
            distance_penalty: s.distance_penalty,
            current_file_penalty: s.current_file_penalty,
            combo_match_boost: s.combo_match_boost,
            path_alignment_bonus: s.path_alignment_bonus,
            exact_match: s.exact_match,
            match_type: s.match_type,
        }
    }
}

impl FromSpecImpl<&Score> for ScoreDto {
    open spec fn obeys_from_spec() -> bool {
        true
    }

    open spec fn from_spec(s: &Score) -> ScoreDto {
        score_dto(*s)
    }
}

// ---------------------------------------------------------------------------------------------
// Locations.
// ---------------------------------------------------------------------------------------------

/// Which kind of location a query specified.
#[derive(Debug, Clone, Copy, PartialEq, Eq, Structural)]
pub enum LocationType {
    /// `line` only, from `file.ts:42`.
    Line,
    /// `line` and `col`, from `file.ts:42:10`.
    Position,
    /// `line`/`col` as the start, `end_line`/`end_col` as the end.
    Range,
}

/// A `file.ts:42:10` suffix parsed out of the query.
///
/// `line` is always present; `col`, `end_line` and `end_col` depend on `location_type`.
#[derive(Debug, Clone, Copy)]
pub struct LocationDto {
    pub location_type: LocationType,
    pub line: i32,
    /// Present for `Position` and `Range`.
    pub col: Option<i32>,
    /// Present for `Range` only.
    pub end_line: Option<i32>,
    /// Present for `Range` only.
    pub end_col: Option<i32>,
}

/// What is said of a location.
pub open spec fn location_dto(l: Location) -> LocationDto {
    match l {
        Location::Line(line) => LocationDto {
            location_type: LocationType::Line,
            line,
            col: None,
            end_line: None,
            end_col: None,
        },
        Location::Position { line, col } => LocationDto {
            location_type: LocationType::Position,
            line,
            col: Some(col),
            end_line: None,
            end_col: None,
        },
        Location::Range { start, end } => LocationDto {
            location_type: LocationType::Range,
            line: start.0,
            col: Some(start.1),
            end_line: Some(end.0),
            end_col: Some(end.1),
        },
    }
}

impl From<Location> for LocationDto {
    fn from(l: Location) -> (r: LocationDto) {
        match l {
            Location::Line(line) => LocationDto {
                location_type: LocationType::Line,
                line,
                col: None,
                end_line: None,
                end_col: None,
            },
            Location::Position { line, col } => LocationDto {
                location_type: LocationType::Position,
                line,
                col: Some(col),
                end_line: None,
                end_col: None,
            },
            Location::Range { start, end } => LocationDto {
                location_type: LocationType::Range,
                line: start.0,
                col: Some(start.1),
                end_line: Some(end.0),
                end_col: Some(end.1),
            },
        }
    }
}

impl FromSpecImpl<Location> for LocationDto {
    open spec fn obeys_from_spec() -> bool {
        true
    }

    open spec fn from_spec(l: Location) -> LocationDto {
        location_dto(l)
    }
}

/// A location where there is one.
pub open spec fn location_dto_opt(l: Option<Location>) -> Option<LocationDto> {
    match l {
        None => None,
        Some(l) => Some(location_dto(l)),
    }
}

/// Reports a location where there is one.
pub fn location_opt(l: Option<Location>) -> (r: Option<LocationDto>)
    ensures
        r == location_dto_opt(l),
{
    match l {
        None => None,
        Some(l) => Some(LocationDto::from(l)),
    }
}

/// Nothing of a location is lost: two that are reported alike are the same.
pub proof fn locations_are_told_apart(a: Location, b: Location)
    requires
        location_dto(a) == location_dto(b),
    ensures
        a == b,
{
}

/// Nothing of a score is lost: two that are reported alike are the same.
pub proof fn scores_are_told_apart(a: Score, b: Score)
    requires
        score_dto(a) == score_dto(b),
    ensures
        a == b,
{
}

/// A joined path begins with its base and, where there is anything to join, goes on with one
/// separator and the relative path; with `\` for separator it holds no `/` that its base does not.
pub proof fn joined_paths_are_native(base: Seq<char>, relative: Seq<char>)
    ensures
        !base.contains('/') ==> !native_path(base, relative, '\\').contains('/'),
        relative.len() > 0 ==> native_path(base, relative, '/') == without_trailing(base, '/')
            + seq!['/'] + relative,
{
    lemma_without_trailing(base, '\\');
    if !base.contains('/') {
        let p = native_path(base, relative, '\\');
        let top = without_trailing(base, '\\');
        assert forall|i: int| 0 <= i < p.len() implies p[i] != '/' by {
            if i < top.len() {
                assert(p[i] == base[i]);
            }
        }
    }
    assert(replaced(relative, '/', '/') =~= relative);
}

/// A path joined to a base without a verbatim prefix has none either. The base is longer than
/// such a prefix, not counting the separators at its end.
pub proof fn joined_paths_are_not_verbatim(base: Seq<char>, relative: Seq<char>, sep: char)
    requires
        !VERBATIM@.is_prefix_of(base),
        without_trailing(base, sep).len() >= VERBATIM@.len(),
    ensures
        !VERBATIM@.is_prefix_of(native_path(base, relative, sep)),
{
    let v = VERBATIM@;
    let p = native_path(base, relative, sep);
    lemma_without_trailing(base, sep);
    if v.is_prefix_of(p) {
        assert(p.subrange(0, v.len() as int) =~= base.subrange(0, v.len() as int));
    }
}

// ---------------------------------------------------------------------------------------------
// What is reported is what was found.
// ---------------------------------------------------------------------------------------------

/// Every bit that a status can have is told by a name of its own, and by no other.
pub proof fn each_bit_has_its_name(bits: u32)
    ensures
        ({
            let names = flag_names(Some(bits));
            &&& names.contains("stagedNew"@) <==> bits & 0x1 == 0x1
            &&& names.contains("stagedModified"@) <==> bits & 0x2 == 0x2
            &&& names.contains("stagedDeleted"@) <==> bits & 0x4 == 0x4
            &&& names.contains("stagedRenamed"@) <==> bits & 0x8 == 0x8
            &&& names.contains("stagedTypechange"@) <==> bits & 0x10 == 0x10
            &&& names.contains("untracked"@) <==> bits & 0x80 == 0x80
            &&& names.contains("modified"@) <==> bits & 0x100 == 0x100
            &&& names.contains("deleted"@) <==> bits & 0x200 == 0x200
            &&& names.contains("typechange"@) <==> bits & 0x400 == 0x400
            &&& names.contains("renamed"@) <==> bits & 0x800 == 0x800
            &&& names.contains("unreadable"@) <==> bits & 0x1000 == 0x1000
            &&& names.contains("ignored"@) <==> bits & 0x4000 == 0x4000
            &&& names.contains("conflicted"@) <==> bits & 0x8000 == 0x8000
        }),
        flag_names(Some(bits)).len() <= 13,
        flag_names(None).len() == 0,
{
    flags_name_every_bit(bits);
    let t = flag_table();
    assert(t[0] == (0x1u32, "stagedNew"@));
    assert(t[1] == (0x2u32, "stagedModified"@));
    assert(t[2] == (0x4u32, "stagedDeleted"@));
    assert(t[3] == (0x8u32, "stagedRenamed"@));
    assert(t[4] == (0x10u32, "stagedTypechange"@));
    assert(t[5] == (0x80u32, "untracked"@));
    assert(t[6] == (0x100u32, "modified"@));
    assert(t[7] == (0x200u32, "deleted"@));
    assert(t[8] == (0x800u32, "renamed"@));
    assert(t[9] == (0x400u32, "typechange"@));
    assert(t[10] == (0x1000u32, "unreadable"@));
    assert(t[11] == (0x4000u32, "ignored"@));
    assert(t[12] == (0x8000u32, "conflicted"@));
    lemma_at_most_all(bits, t);
}

/// There are no more names than entries.
proof fn lemma_at_most_all(bits: u32, table: Seq<(u32, Seq<char>)>)
    ensures
        set_names(bits, table).len() <= table.len(),
    decreases table.len(),
{
    if table.len() > 0 {
        lemma_at_most_all(bits, table.drop_last());
    }
}

/// The names come in a fixed order: those of the index before those of the worktree, and the two
/// of neither last. A name that comes earlier in it never follows one that comes later.
pub proof fn names_keep_their_order(bits: u32)
    ensures
        ({
            let names = flag_names(Some(bits));
            &&& is_in_order(names, "stagedNew"@, "stagedModified"@)
            &&& is_in_order(names, "stagedModified"@, "stagedDeleted"@)
            &&& is_in_order(names, "stagedDeleted"@, "stagedRenamed"@)
            &&& is_in_order(names, "stagedRenamed"@, "stagedTypechange"@)
            &&& is_in_order(names, "stagedTypechange"@, "untracked"@)
            &&& is_in_order(names, "untracked"@, "modified"@)
            &&& is_in_order(names, "modified"@, "deleted"@)
            &&& is_in_order(names, "deleted"@, "renamed"@)
            &&& is_in_order(names, "renamed"@, "typechange"@)
            &&& is_in_order(names, "typechange"@, "unreadable"@)
            &&& is_in_order(names, "unreadable"@, "ignored"@)
            &&& is_in_order(names, "ignored"@, "conflicted"@)
        }),
{
    let t = flag_table();
    assert(t[0].1 == "stagedNew"@);
    assert(t[1].1 == "stagedModified"@);
    assert(t[2].1 == "stagedDeleted"@);
    assert(t[3].1 == "stagedRenamed"@);
    assert(t[4].1 == "stagedTypechange"@);
    assert(t[5].1 == "untracked"@);
    assert(t[6].1 == "modified"@);
    assert(t[7].1 == "deleted"@);
    assert(t[8].1 == "renamed"@);
    assert(t[9].1 == "typechange"@);
    assert(t[10].1 == "unreadable"@);
    assert(t[11].1 == "ignored"@);
    assert(t[12].1 == "conflicted"@);
    assert(t.take(13) =~= t);
    lemma_in_order(bits, 0, 13);
    lemma_in_order(bits, 1, 13);
    lemma_in_order(bits, 2, 13);
    lemma_in_order(bits, 3, 13);
    lemma_in_order(bits, 4, 13);
    lemma_in_order(bits, 5, 13);
    lemma_in_order(bits, 6, 13);
    lemma_in_order(bits, 7, 13);
    lemma_in_order(bits, 8, 13);
    lemma_in_order(bits, 9, 13);
    lemma_in_order(bits, 10, 13);
    lemma_in_order(bits, 11, 13);
}

/// Whether wherever both occur, `first` comes before `second`.
pub open spec fn is_in_order(names: Seq<Seq<char>>, first: Seq<char>, second: Seq<char>) -> bool {
    forall|i: int, j: int|
        0 <= i < names.len() && 0 <= j < names.len() && #[trigger] names[i] == first
            && #[trigger] names[j] == second ==> i < j
}

/// Of two neighbours in the table, the name of the first comes first among the set ones.
proof fn lemma_in_order(bits: u32, k: int, n: int)
    requires
        0 <= k < 12,
        0 <= n <= 13,
    ensures
        is_in_order(
            set_names(bits, flag_table().take(n)),
            flag_table()[k].1,
            flag_table()[k + 1].1,
        ),
    decreases n,
{
    let t = flag_table();
    let names = set_names(bits, t.take(n));
    if n > 0 {
        lemma_in_order(bits, k, n - 1);
        assert(t.take(n).drop_last() =~= t.take(n - 1));
        let before = set_names(bits, t.take(n - 1));
        let last = t[n - 1].1;
        assert forall|i: int, j: int|
            0 <= i < names.len() && 0 <= j < names.len() && #[trigger] names[i] == t[k].1
                && #[trigger] names[j] == t[k + 1].1 implies i < j by {
            if i < before.len() && j < before.len() {
                assert(before[i] == t[k].1 && before[j] == t[k + 1].1);
            } else if i >= before.len() {
                // The last name is that of entry `k`, so that of entry `k + 1` is not there yet.
                assert(names[i] == last);
                lemma_one_name(n - 1, k);
                if j < before.len() {
                    lemma_set_names(bits, t.take(n - 1), t[k + 1].1);
                    assert(before.contains(before[j]));
                    let m = choose|m: int|
                        0 <= m < t.take(n - 1).len() && (#[trigger] t.take(n - 1)[m]).1 == t[k
                            + 1].1 && has_bit(bits, t.take(n - 1)[m].0);
                    assert(t.take(n - 1)[m] == t[m]);
                    lemma_one_name(m, k + 1);
                } else {
                    lemma_one_name(k, k + 1);
                }
            }
        }
    }
}

/// A name stands in one place of the table.
proof fn lemma_one_name(i: int, j: int)
    requires
        0 <= i < 13,
        0 <= j < 13,
        flag_table()[i].1 == flag_table()[j].1,
    ensures
        i == j,
{
    if i < j {
        lemma_names_differ(i, j);
    } else if j < i {
        lemma_names_differ(j, i);
    }
}

/// The single label is that of the worktree where something changed there, else that of the index:
/// an untracked file is untracked whatever else it is, and so on down to a clean one.
pub proof fn labels_go_by_the_first_bit(bits: u32)
    ensures
        ({
            let label = status_label_of(Some(bits));
            let worktree = bits & 0x80 == 0x80 || bits & 0x100 == 0x100 || bits & 0x200 == 0x200
                || bits & 0x800 == 0x800;
            let index = bits & 0x1 == 0x1 || bits & 0x2 == 0x2 || bits & 0x4 == 0x4;
            &&& bits & 0x80 == 0x80 ==> label == "untracked"@
            &&& bits & 0x80 != 0x80 && bits & 0x100 == 0x100 ==> label == "modified"@
            &&& bits & 0x80 != 0x80 && bits & 0x100 != 0x100 && bits & 0x200 == 0x200 ==> label
                == "deleted"@
            &&& bits & 0x80 != 0x80 && bits & 0x100 != 0x100 && bits & 0x200 != 0x200 && bits
                & 0x800 == 0x800 ==> label == "renamed"@
            &&& !worktree && bits & 0x1 == 0x1 ==> label == "staged_new"@
            &&& !worktree && bits & 0x1 != 0x1 && bits & 0x2 == 0x2 ==> label
                == "staged_modified"@
            &&& !worktree && bits & 0x1 != 0x1 && bits & 0x2 != 0x2 && bits & 0x4 == 0x4 ==> label
                == "staged_deleted"@
            &&& !worktree && !index && bits & 0x4000 == 0x4000 ==> label == "ignored"@
            &&& bits == 0 ==> label == "clean"@
            &&& !worktree && !index && bits & 0x4000 != 0x4000 && bits != 0 ==> label
                == "unknown"@
        }),
        status_label_of(None) == "clean"@,
{
    assert(bits == 0 ==> bits & 0x80 != 0x80 && bits & 0x100 != 0x100 && bits & 0x200 != 0x200
        && bits & 0x800 != 0x800 && bits & 0x1 != 0x1 && bits & 0x2 != 0x2 && bits & 0x4 != 0x4
        && bits & 0x4000 != 0x4000) by (bit_vector);
}

/// A file is reported in full and each part of it in its own place. The frecency total is that of
/// accesses and of modifications together, without the recency of commits; a time before the year
/// 10000 is the engine's, and one without a date is the epoch.
pub proof fn files_are_reported_in_full(
    dto: FileItemDto,
    item: FileItem,
    base: Seq<char>,
    sep: char,
)
    requires
        dto.shows(item, base, sep),
    ensures
        dto.relative_path@ == item.relative_path@,
        dto.file_name@ == item.file_name@,
        dto.directory@ == item.directory@,
        dto.size == item.size,
        item.modified <= 253_402_300_799 ==> dto.modified == item.modified,
        253_402_300_799 < item.modified < 0x8000_0000_0000_0000 ==> dto.modified == 0,
        dto.is_binary == item.is_binary,
        dto.access_frecency_score == item.access_frecency_score,
        dto.modification_frecency_score == item.modification_frecency_score,
        dto.git_recency_score == item.git_recency_score,
        dto.total_frecency_score == dto.access_frecency_score + dto.modification_frecency_score,
        dto.git_status.status@ == status_label_of(item.git_status),
        str_texts(dto.git_status.flags@) == flag_names(item.git_status),
        item.relative_path@.len() > 0 ==> dto.absolute_path@.len() == without_trailing(
            base,
            sep,
        ).len() + 1 + item.relative_path@.len(),
        item.relative_path@.len() > 0 ==> forall|i: int|
            0 <= i < item.relative_path@.len() ==> #[trigger] dto.absolute_path@[without_trailing(
                base,
                sep,
            ).len() + 1 + i] == (if item.relative_path@[i] == '/' {
                sep
            } else {
                item.relative_path@[i]
            }),
{
}

/// A directory is reported in full and each part of it in its own place.
pub proof fn directories_are_reported_in_full(
    dto: DirItemDto,
    item: DirItem,
    base: Seq<char>,
    sep: char,
)
    requires
        dto.shows(item, base, sep),
    ensures
        dto.relative_path@ == item.relative_path@,
        dto.dir_name@ == item.dir_name@,
        dto.max_access_frecency == item.max_access_frecency,
        dto.absolute_path@ == native_path(base, item.relative_path@, sep),
{
}

/// A joined path is its base without the separators at its end, then one separator, then the
/// relative path with each of its slashes as a separator; an empty relative path adds nothing.
pub proof fn paths_are_joined_by_one_separator(base: Seq<char>, relative: Seq<char>, sep: char)
    ensures
        ({
            let p = native_path(base, relative, sep);
            let n = without_trailing(base, sep).len() as int;
            &&& relative.len() == 0 ==> p == without_trailing(base, sep)
            &&& relative.len() > 0 ==> {
                &&& p.len() == n + 1 + relative.len()
                &&& p.take(n) == base.take(n)
                &&& p[n] == sep
                &&& forall|i: int|
                    0 <= i < relative.len() ==> (relative[i] == '/' ==> #[trigger] p[n + 1 + i]
                        == sep) && (relative[i] != '/' ==> p[n + 1 + i] == relative[i])
            }
        }),
{
    lemma_without_trailing(base, sep);
    if relative.len() > 0 {
        let n = without_trailing(base, sep).len() as int;
        assert(native_path(base, relative, sep).take(n) =~= base.take(n));
    }
}

/// A score is reported in full and each part of it under its own name.
pub proof fn scores_are_reported_in_full(dto: ScoreDto, s: Score)
    requires
        dto == score_dto(s),
    ensures
        dto.total == s.total,
        dto.base_score == s.base_score,
        dto.filename_bonus == s.filename_bonus,
        dto.special_filename_bonus == s.special_filename_bonus,
        dto.frecency_boost == s.frecency_boost,
        dto.git_status_boost == s.git_status_boost,
        dto.git_recency_boost == s.git_recency_boost,
        dto.distance_penalty == s.distance_penalty,
        dto.current_file_penalty == s.current_file_penalty,
        dto.combo_match_boost == s.combo_match_boost,
        dto.path_alignment_bonus == s.path_alignment_bonus,
        dto.exact_match == s.exact_match,
        dto.match_type == s.match_type,
{
}

/// A location is reported with all that its kind has, each number in its own place, and with
/// nothing else.
pub proof fn locations_are_reported_in_full(l: Location, dto: LocationDto)
    requires
        dto == location_dto(l),
    ensures
        l matches Location::Line(line) ==> dto.location_type == LocationType::Line && dto.line
            == line && dto.col is None && dto.end_line is None && dto.end_col is None,
        l matches Location::Position { line, col } ==> dto.location_type == LocationType::Position
            && dto.line == line && dto.col == Some(col) && dto.end_line is None
            && dto.end_col is None,
        l matches Location::Range { start, end } ==> dto.location_type == LocationType::Range
            && dto.line == start.0 && dto.col == Some(start.1) && dto.end_line == Some(end.0)
            && dto.end_col == Some(end.1),
        location_dto_opt(Some(l)) == Some(dto),
        location_dto_opt(None) is None,
{
}

/// A time is reported as the signed number with the same bits where that is a date of the years
/// -9999 to 9999, and as the epoch where it is none.
pub proof fn times_without_a_date_are_the_epoch(secs: u64)
    ensures
        secs <= 253_402_300_799 ==> timestamp_of(secs) == secs,
        253_402_300_799 < secs < 0x1_0000_0000_0000_0000 - 377_705_116_800 ==> timestamp_of(secs)
            == 0,
        secs >= 0x1_0000_0000_0000_0000 - 377_705_116_800 ==> timestamp_of(secs) == secs
            - 0x1_0000_0000_0000_0000,
{
}

/// From the engine's file to the reported one: the path beneath the base, the time, and both forms
/// of the git status, of which a clean file has the label alone.
pub proof fn built_files_are_reported_in_full(
    item: &FileItem,
    base: &str,
    sep: char,
    r: FileItemDto,
)
    requires
        call_ensures(FileItemDto::build, (item, base, sep), r),
    ensures
        r.relative_path@ == item.relative_path@,
        r.file_name@ == item.file_name@,
        r.directory@ == item.directory@,
        r.absolute_path@ == native_path(base@, item.relative_path@, sep),
        r.size == item.size,
        r.is_binary == item.is_binary,
        r.access_frecency_score == item.access_frecency_score,
        r.modification_frecency_score == item.modification_frecency_score,
        r.git_recency_score == item.git_recency_score,
        r.total_frecency_score == item.access_frecency_score + item.modification_frecency_score,
        item.modified <= 253_402_300_799 ==> r.modified == item.modified,
        item.git_status is None ==> r.git_status.status@ == "clean"@ && r.git_status.flags@.len()
            == 0,
{
    if item.git_status is None {
        assert(str_texts(r.git_status.flags@).len() == 0);
    }
}

} // verus!
