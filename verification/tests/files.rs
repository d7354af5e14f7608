use fff_server::dto::file::{
    join_native, join_with, location_opt, unix_to_offset, utf16_prefix_len, utf16_ranges,
    DirItemDto, FileItemDto, GitStatus, LocationDto, LocationType, ScoreDto, CONFLICTED, IGNORED,
    INDEX_DELETED, INDEX_MODIFIED, INDEX_NEW, INDEX_RENAMED, INDEX_TYPECHANGE, MAX_TIMESTAMP,
    MIN_TIMESTAMP, WT_DELETED, WT_MODIFIED, WT_NEW, WT_RENAMED, WT_TYPECHANGE, WT_UNREADABLE,
};
use fff_server::engine::{DirItem, FileItem, Location, Score};
use git2::Status;

#[test]
fn ascii_utf16_ranges_match_byte_ranges() {
    let text = "fn main() {}";
    let r = utf16_ranges(text, &[(3, 7)]);
    assert_eq!((r[0].start, r[0].end), (3, 7));
}

#[test]
fn non_ascii_shifts_utf16_offsets() {
    // "⍝ z" - the comment glyph is 3 UTF-8 bytes, 1 UTF-16 unit.
    let text = "⍝ z is the new External stage";
    let byte_idx = text.find("the").unwrap() as u32;
    assert_eq!(byte_idx, 9, "byte offset of 'the'");
    let r = utf16_ranges(text, &[(byte_idx, byte_idx + 3)]);
    assert_eq!(
        (r[0].start, r[0].end),
        (7, 10),
        "UTF-16 offset differs from the byte offset; a C# client indexing by bytes would \
         highlight the wrong characters"
    );
    // And the converted range really does select "the" in UTF-16 space.
    let units: Vec<u16> = text.encode_utf16().collect();
    let picked = String::from_utf16(&units[r[0].start as usize..r[0].end as usize]).unwrap();
    assert_eq!(picked, "the");
}

#[test]
fn regression_real_engine_offsets_from_a_line_with_an_em_dash() {
    let line = "*not* simplify UNC paths \u{2014} measured, and contrary to what an earlier draft of this document";
    assert_eq!(line.len(), 93, "bytes");
    assert_eq!(line.chars().count(), 91, "chars");
    assert_eq!(
        &line[43..51],
        "contrary",
        "engine byte offsets are genuine UTF-8"
    );

    let r = utf16_ranges(line, &[(43, 51)]);
    assert_eq!((r[0].start, r[0].end), (41, 49));

    let units: Vec<u16> = line.encode_utf16().collect();
    let picked = String::from_utf16(&units[r[0].start as usize..r[0].end as usize]).unwrap();
    assert_eq!(picked, "contrary");
}

#[test]
fn astral_plane_counts_as_two_utf16_units() {
    let text = "a😀b";
    // 'b' starts at byte 5, UTF-16 index 3 (a=1, emoji=2 units).
    let r = utf16_ranges(text, &[(5, 6)]);
    assert_eq!((r[0].start, r[0].end), (3, 4));
}

#[test]
fn out_of_range_and_mid_char_offsets_do_not_panic() {
    let text = "⍝ z";
    let r = utf16_ranges(text, &[(1, 99)]);
    assert_eq!(r[0].start, 0, "offset inside a character rounds down");
    assert_eq!(r[0].end, text.encode_utf16().count() as u32);
}

#[test]
fn prefix_lengths_agree_with_the_standard_encoder() {
    let text = "x\u{e9}\u{2014}\u{1f600}y\u{10ffff}z";
    for byte in 0..=text.len() {
        let mut at = byte;
        while !text.is_char_boundary(at) {
            at -= 1;
        }
        assert_eq!(
            utf16_prefix_len(text, byte) as usize,
            text[..at].encode_utf16().count(),
            "byte {byte}"
        );
    }
    assert_eq!(utf16_prefix_len("", 7), 0);
}

#[test]
fn absolute_paths_are_native_and_unprefixed() {
    let joined = join_native(r"\\server\share\proj", "src/main.rs");
    if std::path::MAIN_SEPARATOR == '\\' {
        assert_eq!(joined, r"\\server\share\proj\src\main.rs");
    } else {
        assert_eq!(joined, "\\\\server\\share\\proj/src/main.rs");
    }
}

#[test]
fn joining_uses_one_separator_throughout() {
    assert_eq!(
        join_with(r"\\server\share\proj", "src/main.rs", '\\'),
        r"\\server\share\proj\src\main.rs"
    );
    assert_eq!(join_with("/srv/proj/", "src/main.rs", '/'), "/srv/proj/src/main.rs");
    assert_eq!(join_with("/srv/proj//", "", '/'), "/srv/proj");
    assert_eq!(join_with("/", "etc", '/'), "/etc");
    assert_eq!(join_with(r"D:\", "a/b", '\\'), r"D:\a\b");
}

#[test]
fn clean_files_report_clean_not_null() {
    // No status is "clean"; the flags are empty because no bits are set.
    let g = GitStatus::from_status(None);
    assert_eq!(g.status, "clean");
    assert!(g.flags.is_empty());
}

#[test]
fn combined_status_keeps_every_bit() {
    // The case a single label cannot express.
    let both = Status::INDEX_MODIFIED | Status::WT_MODIFIED;
    let g = GitStatus::from_status(Some(both.bits()));
    assert_eq!(g.flags, vec!["stagedModified", "modified"]);
}

#[test]
fn status_bits_are_those_of_git() {
    assert_eq!(INDEX_NEW, Status::INDEX_NEW.bits());
    assert_eq!(INDEX_MODIFIED, Status::INDEX_MODIFIED.bits());
    assert_eq!(INDEX_DELETED, Status::INDEX_DELETED.bits());
    assert_eq!(INDEX_RENAMED, Status::INDEX_RENAMED.bits());
    assert_eq!(INDEX_TYPECHANGE, Status::INDEX_TYPECHANGE.bits());
    assert_eq!(WT_NEW, Status::WT_NEW.bits());
    assert_eq!(WT_MODIFIED, Status::WT_MODIFIED.bits());
    assert_eq!(WT_DELETED, Status::WT_DELETED.bits());
    assert_eq!(WT_RENAMED, Status::WT_RENAMED.bits());
    assert_eq!(WT_TYPECHANGE, Status::WT_TYPECHANGE.bits());
    assert_eq!(WT_UNREADABLE, Status::WT_UNREADABLE.bits());
    assert_eq!(IGNORED, Status::IGNORED.bits());
    assert_eq!(CONFLICTED, Status::CONFLICTED.bits());
}

#[test]
fn every_bit_has_its_label_and_its_flag() {
    for (bits, label, flag) in [
        (INDEX_NEW, "staged_new", "stagedNew"),
        (INDEX_MODIFIED, "staged_modified", "stagedModified"),
        (INDEX_DELETED, "staged_deleted", "stagedDeleted"),
        (INDEX_RENAMED, "unknown", "stagedRenamed"),
        (INDEX_TYPECHANGE, "unknown", "stagedTypechange"),
        (WT_NEW, "untracked", "untracked"),
        (WT_MODIFIED, "modified", "modified"),
        (WT_DELETED, "deleted", "deleted"),
        (WT_RENAMED, "renamed", "renamed"),
        (WT_TYPECHANGE, "unknown", "typechange"),
        (WT_UNREADABLE, "unknown", "unreadable"),
        (IGNORED, "ignored", "ignored"),
        (CONFLICTED, "unknown", "conflicted"),
    ] {
        let g = GitStatus::from_status(Some(bits));
        assert_eq!(g.status, label, "label of {flag}");
        assert_eq!(g.flags, vec![flag]);
    }
    let g = GitStatus::from_status(Some(0));
    assert_eq!(g.status, "clean");
    assert!(g.flags.is_empty());
    // A bit without a name is not clean, but has no flag.
    let g = GitStatus::from_status(Some(0x40));
    assert_eq!(g.status, "unknown");
    assert!(g.flags.is_empty());
}

#[test]
fn times_without_a_date_become_the_epoch() {
    assert_eq!(unix_to_offset(1_700_000_000), 1_700_000_000);
    assert_eq!(unix_to_offset(0), 0);
    assert_eq!(unix_to_offset(MAX_TIMESTAMP as u64), MAX_TIMESTAMP);
    assert_eq!(unix_to_offset(MAX_TIMESTAMP as u64 + 1), 0);
    // The engine counts in unsigned seconds; the top of that range reads as negative.
    assert_eq!(unix_to_offset(u64::MAX), -1);
    assert_eq!(unix_to_offset(MIN_TIMESTAMP as u64), MIN_TIMESTAMP);
    assert_eq!(unix_to_offset((MIN_TIMESTAMP - 1) as u64), 0);
    for secs in [MIN_TIMESTAMP, MAX_TIMESTAMP] {
        assert!(time::OffsetDateTime::from_unix_timestamp(secs).is_ok());
    }
}

fn file() -> FileItem {
    FileItem {
        relative_path: "src/nested/deep.rs".to_string(),
        file_name: "deep.rs".to_string(),
        directory: "src/nested/".to_string(),
        size: 321,
        modified: 1_700_000_000,
        is_binary: false,
        access_frecency_score: 12,
        modification_frecency_score: 30,
        git_recency_score: 7,
        git_status: Some(WT_MODIFIED),
    }
}

#[test]
fn file_items_carry_every_field() {
    let dto = FileItemDto::build(&file(), r"\\server\share\proj", '\\');
    assert_eq!(dto.relative_path, "src/nested/deep.rs");
    assert_eq!(dto.file_name, "deep.rs");
    assert_eq!(dto.directory, "src/nested/");
    assert_eq!(dto.absolute_path, r"\\server\share\proj\src\nested\deep.rs");
    assert_eq!(dto.size, 321);
    assert_eq!(dto.modified, 1_700_000_000);
    assert!(!dto.is_binary);
    assert_eq!(dto.access_frecency_score, 12);
    assert_eq!(dto.modification_frecency_score, 30);
    assert_eq!(dto.git_recency_score, 7);
    assert_eq!(dto.total_frecency_score, 42, "git recency is not part of it");
    assert_eq!(dto.git_status.status, "modified");

    let mut extreme = file();
    extreme.access_frecency_score = i16::MIN;
    extreme.modification_frecency_score = i16::MIN;
    assert_eq!(
        FileItemDto::build(&extreme, "/", '/').total_frecency_score,
        -65_536
    );
}

#[test]
fn directory_items_carry_every_field() {
    let item = DirItem {
        relative_path: "src/nested/".to_string(),
        dir_name: "nested".to_string(),
        max_access_frecency: 9,
    };
    let dto = DirItemDto::build(&item, "/srv/proj", '/');
    assert_eq!(dto.relative_path, "src/nested/");
    assert_eq!(dto.dir_name, "nested");
    assert_eq!(dto.absolute_path, "/srv/proj/src/nested/");
    assert_eq!(dto.max_access_frecency, 9);
}

#[test]
fn scores_carry_all_their_parts() {
    let score = Score {
        total: 1,
        base_score: 2,
        filename_bonus: 3,
        special_filename_bonus: 4,
        frecency_boost: 5,
        git_status_boost: 6,
        git_recency_boost: 7,
        distance_penalty: 8,
        current_file_penalty: 9,
        combo_match_boost: 10,
        path_alignment_bonus: 11,
        exact_match: true,
        match_type: "fuzzy_filename",
    };
    let dto = ScoreDto::from(&score);
    assert_eq!(
        [
            dto.total,
            dto.base_score,
            dto.filename_bonus,
            dto.special_filename_bonus,
            dto.frecency_boost,
            dto.git_status_boost,
            dto.git_recency_boost,
            dto.distance_penalty,
            dto.current_file_penalty,
            dto.combo_match_boost,
            dto.path_alignment_bonus,
        ],
        [1, 2, 3, 4, 5, 6, 7, 8, 9, 10, 11]
    );
    assert!(dto.exact_match);
    assert_eq!(dto.match_type, "fuzzy_filename");
}

#[test]
fn locations_say_what_they_hold() {
    let line = LocationDto::from(Location::Line(42));
    assert_eq!(line.location_type, LocationType::Line);
    assert_eq!(
        (line.line, line.col, line.end_line, line.end_col),
        (42, None, None, None)
    );
    let position = LocationDto::from(Location::Position { line: 42, col: 10 });
    assert_eq!(position.location_type, LocationType::Position);
    assert_eq!(
        (position.line, position.col, position.end_line, position.end_col),
        (42, Some(10), None, None)
    );
    let range = LocationDto::from(Location::Range {
        start: (1, 2),
        end: (3, 4),
    });
    assert_eq!(range.location_type, LocationType::Range);
    assert_eq!(
        (range.line, range.col, range.end_line, range.end_col),
        (1, Some(2), Some(3), Some(4))
    );
    assert!(location_opt(None).is_none());
}
