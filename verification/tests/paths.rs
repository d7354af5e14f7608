use fff_server::paths::{
    canonicalize_root, identity_of, is_network_path, present, root_input, stable_id, FileId,
    FoundRoot, RootProbe, VERBATIM,
};

fn found(canonical: &str, file_id: Option<FileId>) -> RootProbe {
    RootProbe::Found(FoundRoot {
        canonical: canonical.to_string(),
        is_dir: true,
        has_parent: true,
        file_id,
    })
}

const ID: FileId = FileId::Inode {
    device_id: 0x1a,
    inode_number: 0xbeef,
};

#[test]
fn strips_verbatim_unc_for_display() {
    assert_eq!(
        present(r"\\?\UNC\AZWEsofia10.scdom.net\diskK\users\Stefano\Sofia\wlm"),
        r"\\AZWEsofia10.scdom.net\diskK\users\Stefano\Sofia\wlm"
    );
}

#[test]
fn strips_plain_verbatim_for_display() {
    assert_eq!(present(r"\\?\D:\devel\fff"), r"D:\devel\fff");
}

#[test]
fn leaves_ordinary_paths_alone() {
    assert_eq!(present(r"D:\devel\fff"), r"D:\devel\fff");
    assert_eq!(present(r"\\server\share\proj"), r"\\server\share\proj");
}

#[test]
fn only_the_outer_prefix_is_stripped() {
    assert_eq!(present(r"\\?\\\?\D:\x"), r"\\?\D:\x");
    assert_eq!(present(r"\\?\UNC\?\x"), r"\\?\x");
    assert_eq!(present(r"\\?"), r"\\?");
    assert_eq!(present(""), "");
}

#[test]
fn detects_network_roots_in_both_forms() {
    assert!(is_network_path(r"\\?\UNC\srv\share\x"));
    assert!(is_network_path(r"\\srv\share\x"));
    assert!(!is_network_path(r"D:\devel\fff"));
    assert!(!is_network_path(r"\\?\D:\devel\fff"));
}

#[test]
fn ids_are_stable_and_distinct() {
    // Reproducibility matters: a client re-POSTing the same root gets the same id back across
    // server restarts.
    assert_eq!(
        stable_id("fid:highres/aabb/1122"),
        stable_id("fid:highres/aabb/1122")
    );
    assert_ne!(
        stable_id("fid:highres/aabb/1122"),
        stable_id("fid:highres/aabb/1123")
    );
    assert_eq!(stable_id("x").len(), 16);
}

#[test]
fn ids_are_fnv1a_in_hexadecimal() {
    // The published test vectors of 64-bit FNV-1a.
    assert_eq!(stable_id(""), "cbf29ce484222325");
    assert_eq!(stable_id("a"), "af63dc4c8601ec8c");
    assert_eq!(stable_id("foobar"), "85944171f73967e8");
}

#[test]
fn empty_root_is_rejected_before_touching_the_filesystem() {
    let err = root_input("   ").unwrap_err();
    assert_eq!(err.problem().code, "invalid-path");
    assert_eq!(err.to_string(), "root must not be empty");
    assert_eq!(root_input(" \t/srv\u{3000}\n").unwrap(), "/srv");
    let err = canonicalize_root("   ", &found("/srv", None)).unwrap_err();
    assert_eq!(err.problem().code, "invalid-path");
}

#[test]
fn missing_root_is_a_bad_request_not_a_500() {
    let probe = RootProbe::Unresolved("No such file or directory (os error 2)".to_string());
    let err = canonicalize_root(r"Q:\definitely\not\here", &probe).unwrap_err();
    assert_eq!(err.problem().code, "invalid-path");
    assert_eq!(
        err.to_string(),
        r#"cannot resolve root "Q:\\definitely\\not\\here": No such file or directory (os error 2)"#
    );
}

#[test]
fn an_unreadable_root_is_a_bad_request() {
    let probe = RootProbe::Unreadable("permission denied".to_string());
    let err = canonicalize_root("/root", &probe).unwrap_err();
    assert_eq!(err.problem().code, "invalid-path");
    assert_eq!(
        err.to_string(),
        r#"cannot stat root "/root": permission denied"#
    );
}

#[test]
fn a_file_is_not_a_root() {
    let probe = RootProbe::Found(FoundRoot {
        canonical: "/repo/Cargo.toml".to_string(),
        is_dir: false,
        has_parent: true,
        file_id: None,
    });
    let err = canonicalize_root("/repo/Cargo.toml", &probe).unwrap_err();
    assert!(err.problem().detail.unwrap().contains("not a directory"));
}

#[test]
fn a_root_without_a_parent_is_forbidden() {
    let probe = RootProbe::Found(FoundRoot {
        canonical: r"\\?\UNC\server\share".to_string(),
        is_dir: true,
        has_parent: false,
        file_id: None,
    });
    let err = canonicalize_root(r"\\server\share", &probe).unwrap_err();
    assert_eq!(err.problem().status, 403);
    assert_eq!(
        err.to_string(),
        r"refusing to index a filesystem or share root: \\server\share"
    );
}

#[test]
fn a_root_leaves_headroom_in_the_path_buffer() {
    let fits = "/".repeat(3584);
    assert!(canonicalize_root("x", &found(&fits, None)).is_ok());
    let long = "/".repeat(3585);
    let err = canonicalize_root("x", &found(&long, None)).unwrap_err();
    assert_eq!(
        err.to_string(),
        "root path is 3585 bytes; the engine's path buffer is 4096 bytes and needs headroom for \
         paths beneath it (limit 3584)"
    );
    // Bytes count, not characters.
    let wide = "\u{e9}".repeat(1793);
    assert!(canonicalize_root("x", &found(&wide, None)).is_err());
}

#[test]
fn canonicalises_this_repo_and_identifies_it() {
    let root =
        canonicalize_root("/repo", &found("/repo", Some(ID))).expect("repo root resolves");
    assert!(!root.is_network, "the build directory is local");
    assert!(
        root.identity.starts_with("fid:") || root.identity.starts_with("path:"),
        "identity must be tagged: {}",
        root.identity
    );
    assert!(
        !root.display.starts_with(VERBATIM),
        "display form is unprefixed"
    );
    assert_eq!(root.canonical, "/repo");
}

#[test]
fn spelling_does_not_change_identity() {
    // The whole point of file-id identity: two spellings, one workspace.
    let a = canonicalize_root(
        "K:\\users\\Stefano\\wlm",
        &found(r"\\?\UNC\AZWEsofia10.scdom.net\diskK\users\Stefano\wlm", Some(ID)),
    )
    .unwrap();
    let b = canonicalize_root(
        r"\\azwesofia10\diskk\users\Stefano\wlm",
        &found(r"\\?\UNC\azwesofia10\diskk\users\Stefano\wlm", Some(ID)),
    )
    .unwrap();
    assert_ne!(a.display, b.display);
    assert_eq!(a.identity, b.identity);
    assert_eq!(stable_id(&a.identity), stable_id(&b.identity));
    assert!(a.is_network && b.is_network);
}

#[test]
fn trailing_separator_does_not_change_identity() {
    let a = canonicalize_root("/repo", &found("/repo", Some(ID))).unwrap();
    let b = canonicalize_root("/repo\\", &found("/repo", Some(ID))).unwrap();
    assert_eq!(a.identity, b.identity);
}

#[test]
fn identities_are_written_by_hand() {
    assert_eq!(identity_of(&Some(ID), "/x"), "fid:inode/1a/beef");
    assert_eq!(
        identity_of(
            &Some(FileId::LowRes {
                volume_serial_number: 0,
                file_index: u64::MAX
            }),
            "/x"
        ),
        "fid:lowres/0/ffffffffffffffff"
    );
    assert_eq!(
        identity_of(
            &Some(FileId::HighRes {
                volume_serial_number: 0xaabb,
                file_id: u128::MAX
            }),
            "/x"
        ),
        "fid:highres/aabb/ffffffffffffffffffffffffffffffff"
    );
    assert_eq!(
        identity_of(&None, r"\\?\UNC\Server\DiskK\ÄÖ"),
        r"path:\\?\unc\server\diskk\äö"
    );
}
