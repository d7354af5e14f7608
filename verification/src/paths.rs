//! Root canonicalisation and identity.
//!
//! A path string cannot serve as identity: the same directory, reached through a share name and
//! through a mapped drive, canonicalises to two different strings. So identity is the file ID the
//! filesystem supplies, and the path only where there is none.

use crate::error::ApiError;
use crate::number::{decimal, decimal_text, hex, hex_fixed, hex_padded, hex_text};
use crate::text::{
    chars_of, debug_text, lemma_without_trailing, lowercase, lowercase_text, quoted, same,
    skip_chars, starts_with, string_of, trim, trim_trailing, trimmed, without_trailing,
};
use vstd::prelude::*;
use vstd::utf8::encode_utf8;

verus! {

/// The engine caps its path buffer at 4096 bytes.
pub const MAX_PATH_BYTES: usize = 4096;

/// Reserved so a deep relative path under an accepted root cannot reach the cap.
pub const RELATIVE_HEADROOM: usize = 512;

/// What is said of a root whose path leaves too little of the buffer, after its size.
pub const TOO_LONG: &'static str =
    " bytes; the engine's path buffer is 4096 bytes and needs headroom for paths beneath it (limit 3584)";

/// The prefix of a verbatim share path.
pub const VERBATIM_UNC: &'static str = "\\\\?\\UNC\\";

/// The prefix of a verbatim path.
pub const VERBATIM: &'static str = "\\\\?\\";

/// The prefix of a share path.
pub const PLAIN_UNC: &'static str = "\\\\";

/// A validated root, ready to hand to the engine.
#[derive(Debug, Clone)]
pub struct CanonicalRoot {
    /// Exactly what the engine is given and what it stores as base path. Keeps the verbatim
    /// prefix on shares.
    pub canonical: String,
    /// Client-facing form, verbatim prefix stripped. Never an identity key.
    pub display: String,
    /// Volume and file ID where the filesystem supplies one, else the case-folded canonical
    /// string. Two spellings of one directory share this.
    pub identity: String,
    /// Whether the resolved root lives on a network share. Reported to clients; nothing is
    /// special-cased on it.
    pub is_network: bool,
}

/// What a filesystem tells files apart by.
#[derive(Debug, Clone, Copy, PartialEq, Eq, Structural)]
pub enum FileId {
    Inode { device_id: u64, inode_number: u64 },
    LowRes { volume_serial_number: u32, file_index: u64 },
    HighRes { volume_serial_number: u64, file_id: u128 },
}

/// What the filesystem answered about a requested root.
#[derive(Debug, Clone)]
pub enum RootProbe {
    /// It could not be canonicalised, for this reason.
    Unresolved(String),
    /// It could be canonicalised but not looked at, for this reason.
    Unreadable(String),
    /// It is there.
    Found(FoundRoot),
}

/// What stands at a canonicalised path.
#[derive(Debug, Clone)]
pub struct FoundRoot {
    pub canonical: String,
    pub is_dir: bool,
    /// Whether the path has a parent: a filesystem root and a bare share root have none.
    pub has_parent: bool,
    /// The file ID, where the filesystem supplies one.
    pub file_id: Option<FileId>,
}

// ---------------------------------------------------------------------------------------------
// Presentation.
// ---------------------------------------------------------------------------------------------

/// A path without its verbatim prefix.
pub open spec fn presented(s: Seq<char>) -> Seq<char> {
    if VERBATIM_UNC@.is_prefix_of(s) {
        PLAIN_UNC@ + s.skip(VERBATIM_UNC@.len() as int)
    } else if VERBATIM@.is_prefix_of(s) {
        s.skip(VERBATIM@.len() as int)
    } else {
        s
    }
}

/// Strips a verbatim prefix for presentation: `\\?\UNC\srv\share\x` becomes `\\srv\share\x`, and
/// `\\?\D:\x` becomes `D:\x`.
pub fn present(path: &str) -> (r: String)
    ensures
        r@ == presented(path@),
{
    proof {
        reveal_strlit("\\\\?\\UNC\\");
        reveal_strlit("\\\\?\\");
    }
    if starts_with(path, VERBATIM_UNC) {
        let mut out = PLAIN_UNC.to_owned();
        out.append(skip_chars(path, 8).as_str());
        out
    } else if starts_with(path, VERBATIM) {
        skip_chars(path, 4)
    } else {
        path.to_owned()
    }
}

/// Whether a path names a share, verbatim or not.
pub open spec fn is_network(s: Seq<char>) -> bool {
    VERBATIM_UNC@.is_prefix_of(s) || (PLAIN_UNC@.is_prefix_of(s) && !VERBATIM@.is_prefix_of(s))
}

/// True for share paths, verbatim or not. Mapped drives resolve to share paths during
/// canonicalisation, so they are covered without querying drive types.
pub fn is_network_path(canonical_str: &str) -> (r: bool)
    ensures
        r == is_network(canonical_str@),
{
    starts_with(canonical_str, VERBATIM_UNC) || starts_with_plain_unc(canonical_str)
}

fn starts_with_plain_unc(s: &str) -> (r: bool)
    ensures
        r == (PLAIN_UNC@.is_prefix_of(s@) && !VERBATIM@.is_prefix_of(s@)),
{
    starts_with(s, PLAIN_UNC) && !starts_with(s, VERBATIM)
}

// ---------------------------------------------------------------------------------------------
// Identity.
// ---------------------------------------------------------------------------------------------

/// A file ID as text.
pub open spec fn file_id_text(id: FileId) -> Seq<char> {
    match id {
        FileId::Inode { device_id, inode_number } => "inode/"@ + hex_text(device_id as nat) + "/"@
            + hex_text(inode_number as nat),
        FileId::LowRes { volume_serial_number, file_index } => "lowres/"@ + hex_text(
            volume_serial_number as nat,
        ) + "/"@ + hex_text(file_index as nat),
        FileId::HighRes { volume_serial_number, file_id } => "highres/"@ + hex_text(
            volume_serial_number as nat,
        ) + "/"@ + hex_text(file_id as nat),
    }
}

/// Writes a file ID. Formatted by hand so the key does not change shape with a `Debug` output.
fn format_file_id(id: &FileId) -> (r: String)
    ensures
        r@ == file_id_text(*id),
{
    let (tag, volume, file): (&str, u128, u128) = match id {
        FileId::Inode { device_id, inode_number } => (
            "inode/",
            *device_id as u128,
            *inode_number as u128,
        ),
        FileId::LowRes { volume_serial_number, file_index } => (
            "lowres/",
            *volume_serial_number as u128,
            *file_index as u128,
        ),
        FileId::HighRes { volume_serial_number, file_id } => (
            "highres/",
            *volume_serial_number as u128,
            *file_id,
        ),
    };
    let mut out = tag.to_owned();
    out.append(hex(volume).as_str());
    out.append("/");
    out.append(hex(file).as_str());
    out
}

/// The identity of a directory: its file ID, or its case-folded path where it has none.
pub open spec fn identity_text(file_id: Option<FileId>, canonical: Seq<char>) -> Seq<char> {
    match file_id {
        Some(id) => "fid:"@ + file_id_text(id),
        None => "path:"@ + lowercase_text(canonical),
    }
}

/// Identity is the directory's file ID. Falls back to the case-folded canonical string where the
/// filesystem offers no usable ID, which degrades to string identity rather than failing.
pub fn identity_of(file_id: &Option<FileId>, canonical_str: &str) -> (r: String)
    ensures
        r@ == identity_text(*file_id, canonical_str@),
{
    match file_id {
        Some(id) => {
            let mut out = "fid:".to_owned();
            out.append(format_file_id(id).as_str());
            out
        },
        None => {
            let mut out = "path:".to_owned();
            out.append(lowercase(canonical_str).as_str());
            out
        },
    }
}

/// The 64-bit FNV-1a hash of a sequence of bytes.
pub open spec fn fnv1a(bytes: Seq<u8>) -> u64
    decreases bytes.len(),
{
    if bytes.len() == 0 {
        0xcbf2_9ce4_8422_2325
    } else {
        ((fnv1a(bytes.drop_last()) ^ bytes.last() as u64) as nat * 0x0000_0100_0000_01b3nat
            % 0x1_0000_0000_0000_0000nat) as u64
    }
}

/// The identifier for an identity: its hash in sixteen hexadecimal digits.
pub open spec fn stable_id_text(identity: Seq<char>) -> Seq<char> {
    hex_padded(fnv1a(encode_utf8(identity)) as nat, 16)
}

/// Stable 64-bit FNV-1a, so a workspace id is reproducible across restarts and across compiler
/// releases.
pub fn stable_id(identity: &str) -> (r: String)
    ensures
        r@ == stable_id_text(identity@),
{
    let bytes = identity.as_bytes();
    let mut hash: u64 = 0xcbf2_9ce4_8422_2325;
    let mut i: usize = 0;
    while i < bytes.len()
        invariant
            i <= bytes@.len(),
            hash == fnv1a(bytes@.take(i as int)),
        decreases bytes@.len() - i,
    {
        hash = (hash ^ bytes[i] as u64).wrapping_mul(0x0000_0100_0000_01b3);
        assert(bytes@.take(i + 1).drop_last() =~= bytes@.take(i as int));
        i += 1;
    }
    assert(bytes@.take(i as int) =~= bytes@);
    hex_fixed(hash, 16)
}

// ---------------------------------------------------------------------------------------------
// Containment.
// ---------------------------------------------------------------------------------------------

/// Whether a canonical path is `base` or lies in it, component by component: what follows `base`
/// begins with a separator.
pub open spec fn beneath(path: Seq<char>, base: Seq<char>, sep: char) -> bool {
    path == base || (without_trailing(base, sep) + seq![sep]).is_prefix_of(path)
}

/// What is left of a path that lies in `base`, without the separator in front.
pub open spec fn rest_beneath(path: Seq<char>, base: Seq<char>, sep: char) -> Seq<char> {
    if path == base {
        seq![]
    } else {
        path.skip(without_trailing(base, sep).len() as int + 1)
    }
}

/// Whether a canonical path is `base` or lies in it.
pub fn is_beneath(path: &str, base: &str, sep: char) -> (r: bool)
    ensures
        r == beneath(path@, base@, sep),
{
    let mut inside = trim_trailing(base, sep);
    inside.push(sep);
    assert(inside@ =~= without_trailing(base@, sep) + seq![sep]);
    same(path, base) || starts_with(path, inside.as_str())
}

/// What is left of a path beneath `base`.
pub fn relative_to(path: &str, base: &str, sep: char) -> (r: String)
    requires
        beneath(path@, base@, sep),
    ensures
        r@ == rest_beneath(path@, base@, sep),
{
    if same(path, base) {
        return String::new();
    }
    let top = trim_trailing(base, sep);
    let n: usize = chars_of(top.as_str()).len();
    let chars = chars_of(path);
    let end: usize = chars.len();
    let r = string_of(&chars, n + 1, end);
    assert(r@ =~= rest_beneath(path@, base@, sep));
    r
}

/// A directory of `parent`.
pub open spec fn child_path(parent: Seq<char>, name: Seq<char>, sep: char) -> Seq<char> {
    if parent.len() == 0 {
        name
    } else if parent.last() == sep {
        parent + name
    } else {
        parent + seq![sep] + name
    }
}

/// Names a directory of `parent`.
pub fn child(parent: &str, name: &str, sep: char) -> (r: String)
    ensures
        r@ == child_path(parent@, name@, sep),
{
    let chars = chars_of(parent);
    let mut out = parent.to_owned();
    if chars.len() > 0 && chars[chars.len() - 1] != sep {
        out.push(sep);
    }
    out.append(name);
    assert(out@ =~= child_path(parent@, name@, sep));
    out
}

// ---------------------------------------------------------------------------------------------
// Roots.
// ---------------------------------------------------------------------------------------------

/// The path a client asks for, without the white space around it, or the error where nothing is
/// left. Decided before the filesystem is touched.
pub fn root_input(input: &str) -> (r: Result<String, ApiError>)
    ensures
        match r {
            Ok(path) => path@ == trimmed(input@) && path@.len() > 0,
            Err(e) => trimmed(input@).len() == 0 && e is InvalidPath && e.message()
                == "root must not be empty"@,
        },
{
    let path = trim(input);
    if path.as_str().is_empty() {
        return Err(ApiError::InvalidPath("root must not be empty".to_owned()));
    }
    Ok(path)
}

/// Whether a canonical path leaves enough of the engine's path buffer for what lies beneath it.
pub open spec fn fits_the_buffer(canonical: Seq<char>) -> bool {
    encode_utf8(canonical).len() <= MAX_PATH_BYTES - RELATIVE_HEADROOM
}

impl CanonicalRoot {
    /// A copy.
    pub fn copy(&self) -> (r: Self)
        ensures
            r == *self,
    {
        CanonicalRoot {
            canonical: self.canonical.clone(),
            display: self.display.clone(),
            identity: self.identity.clone(),
            is_network: self.is_network,
        }
    }

    /// What an accepted root is made of.
    pub open spec fn describes(self, found: FoundRoot) -> bool {
        &&& self.canonical@ == found.canonical@
        &&& self.display@ == presented(found.canonical@)
        &&& self.identity@ == identity_text(found.file_id, found.canonical@)
        &&& self.is_network == is_network(found.canonical@)
    }
}

/// Whether a found path may be a root.
pub open spec fn is_root(found: FoundRoot) -> bool {
    found.is_dir && fits_the_buffer(found.canonical@) && found.has_parent
}

/// The refusal of a root that the filesystem answered for in this way.
pub open spec fn root_refused(path: Seq<char>, probe: RootProbe, e: ApiError) -> bool {
    match probe {
        RootProbe::Unresolved(why) => e is InvalidPath && e.message() == "cannot resolve root "@
            + debug_text(path) + ": "@ + why@,
        RootProbe::Unreadable(why) => e is InvalidPath && e.message() == "cannot stat root "@
            + debug_text(path) + ": "@ + why@,
        RootProbe::Found(found) => if !found.is_dir {
            e is InvalidPath && e.message() == "root is not a directory: "@ + debug_text(path)
        } else if !fits_the_buffer(found.canonical@) {
            e is InvalidPath && e.message() == "root path is "@ + decimal_text(
                encode_utf8(found.canonical@).len(),
            )
                + TOO_LONG@
        } else {
            &&& !found.has_parent
            &&& e is Forbidden
            &&& e.message() == "refusing to index a filesystem or share root: "@ + presented(
                found.canonical@,
            )
        },
    }
}

/// `prefix`, the quoted path, a colon and the reason.
pub(crate) fn path_failure(prefix: &str, path: &str, why: &str) -> (r: String)
    ensures
        r@ == prefix@ + debug_text(path@) + ": "@ + why@,
{
    let mut text = prefix.to_owned();
    text.append(quoted(path).as_str());
    text.append(": ");
    text.append(why);
    text
}

/// Validates and identifies a requested root, given what the filesystem answered about it.
pub fn canonicalize_root(input: &str, probe: &RootProbe) -> (r: Result<CanonicalRoot, ApiError>)
    ensures
        match r {
            Ok(root) => trimmed(input@).len() > 0 && (*probe matches RootProbe::Found(found)
                && is_root(found) && root.describes(found)),
            Err(e) => if trimmed(input@).len() == 0 {
                e is InvalidPath && e.message() == "root must not be empty"@
            } else {
                root_refused(trimmed(input@), *probe, e)
            },
        },
{
    let path = match root_input(input) {
        Ok(path) => path,
        Err(e) => return Err(e),
    };
    let found = match probe {
        RootProbe::Unresolved(why) => return Err(
            ApiError::InvalidPath(
                path_failure("cannot resolve root ", path.as_str(), why.as_str()),
            ),
        ),
        RootProbe::Unreadable(why) => return Err(
            ApiError::InvalidPath(path_failure("cannot stat root ", path.as_str(), why.as_str())),
        ),
        RootProbe::Found(found) => found,
    };
    if !found.is_dir {
        let mut text = "root is not a directory: ".to_owned();
        text.append(quoted(path.as_str()).as_str());
        return Err(ApiError::InvalidPath(text));
    }
    let canonical = found.canonical.as_str();
    let size: usize = canonical.as_bytes().len();
    if size > MAX_PATH_BYTES - RELATIVE_HEADROOM {
        let mut text = "root path is ".to_owned();
        text.append(decimal(size as u64).as_str());
        text.append(TOO_LONG);
        return Err(ApiError::InvalidPath(text));
    }
    // A bare share root, or a filesystem root, has no parent. The engine refuses both.
    if !found.has_parent {
        let mut text = "refusing to index a filesystem or share root: ".to_owned();
        text.append(present(canonical).as_str());
        return Err(ApiError::Forbidden(text));
    }
    Ok(
        CanonicalRoot {
            canonical: found.canonical.clone(),
            display: present(canonical),
            identity: identity_of(&found.file_id, canonical),
            is_network: is_network_path(canonical),
        },
    )
}

// ---------------------------------------------------------------------------------------------
// What holds of every path.
// ---------------------------------------------------------------------------------------------

/// A presented path carries no verbatim prefix. The one exception is a path whose prefix, once
/// stripped, uncovers another: a verbatim path inside a verbatim path, or a share of a host named
/// `?`.
pub proof fn presented_paths_are_not_verbatim(s: Seq<char>)
    ensures
        VERBATIM@.is_prefix_of(presented(s)) <==> (if VERBATIM_UNC@.is_prefix_of(s) {
            s.len() >= 10 && s[8] == '?' && s[9] == '\\'
        } else {
            VERBATIM@.is_prefix_of(s) && VERBATIM@.is_prefix_of(s.skip(4))
        }),
        !VERBATIM@.is_prefix_of(s) ==> presented(s) == s,
{
    reveal_strlit("\\\\?\\UNC\\");
    reveal_strlit("\\\\?\\");
    reveal_strlit("\\\\");
    let p = presented(s);
    let v = VERBATIM@;
    let u = VERBATIM_UNC@;
    assert(v.is_prefix_of(u)) by {
        assert(u.subrange(0, 4) =~= v);
    }
    if u.is_prefix_of(s) {
        assert(s.subrange(0, 8) == u);
        assert(forall|i: int| 0 <= i < 8 ==> s[i] == u[i]) by {
            assert(forall|i: int| 0 <= i < 8 ==> s[i] == s.subrange(0, 8)[i]);
        }
        assert(s.subrange(0, 4) =~= v);
        if s.len() >= 10 && s[8] == '?' && s[9] == '\\' {
            assert(p.subrange(0, 4) =~= v);
        } else if v.is_prefix_of(p) {
            assert(p.subrange(0, 4)[2] == v[2]);
            assert(p.subrange(0, 4)[3] == v[3]);
        }
    }
}

/// A workspace id is sixteen lower-case hexadecimal digits.
pub proof fn ids_are_sixteen_hex_digits(identity: Seq<char>)
    ensures
        stable_id_text(identity).len() == 16,
        forall|i: int|
            0 <= i < 16 ==> ('0' <= #[trigger] stable_id_text(identity)[i] <= '9' || 'a'
                <= stable_id_text(identity)[i] <= 'f'),
{
    crate::number::hex_padded_is_hex(fnv1a(encode_utf8(identity)) as nat, 16);
}

/// Two identities share an id only where their hashes are the same.
pub proof fn ids_follow_the_hash(a: Seq<char>, b: Seq<char>)
    ensures
        stable_id_text(a) == stable_id_text(b) <==> fnv1a(encode_utf8(a)) == fnv1a(encode_utf8(b)),
{
    let x = fnv1a(encode_utf8(a)) as nat;
    let y = fnv1a(encode_utf8(b)) as nat;
    if stable_id_text(a) == stable_id_text(b) {
        assert(vstd::arithmetic::power::pow(16, 16) == 0x1_0000_0000_0000_0000) by {
            reveal_with_fuel(vstd::arithmetic::power::pow, 17);
        }
        crate::number::hex_padded_is_injective(x, y, 16);
    }
}

/// The identity of a directory that has a file ID does not depend on how its path is spelled.
pub proof fn spelling_does_not_change_the_identity(id: FileId, a: Seq<char>, b: Seq<char>)
    ensures
        identity_text(Some(id), a) == identity_text(Some(id), b),
        stable_id_text(identity_text(Some(id), a)) == stable_id_text(identity_text(Some(id), b)),
{
}

/// Text before and after a slash, where what stands before holds none.
proof fn lemma_split_at_slash(a: Seq<char>, b: Seq<char>, x: Seq<char>, y: Seq<char>)
    requires
        !a.contains('/'),
        !x.contains('/'),
        a + "/"@ + b == x + "/"@ + y,
    ensures
        a == x,
        b == y,
{
    reveal_strlit("/");
    let s = a + "/"@ + b;
    let t = x + "/"@ + y;
    assert(s[a.len() as int] == '/');
    assert(t[x.len() as int] == '/');
    if a.len() < x.len() {
        assert(t[a.len() as int] == x[a.len() as int]);
    } else if x.len() < a.len() {
        assert(s[x.len() as int] == a[x.len() as int]);
    }
    assert(a =~= s.subrange(0, a.len() as int));
    assert(x =~= t.subrange(0, x.len() as int));
    assert(b =~= s.skip(a.len() as int + 1));
    assert(y =~= t.skip(x.len() as int + 1));
}

/// A tag in front of a text can be taken off again.
proof fn lemma_same_tag(tag: Seq<char>, a: Seq<char>, b: Seq<char>)
    requires
        tag + a == tag + b,
    ensures
        a == b,
{
    assert(a =~= (tag + a).skip(tag.len() as int));
    assert(b =~= (tag + b).skip(tag.len() as int));
}

/// The two numbers of a file ID, as they are written, can be told from the text.
proof fn lemma_same_numbers(tag: Seq<char>, a: nat, b: nat, x: nat, y: nat)
    requires
        tag + hex_text(a) + "/"@ + hex_text(b) == tag + hex_text(x) + "/"@ + hex_text(y),
    ensures
        a == x,
        b == y,
{
    let l = hex_text(a) + "/"@ + hex_text(b);
    let r = hex_text(x) + "/"@ + hex_text(y);
    assert(tag + l =~= tag + hex_text(a) + "/"@ + hex_text(b));
    assert(tag + r =~= tag + hex_text(x) + "/"@ + hex_text(y));
    lemma_same_tag(tag, l, r);
    crate::number::hex_text_is_injective(a, x);
    crate::number::hex_text_is_injective(x, a);
    crate::number::hex_text_is_injective(b, y);
    lemma_split_at_slash(hex_text(a), hex_text(b), hex_text(x), hex_text(y));
}

/// The first character tells the three forms of file ID apart.
proof fn lemma_tag(id: FileId)
    ensures
        file_id_text(id).len() > 0,
        file_id_text(id)[0] == match id {
            FileId::Inode { .. } => 'i',
            FileId::LowRes { .. } => 'l',
            FileId::HighRes { .. } => 'h',
        },
{
    reveal_strlit("inode/");
    reveal_strlit("lowres/");
    reveal_strlit("highres/");
}

/// Two directories share an identity only where they share a file ID; one that has a file ID
/// never shares an identity with one that has none.
pub proof fn identities_tell_file_ids_apart(
    a: Option<FileId>,
    b: Option<FileId>,
    path_a: Seq<char>,
    path_b: Seq<char>,
)
    requires
        identity_text(a, path_a) == identity_text(b, path_b),
    ensures
        a == b,
{
    reveal_strlit("fid:");
    reveal_strlit("path:");
    assert("fid:"@[0] == 'f' && "path:"@[0] == 'p');
    assert(identity_text(a, path_a)[0] == if a is Some { 'f' } else { 'p' });
    assert(identity_text(b, path_b)[0] == if b is Some { 'f' } else { 'p' });
    if a is Some && b is Some {
        lemma_same_tag("fid:"@, file_id_text(a->0), file_id_text(b->0));
        lemma_tag(a->0);
        lemma_tag(b->0);
        match (a->0, b->0) {
            (
                FileId::Inode { device_id: v, inode_number: f },
                FileId::Inode { device_id: w, inode_number: g },
            ) => {
                lemma_same_numbers("inode/"@, v as nat, f as nat, w as nat, g as nat);
            },
            (
                FileId::LowRes { volume_serial_number: v, file_index: f },
                FileId::LowRes { volume_serial_number: w, file_index: g },
            ) => {
                lemma_same_numbers("lowres/"@, v as nat, f as nat, w as nat, g as nat);
            },
            (
                FileId::HighRes { volume_serial_number: v, file_id: f },
                FileId::HighRes { volume_serial_number: w, file_id: g },
            ) => {
                lemma_same_numbers("highres/"@, v as nat, f as nat, w as nat, g as nat);
            },
            _ => {},
        }
    }
}

/// A number below 2^64 can be recovered from its product with the hash's multiplier, because the
/// multiplier has an inverse.
proof fn lemma_multiplier_inverts(v: int)
    requires
        0 <= v < 0x1_0000_0000_0000_0000,
    ensures
        (v * 0x0000_0100_0000_01b3 % 0x1_0000_0000_0000_0000) * 0xce96_5057_aff6_957b
            % 0x1_0000_0000_0000_0000 == v,
{
    let m = 0x1_0000_0000_0000_0000int;
    let p = 0x0000_0100_0000_01b3int;
    let inverse = 0xce96_5057_aff6_957bint;
    assert(p * inverse == 0x00ce_9650_590f * m + 1);
    vstd::arithmetic::div_mod::lemma_mul_mod_noop_left(v * p, inverse, m);
    assert(v * p * inverse == v * (p * inverse)) by (nonlinear_arith);
    assert(v * (p * inverse) == v * 0x00ce_9650_590f * m + v) by (nonlinear_arith)
        requires
            p * inverse == 0x00ce_9650_590f * m + 1,
    ;
    vstd::arithmetic::div_mod::lemma_mod_multiples_vanish(v * 0x00ce_9650_590f, v, m);
    vstd::arithmetic::div_mod::lemma_small_mod(v as nat, m as nat);
    assert(m * (v * 0x00ce_9650_590f) + v == v * 0x00ce_9650_590f * m + v) by (nonlinear_arith);
}

/// Byte strings that differ only in their last byte never share a hash, so numbering files apart
/// by their last digit numbers their workspaces apart.
pub proof fn the_last_byte_changes_the_hash(bytes: Seq<u8>, x: u8, y: u8)
    requires
        x != y,
    ensures
        fnv1a(bytes.push(x)) != fnv1a(bytes.push(y)),
{
    let h = fnv1a(bytes);
    assert(bytes.push(x).drop_last() =~= bytes);
    assert(bytes.push(y).drop_last() =~= bytes);
    let a = h ^ x as u64;
    let b = h ^ y as u64;
    assert(a != b) by (bit_vector)
        requires
            x != y,
            a == h ^ x as u64,
            b == h ^ y as u64,
    ;
    lemma_multiplier_inverts(a as int);
    lemma_multiplier_inverts(b as int);
}

/// Containment goes by whole components: `/a` holds `/a` and `/a/b`, but not `/ab`.
pub proof fn containment_is_by_component(base: Seq<char>, next: char, rest: Seq<char>, sep: char)
    requires
        base.len() > 0,
        base.last() != sep,
    ensures
        beneath(base, base, sep),
        beneath(base + seq![sep] + rest, base, sep),
        next != sep ==> !beneath(base + seq![next] + rest, base, sep),
{
    let inside = base + seq![sep] + rest;
    let beside = base + seq![next] + rest;
    let front = without_trailing(base, sep) + seq![sep];
    assert(inside.subrange(0, front.len() as int) =~= front);
    if next != sep {
        assert(beside.len() > base.len());
        if front.is_prefix_of(beside) {
            assert(beside.subrange(0, front.len() as int)[base.len() as int] == sep);
        }
    }
}

/// What lies in a directory that lies in `base` lies in `base`.
pub proof fn containment_is_transitive(
    path: Seq<char>,
    dir: Seq<char>,
    base: Seq<char>,
    sep: char,
)
    requires
        beneath(path, dir, sep),
        beneath(dir, base, sep),
    ensures
        beneath(path, base, sep),
{
    if path != dir && dir != base {
        let d = without_trailing(dir, sep);
        let b = without_trailing(base, sep);
        let n = b.len() as int;
        lemma_without_trailing(dir, sep);
        lemma_without_trailing(base, sep);
        let front = b + seq![sep];
        assert(dir.subrange(0, n + 1) == front);
        assert(path.subrange(0, d.len() as int + 1) == d + seq![sep]);
        assert forall|i: int| 0 <= i <= n implies dir[i] == front[i] by {
            assert(dir.subrange(0, n + 1)[i] == dir[i]);
        }
        assert forall|i: int| 0 <= i <= d.len() implies path[i] == (d + seq![sep])[i] by {
            assert(path.subrange(0, d.len() as int + 1)[i] == path[i]);
        }
        lemma_trimmed_tail(dir, sep);
        if d.len() < n {
            assert(dir[n - 1] == b[n - 1]);
        }
        assert(path.subrange(0, n + 1) =~= front);
    }
}

/// Everything past what trimming leaves is `sep`.
proof fn lemma_trimmed_tail(s: Seq<char>, sep: char)
    ensures
        forall|i: int| without_trailing(s, sep).len() <= i < s.len() ==> s[i] == sep,
    decreases s.len(),
{
    if s.len() > 0 && s.last() == sep {
        let t = s.drop_last();
        lemma_trimmed_tail(t, sep);
        assert forall|i: int| without_trailing(s, sep).len() <= i < s.len() implies s[i]
            == sep by {
            if i < t.len() {
                assert(t[i] == sep);
            }
        }
    }
}

/// A path is its base, a separator and what is left of it beneath the base.
pub proof fn the_rest_completes_the_path(path: Seq<char>, base: Seq<char>, sep: char)
    requires
        beneath(path, base, sep),
    ensures
        path == base || path == without_trailing(base, sep) + seq![sep] + rest_beneath(
            path,
            base,
            sep,
        ),
{
    if path != base {
        let front = without_trailing(base, sep) + seq![sep];
        assert(path =~= path.subrange(0, front.len() as int) + path.skip(front.len() as int));
    }
}

/// Different names give different directories of one parent.
pub proof fn children_are_told_apart(parent: Seq<char>, a: Seq<char>, b: Seq<char>, sep: char)
    requires
        child_path(parent, a, sep) == child_path(parent, b, sep),
    ensures
        a == b,
{
    let front = if parent.len() == 0 || parent.last() == sep {
        parent
    } else {
        parent + seq![sep]
    };
    assert(child_path(parent, a, sep) =~= front + a);
    assert(child_path(parent, b, sep) =~= front + b);
    lemma_same_tag(front, a, b);
}

/// How paths are presented: `\\?\UNC\` becomes `\\`, any other `\\?\` goes, and a path without
/// either stays as it is.
pub proof fn verbatim_prefixes_are_taken_off(s: Seq<char>, rest: Seq<char>)
    ensures
        presented(seq!['\\', '\\', '?', '\\', 'U', 'N', 'C', '\\'] + rest) == seq!['\\', '\\']
            + rest,
        !seq!['U', 'N', 'C', '\\'].is_prefix_of(rest) ==> presented(seq!['\\', '\\', '?', '\\']
            + rest) == rest,
        !seq!['\\', '\\', '?', '\\'].is_prefix_of(s) ==> presented(s) == s,
{
    lemma_prefixes();
    let unc = VERBATIM_UNC@ + rest;
    let verbatim = VERBATIM@ + rest;
    assert(unc.subrange(0, 8) =~= VERBATIM_UNC@);
    assert(unc.skip(8) =~= rest);
    assert(verbatim.subrange(0, 4) =~= VERBATIM@);
    assert(verbatim.skip(4) =~= rest);
    if VERBATIM_UNC@.is_prefix_of(verbatim) {
        assert(verbatim.subrange(0, 8) == VERBATIM_UNC@);
        assert(rest.subrange(0, 4) =~= seq!['U', 'N', 'C', '\\']) by {
            assert forall|i: int| 0 <= i < 4 implies rest[i] == VERBATIM_UNC@[i + 4] by {
                assert(verbatim.subrange(0, 8)[i + 4] == rest[i]);
            }
        }
    }
    if VERBATIM_UNC@.is_prefix_of(s) {
        assert(s.subrange(0, 8) == VERBATIM_UNC@);
        assert(s.subrange(0, 4) =~= VERBATIM@) by {
            assert forall|i: int| 0 <= i < 4 implies s[i] == VERBATIM@[i] by {
                assert(s.subrange(0, 8)[i] == s[i]);
            }
        }
    }
}

/// Which paths are on a share: those that begin with `\\`, but for `\\?\`, of which only
/// `\\?\UNC\` is.
pub proof fn shares_are_told_by_their_prefix(s: Seq<char>, rest: Seq<char>)
    ensures
        is_network(seq!['\\', '\\', '?', '\\', 'U', 'N', 'C', '\\'] + rest),
        !seq!['U', 'N', 'C', '\\'].is_prefix_of(rest) ==> !is_network(
            seq!['\\', '\\', '?', '\\'] + rest,
        ),
        !seq!['\\', '\\'].is_prefix_of(s) ==> !is_network(s),
        seq!['\\', '\\'].is_prefix_of(s) && !seq!['\\', '\\', '?', '\\'].is_prefix_of(s)
            ==> is_network(s),
{
    lemma_prefixes();
    let unc = VERBATIM_UNC@ + rest;
    let verbatim = VERBATIM@ + rest;
    assert(unc.subrange(0, 8) =~= VERBATIM_UNC@);
    assert(verbatim.subrange(0, 4) =~= VERBATIM@);
    if VERBATIM_UNC@.is_prefix_of(verbatim) {
        assert(verbatim.subrange(0, 8) == VERBATIM_UNC@);
        assert(rest.subrange(0, 4) =~= seq!['U', 'N', 'C', '\\']) by {
            assert forall|i: int| 0 <= i < 4 implies rest[i] == VERBATIM_UNC@[i + 4] by {
                assert(verbatim.subrange(0, 8)[i + 4] == rest[i]);
            }
        }
    }
    if VERBATIM_UNC@.is_prefix_of(s) {
        assert(s.subrange(0, 8) == VERBATIM_UNC@);
        assert(s.subrange(0, 2) =~= PLAIN_UNC@) by {
            assert forall|i: int| 0 <= i < 2 implies s[i] == PLAIN_UNC@[i] by {
                assert(s.subrange(0, 8)[i] == s[i]);
            }
        }
    }
}

/// The three prefixes, character by character.
proof fn lemma_prefixes()
    ensures
        VERBATIM_UNC@ == seq!['\\', '\\', '?', '\\', 'U', 'N', 'C', '\\'],
        VERBATIM@ == seq!['\\', '\\', '?', '\\'],
        PLAIN_UNC@ == seq!['\\', '\\'],
{
    reveal_strlit("\\\\?\\UNC\\");
    reveal_strlit("\\\\?\\");
    reveal_strlit("\\\\");
    assert(VERBATIM_UNC@ =~= seq!['\\', '\\', '?', '\\', 'U', 'N', 'C', '\\']);
    assert(VERBATIM@ =~= seq!['\\', '\\', '?', '\\']);
    assert(PLAIN_UNC@ =~= seq!['\\', '\\']);
}

/// An identity is the file ID with its kind, volume and file number, where there is one, and the
/// case-folded path where there is none.
pub proof fn identities_are_spelled_out(a: u64, b: u64, c: u32, d: u128, path: Seq<char>)
    ensures
        identity_text(Some(FileId::Inode { device_id: a, inode_number: b }), path) == "fid:"@ + (
        "inode/"@ + hex_text(a as nat) + "/"@ + hex_text(b as nat)),
        identity_text(Some(FileId::LowRes { volume_serial_number: c, file_index: b }), path)
            == "fid:"@ + ("lowres/"@ + hex_text(c as nat) + "/"@ + hex_text(b as nat)),
        identity_text(Some(FileId::HighRes { volume_serial_number: a, file_id: d }), path)
            == "fid:"@ + ("highres/"@ + hex_text(a as nat) + "/"@ + hex_text(d as nat)),
        identity_text(None, path) == "path:"@ + lowercase_text(path),
{
}

/// The hash takes in one byte after the other: it starts from the offset basis, and each byte is
/// mixed in and then multiplied by the prime, in 64 bits. An id is the hash in hexadecimal.
pub proof fn the_hash_is_fnv_1a(bytes: Seq<u8>, b: u8, identity: Seq<char>)
    ensures
        fnv1a(seq![]) == 14_695_981_039_346_656_037,
        fnv1a(bytes.push(b)) == (fnv1a(bytes) ^ (b as u64)) * 1_099_511_628_211
            % 18_446_744_073_709_551_616,
        stable_id_text(identity) == hex_padded(fnv1a(encode_utf8(identity)) as nat, 16),
{
    assert(bytes.push(b).drop_last() =~= bytes);
}

/// What is left of a path beneath its base is what was put there, and of the base itself nothing.
pub proof fn the_rest_is_what_was_put_there(base: Seq<char>, rest: Seq<char>, sep: char)
    ensures
        beneath(base, base, sep),
        rest_beneath(base, base, sep).len() == 0,
        base.len() > 0 && base.last() != sep ==> beneath(base + seq![sep] + rest, base, sep)
            && rest_beneath(base + seq![sep] + rest, base, sep) == rest,
        base.len() > 0 && base.last() != sep && rest.len() > 0 ==> beneath(
            base + seq![sep] + rest,
            base + seq![sep],
            sep,
        ) && rest_beneath(base + seq![sep] + rest, base + seq![sep], sep) == rest,
{
    let inside = base + seq![sep] + rest;
    let dir = base + seq![sep];
    if base.len() > 0 && base.last() != sep {
        assert(without_trailing(base, sep) == base);
        assert(dir.drop_last() =~= base);
        assert(without_trailing(dir, sep) == base);
        assert(inside.subrange(0, dir.len() as int) =~= dir);
        assert(inside.skip(base.len() as int + 1) =~= rest);
        assert(inside.len() > base.len());
        assert(rest.len() > 0 ==> inside.len() > dir.len());
    }
}

/// A child's path is its parent's, one separator and its name.
pub proof fn children_are_named_in_their_parent(parent: Seq<char>, name: Seq<char>, sep: char)
    ensures
        parent.len() > 0 && parent.last() != sep ==> child_path(parent, name, sep) == parent
            + seq![sep] + name,
        child_path(parent.push(sep), name, sep) == parent + seq![sep] + name,
        child_path(seq![], name, sep) == name,
{
    assert(parent.push(sep) + name =~= parent + seq![sep] + name);
}

/// Which found paths may be roots: directories with a parent whose path takes no more than 3584
/// bytes.
pub proof fn roots_are_directories_with_room(found: FoundRoot)
    ensures
        is_root(found) <==> found.is_dir && found.has_parent && encode_utf8(
            found.canonical@,
        ).len() <= 3584,
{
}

/// An accepted root is the path that was found, as it is for the engine, as it is displayed, by
/// its identity, and whether it is on a share.
pub proof fn roots_are_what_was_found(root: CanonicalRoot, found: FoundRoot)
    requires
        root.describes(found),
    ensures
        root.canonical@ == found.canonical@,
        root.display@ == presented(found.canonical@),
        root.is_network == is_network(found.canonical@),
        found.file_id is None ==> root.identity@ == "path:"@ + lowercase_text(found.canonical@),
        found.file_id matches Some(id) ==> root.identity@ == "fid:"@ + file_id_text(id),
{
}

/// How a root is refused: one that cannot be resolved or looked at, that is no directory or whose
/// path is too long as a bad path, and a filesystem or share root as forbidden. The first of these
/// that holds is the one that is said.
pub proof fn roots_are_refused_for_the_first_reason(
    path: Seq<char>,
    probe: RootProbe,
    e: ApiError,
)
    requires
        root_refused(path, probe, e),
    ensures
        probe matches RootProbe::Unresolved(why) ==> e.code() == "invalid-path"@ && e.message()
            == "cannot resolve root "@ + debug_text(path) + ": "@ + why@,
        probe matches RootProbe::Unreadable(why) ==> e.code() == "invalid-path"@ && e.message()
            == "cannot stat root "@ + debug_text(path) + ": "@ + why@,
        probe matches RootProbe::Found(found) ==> {
            let size = encode_utf8(found.canonical@).len();
            &&& !found.is_dir ==> e.code() == "invalid-path"@ && e.message()
                == "root is not a directory: "@ + debug_text(path)
            &&& found.is_dir && size > 3584 ==> e.code() == "invalid-path"@ && e.message()
                == "root path is "@ + decimal_text(size) + TOO_LONG@
            &&& found.is_dir && size <= 3584 ==> !found.has_parent && e.code()
                == "forbidden-root"@ && e.status_code() == 403
        },
{
}

/// What is said of a path that is too long names the size of the buffer and the limit that goes
/// with it: the limit and the headroom make up the buffer.
pub proof fn the_limit_that_is_told_is_the_limit()
    ensures
        TOO_LONG@ == " bytes; the engine's path buffer is 4096 bytes and needs headroom"@
            + " for paths beneath it (limit 3584)"@,
        MAX_PATH_BYTES == 4096,
        MAX_PATH_BYTES - RELATIVE_HEADROOM == 3584,
{
    reveal_strlit(
        " bytes; the engine's path buffer is 4096 bytes and needs headroom for paths beneath it (limit 3584)",
    );
    reveal_strlit(" bytes; the engine's path buffer is 4096 bytes and needs headroom");
    reveal_strlit(" for paths beneath it (limit 3584)");
    assert(TOO_LONG@ =~= " bytes; the engine's path buffer is 4096 bytes and needs headroom"@
        + " for paths beneath it (limit 3584)"@);
}

/// A root is accepted exactly where the request is not blank and the path that was found is a
/// directory with a parent whose path takes no more than 3584 bytes. Of two spellings of one
/// directory both are accepted, and to one identity where the filesystem supplies a file ID.
pub proof fn roots_are_accepted_by_what_was_found(
    input: &str,
    found: FoundRoot,
    r: Result<CanonicalRoot, ApiError>,
)
    requires
        call_ensures(canonicalize_root, (input, &RootProbe::Found(found)), r),
    ensures
        r is Ok <==> trimmed(input@).len() > 0 && found.is_dir && found.has_parent && encode_utf8(
            found.canonical@,
        ).len() <= 3584,
        r matches Ok(root) ==> root.canonical@ == found.canonical@ && root.display@ == presented(
            found.canonical@,
        ),
        trimmed(input@).len() == 0 ==> (r matches Err(e) && e.status_code() == 400 && e.message()
            == "root must not be empty"@),
{
}

} // verus!
