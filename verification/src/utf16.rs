//! UTF-8 byte offsets as UTF-16 code-unit offsets.

use crate::text::chars_of;
use vstd::prelude::*;
use vstd::utf8::{encode_scalar, encode_utf8};

verus! {

/// The UTF-16 code units of one character: itself, or a surrogate pair.
pub open spec fn utf16_units(c: char) -> Seq<u16> {
    let v = c as u32;
    if v < 0x1_0000 {
        seq![v as u16]
    } else {
        seq![
            (0xd800 + (v - 0x1_0000) / 0x400) as u16,
            (0xdc00 + (v - 0x1_0000) % 0x400) as u16,
        ]
    }
}

/// A text in UTF-16.
pub open spec fn encode_utf16(s: Seq<char>) -> Seq<u16>
    decreases s.len(),
{
    if s.len() == 0 {
        seq![]
    } else {
        utf16_units(s[0]) + encode_utf16(s.skip(1))
    }
}

/// How many UTF-8 bytes a character takes.
pub open spec fn utf8_width(c: char) -> nat {
    encode_scalar(c as u32).len()
}

/// How many of the leading characters of `s` lie wholly within its first `bytes` UTF-8 bytes.
pub open spec fn chars_within(s: Seq<char>, bytes: nat) -> nat
    decreases s.len(),
{
    if s.len() == 0 || utf8_width(s[0]) > bytes {
        0
    } else {
        1 + chars_within(s.skip(1), (bytes - utf8_width(s[0])) as nat)
    }
}

/// The UTF-16 length of the characters that lie wholly within the first `bytes` UTF-8 bytes.
pub open spec fn utf16_offset(s: Seq<char>, bytes: nat) -> nat {
    encode_utf16(s.take(chars_within(s, bytes) as int)).len()
}

/// A character takes one to four bytes in UTF-8 and one or two units in UTF-16, never more units
/// than bytes.
proof fn lemma_widths(c: char)
    ensures
        1 <= utf8_width(c) <= 4,
        1 <= utf16_units(c).len() <= 2,
        utf16_units(c).len() <= utf8_width(c),
        utf8_width(c) == if (c as u32) < 0x80 {
            1nat
        } else if (c as u32) < 0x800 {
            2
        } else if (c as u32) < 0x1_0000 {
            3
        } else {
            4
        },
{
    vstd::utf8::char_is_scalar(c);
}

proof fn lemma_chars_within(s: Seq<char>, bytes: nat)
    ensures
        chars_within(s, bytes) <= s.len(),
        utf16_offset(s, bytes) <= bytes,
    decreases s.len(),
{
    if s.len() > 0 && utf8_width(s[0]) <= bytes {
        lemma_widths(s[0]);
        let t = s.skip(1);
        let rest = (bytes - utf8_width(s[0])) as nat;
        lemma_chars_within(t, rest);
        let n = chars_within(s, bytes) as int;
        assert(s.take(n)[0] == s[0]);
        assert(s.take(n).skip(1) =~= t.take(n - 1));
    }
}

/// UTF-16 length of the first `byte` bytes of `text`, tolerating an offset that is out of range
/// or lands inside a character, which is left out.
pub fn utf16_prefix_len(text: &str, byte: usize) -> (r: u32)
    ensures
        utf16_offset(text@, byte as nat) <= byte,
        r == utf16_offset(text@, byte as nat) as u32,
{
    let chars = chars_of(text);
    let mut left: usize = byte;
    let mut units: usize = 0;
    let mut i: usize = 0;
    proof {
        lemma_chars_within(text@, byte as nat);
        assert(chars@.skip(0) =~= chars@);
    }
    while i < chars.len()
        invariant
            i <= chars@.len(),
            chars@ == text@,
            utf16_offset(text@, byte as nat) <= byte,
            units + utf16_offset(chars@.skip(i as int), left as nat) == utf16_offset(
                text@,
                byte as nat,
            ),
        ensures
            units == utf16_offset(text@, byte as nat),
        decreases chars@.len() - i,
    {
        let v: u32 = chars[i] as u32;
        let ghost here = chars@.skip(i as int);
        proof {
            lemma_widths(here[0]);
            assert(here.skip(1) =~= chars@.skip(i + 1));
        }
        let width: usize = if v < 0x80 {
            1
        } else if v < 0x800 {
            2
        } else if v < 0x1_0000 {
            3
        } else {
            4
        };
        if width > left {
            assert(here.take(0) =~= seq![]);
            break;
        }
        proof {
            let n = chars_within(here, left as nat) as int;
            lemma_chars_within(here, left as nat);
            lemma_chars_within(here.skip(1), (left - width) as nat);
            assert(here.take(n).skip(1) =~= here.skip(1).take(n - 1));
            assert(here.take(n)[0] == here[0]);
        }
        left -= width;
        units += if v < 0x1_0000 {
            1
        } else {
            2
        };
        i += 1;
    }
    units as u32
}

/// A range of a line in UTF-16 code units, half-open.
#[derive(Debug, Clone, Copy, PartialEq, Eq, Structural)]
pub struct Utf16Range {
    pub start: u32,
    pub end: u32,
}

/// A byte range of `text` as a range of UTF-16 code units.
pub open spec fn utf16_range(text: Seq<char>, bytes: (u32, u32)) -> Utf16Range {
    Utf16Range {
        start: utf16_offset(text, bytes.0 as nat) as u32,
        end: utf16_offset(text, bytes.1 as nat) as u32,
    }
}

/// Byte ranges of `text` as ranges of UTF-16 code units.
pub open spec fn utf16_range_seq(text: Seq<char>, bytes: Seq<(u32, u32)>) -> Seq<Utf16Range> {
    bytes.map_values(|b: (u32, u32)| utf16_range(text, b))
}

/// Converts UTF-8 byte ranges into UTF-16 code-unit ranges against `text`. No offset is cut short
/// by the width of a `u32`.
pub fn utf16_ranges(text: &str, byte_ranges: &[(u32, u32)]) -> (r: Vec<Utf16Range>)
    ensures
        r@ == utf16_range_seq(text@, byte_ranges@),
        forall|i: int|
            0 <= i < r@.len() ==> (#[trigger] r@[i]).start == utf16_offset(
                text@,
                byte_ranges@[i].0 as nat,
            ) && r@[i].end == utf16_offset(text@, byte_ranges@[i].1 as nat),
{
    let mut out: Vec<Utf16Range> = Vec::new();
    let mut i: usize = 0;
    while i < byte_ranges.len()
        invariant
            i <= byte_ranges@.len(),
            out@ == utf16_range_seq(text@, byte_ranges@.take(i as int)),
        decreases byte_ranges@.len() - i,
    {
        let (start, end): (u32, u32) = byte_ranges[i];
        let range = Utf16Range {
            start: utf16_prefix_len(text, start as usize),
            end: utf16_prefix_len(text, end as usize),
        };
        out.push(range);
        i += 1;
        assert(out@ =~= utf16_range_seq(text@, byte_ranges@.take(i as int)));
    }
    proof {
        assert(byte_ranges@.take(i as int) =~= byte_ranges@);
        assert forall|k: int| 0 <= k < out@.len() implies (#[trigger] out@[k]).start
            == utf16_offset(text@, byte_ranges@[k].0 as nat) && out@[k].end == utf16_offset(
            text@,
            byte_ranges@[k].1 as nat,
        ) by {
            lemma_chars_within(text@, byte_ranges@[k].0 as nat);
            lemma_chars_within(text@, byte_ranges@[k].1 as nat);
        }
    }
    out
}

/// The UTF-8 encoding of a text is that of its parts.
proof fn lemma_utf8_split(s: Seq<char>, i: int)
    requires
        0 <= i <= s.len(),
    ensures
        encode_utf8(s) == encode_utf8(s.take(i)) + encode_utf8(s.skip(i)),
    decreases i,
{
    if i == 0 {
        assert(s.take(0) =~= seq![]);
        assert(s.skip(0) =~= s);
        assert(encode_utf8(seq![]) =~= seq![]);
        assert(encode_utf8(s) =~= encode_utf8(s.take(0)) + encode_utf8(s.skip(0)));
    } else {
        let t = s.drop_first();
        lemma_utf8_split(t, i - 1);
        assert(s.take(i).drop_first() =~= t.take(i - 1));
        assert(t.skip(i - 1) =~= s.skip(i));
        assert(s.take(i)[0] == s[0]);
        assert(encode_utf8(s) =~= encode_utf8(s.take(i)) + encode_utf8(s.skip(i)));
    }
}

/// The UTF-16 encoding of a text is that of its parts.
proof fn lemma_utf16_split(s: Seq<char>, i: int)
    requires
        0 <= i <= s.len(),
    ensures
        encode_utf16(s) == encode_utf16(s.take(i)) + encode_utf16(s.skip(i)),
    decreases i,
{
    if i == 0 {
        assert(s.take(0) =~= seq![]);
        assert(s.skip(0) =~= s);
        assert(encode_utf16(seq![]) =~= seq![]);
        assert(encode_utf16(s) =~= encode_utf16(s.take(0)) + encode_utf16(s.skip(0)));
    } else {
        let t = s.skip(1);
        lemma_utf16_split(t, i - 1);
        assert(s.take(i).skip(1) =~= t.take(i - 1));
        assert(t.skip(i - 1) =~= s.skip(i));
        assert(s.take(i)[0] == s[0]);
        assert(encode_utf16(s) =~= encode_utf16(s.take(i)) + encode_utf16(s.skip(i)));
    }
}

/// An offset at or past the end of character `i`, and short of the end of the next, takes in
/// exactly `i` characters. So an offset inside a character rounds down, and one past the end of
/// the text stands for the end of the text.
pub proof fn offsets_round_down(s: Seq<char>, i: int, bytes: nat)
    requires
        0 <= i <= s.len(),
        encode_utf8(s.take(i)).len() <= bytes,
        i < s.len() ==> bytes < encode_utf8(s.take(i + 1)).len(),
    ensures
        chars_within(s, bytes) == i,
        utf16_offset(s, bytes) == encode_utf16(s.take(i)).len(),
    decreases i,
{
    if i == 0 {
        if s.len() > 0 {
            assert(s.take(1).drop_first() =~= seq![]);
            assert(encode_utf8(seq![]) =~= seq![]);
        }
    } else {
        let t = s.skip(1);
        lemma_widths(s[0]);
        assert(s.take(i).drop_first() =~= t.take(i - 1));
        assert(s.take(i)[0] == s[0]);
        if i < s.len() {
            assert(s.take(i + 1).drop_first() =~= t.take(i));
            assert(s.take(i + 1)[0] == s[0]);
        }
        offsets_round_down(t, i - 1, (bytes - utf8_width(s[0])) as nat);
    }
}

/// A converted range selects, in UTF-16, the very text that the byte range selects in UTF-8.
pub proof fn ranges_select_the_same_text(s: Seq<char>, i: int, j: int)
    requires
        0 <= i <= j <= s.len(),
    ensures
        ({
            let start = encode_utf8(s.take(i)).len();
            let end = encode_utf8(s.take(j)).len();
            &&& start <= end <= encode_utf8(s).len()
            &&& encode_utf8(s).subrange(start as int, end as int) == encode_utf8(s.subrange(i, j))
            &&& utf16_offset(s, start) <= utf16_offset(s, end) <= encode_utf16(s).len()
            &&& encode_utf16(s).subrange(
                utf16_offset(s, start) as int,
                utf16_offset(s, end) as int,
            ) == encode_utf16(s.subrange(i, j))
        }),
{
    let start = encode_utf8(s.take(i)).len();
    let end = encode_utf8(s.take(j)).len();
    lemma_char_ends(s, i);
    lemma_char_ends(s, j);
    offsets_round_down(s, i, start);
    offsets_round_down(s, j, end);
    lemma_utf8_split(s, j);
    lemma_utf8_split(s.take(j), i);
    lemma_utf16_split(s, j);
    lemma_utf16_split(s.take(j), i);
    assert(s.take(j).take(i) =~= s.take(i));
    assert(s.take(j).skip(i) =~= s.subrange(i, j));
    assert(encode_utf8(s).subrange(start as int, end as int) =~= encode_utf8(s.subrange(i, j)));
    assert(encode_utf16(s).subrange(
        utf16_offset(s, start) as int,
        utf16_offset(s, end) as int,
    ) =~= encode_utf16(s.subrange(i, j)));
}

/// The next character ends further on.
proof fn lemma_char_ends(s: Seq<char>, i: int)
    requires
        0 <= i <= s.len(),
    ensures
        i < s.len() ==> encode_utf8(s.take(i)).len() < encode_utf8(s.take(i + 1)).len(),
{
    if i < s.len() {
        lemma_utf8_split(s.take(i + 1), i);
        assert(s.take(i + 1).take(i) =~= s.take(i));
        assert(s.take(i + 1).skip(i) =~= seq![s[i]]);
        assert(seq![s[i]].drop_first() =~= seq![]);
        lemma_widths(s[i]);
        assert(encode_utf8(seq![s[i]]).len() == utf8_width(s[i]) + encode_utf8(seq![]).len());
    }
}

/// On ASCII text a byte offset and a UTF-16 offset are the same number.
pub proof fn ascii_offsets_are_unchanged(s: Seq<char>, bytes: nat)
    requires
        forall|i: int| 0 <= i < s.len() ==> (#[trigger] s[i] as u32) < 0x80,
        bytes <= s.len(),
    ensures
        utf16_offset(s, bytes) == bytes,
    decreases s.len(),
{
    if s.len() > 0 && bytes > 0 {
        lemma_widths(s[0]);
        let t = s.skip(1);
        ascii_offsets_are_unchanged(t, (bytes - 1) as nat);
        let n = chars_within(s, bytes) as int;
        lemma_chars_within(s, bytes);
        assert(s.take(n)[0] == s[0]);
        assert(s.take(n).skip(1) =~= t.take(n - 1));
    } else if s.len() > 0 {
        lemma_widths(s[0]);
    }
}

/// A range that is in order stays in order.
pub proof fn offsets_keep_their_order(s: Seq<char>, a: nat, b: nat)
    requires
        a <= b,
    ensures
        utf16_offset(s, a) <= utf16_offset(s, b) <= encode_utf16(s).len(),
    decreases s.len(),
{
    lemma_chars_within(s, a);
    lemma_chars_within(s, b);
    lemma_utf16_split(s, chars_within(s, b) as int);
    if s.len() > 0 && utf8_width(s[0]) <= a {
        let t = s.skip(1);
        let w = utf8_width(s[0]);
        offsets_keep_their_order(t, (a - w) as nat, (b - w) as nat);
        lemma_chars_within(t, (a - w) as nat);
        lemma_chars_within(t, (b - w) as nat);
        let m = chars_within(s, a) as int;
        let n = chars_within(s, b) as int;
        assert(s.take(m).skip(1) =~= t.take(m - 1));
        assert(s.take(n).skip(1) =~= t.take(n - 1));
        assert(s.take(m)[0] == s[0]);
        assert(s.take(n)[0] == s[0]);
    } else {
        assert(s.take(0) =~= seq![]);
    }
}

/// A UTF-16 offset is never larger than the byte offset it stands for, so it fits wherever that
/// does.
pub proof fn offsets_never_grow(s: Seq<char>, bytes: nat)
    ensures
        utf16_offset(s, bytes) <= bytes,
{
    lemma_chars_within(s, bytes);
}

/// A character is one unit with its own number or, beyond the first 65536, a high and a low
/// surrogate that hold what is left of the number, ten bits each.
pub proof fn units_stand_for_their_character(c: char)
    ensures
        (c as u32) < 0x1_0000 ==> utf16_units(c).len() == 1 && utf16_units(c)[0] == c as u32,
        (c as u32) >= 0x1_0000 ==> {
            let u = utf16_units(c);
            &&& u.len() == 2
            &&& 0xd800 <= u[0] < 0xdc00
            &&& 0xdc00 <= u[1] < 0xe000
            &&& 0x1_0000 + (u[0] - 0xd800) * 0x400 + (u[1] - 0xdc00) == c as u32
        },
{
}

/// A text in UTF-16 is that of its parts, one after the other.
pub proof fn texts_are_encoded_part_by_part(a: Seq<char>, b: Seq<char>)
    ensures
        encode_utf16(a + b) == encode_utf16(a) + encode_utf16(b),
        a.len() == 1 ==> encode_utf16(a) == utf16_units(a[0]),
{
    lemma_utf16_split(a + b, a.len() as int);
    assert((a + b).take(a.len() as int) =~= a);
    assert((a + b).skip(a.len() as int) =~= b);
    if a.len() == 1 {
        assert(a.skip(1) =~= seq![]);
        assert(encode_utf16(a.skip(1)) =~= seq![]);
        assert(encode_utf16(a) =~= utf16_units(a[0]));
    }
}

/// A range is converted end by end: its start from the start, its end from the end, and a list of
/// ranges one by one and in order.
pub proof fn ranges_are_converted_end_by_end(text: Seq<char>, bytes: Seq<(u32, u32)>, k: int)
    requires
        0 <= k < bytes.len(),
    ensures
        utf16_range_seq(text, bytes).len() == bytes.len(),
        utf16_range_seq(text, bytes)[k].start == utf16_offset(text, bytes[k].0 as nat),
        utf16_range_seq(text, bytes)[k].end == utf16_offset(text, bytes[k].1 as nat),
{
    offsets_never_grow(text, bytes[k].0 as nat);
    offsets_never_grow(text, bytes[k].1 as nat);
}

} // verus!
