//! Base64 with the URL-safe alphabet and no padding, as cursors are written in it.

use crate::text::chars_of;
use vstd::prelude::*;

verus! {

/// The character of a six-bit value.
pub open spec fn b64_char(v: int) -> char {
    if v < 26 {
        ((65 + v) as u8) as char
    } else if v < 52 {
        ((97 + v - 26) as u8) as char
    } else if v < 62 {
        ((48 + v - 52) as u8) as char
    } else if v == 62 {
        '-'
    } else {
        '_'
    }
}

/// The six-bit value of a character of the alphabet.
pub open spec fn b64_value(c: char) -> Option<int> {
    if 'A' <= c <= 'Z' {
        Some(c as int - 65)
    } else if 'a' <= c <= 'z' {
        Some(c as int - 97 + 26)
    } else if '0' <= c <= '9' {
        Some(c as int - 48 + 52)
    } else if c == '-' {
        Some(62)
    } else if c == '_' {
        Some(63)
    } else {
        None
    }
}

/// Three bytes as one number, the first highest; bytes that are missing count as zero.
pub open spec fn triple(b: Seq<u8>) -> int {
    b[0] * 65536 + (if b.len() > 1 {
        b[1] * 256
    } else {
        0
    }) + (if b.len() > 2 {
        b[2] as int
    } else {
        0
    })
}

/// `input` in base64: each three bytes become four characters, and one or two bytes at the end
/// become two or three.
pub open spec fn b64_text(input: Seq<u8>) -> Seq<char>
    decreases input.len(),
{
    if input.len() == 0 {
        seq![]
    } else {
        let n = triple(input);
        let a = b64_char(n / 262144);
        let b = b64_char(n / 4096 % 64);
        let c = b64_char(n / 64 % 64);
        let d = b64_char(n % 64);
        if input.len() == 1 {
            seq![a, b]
        } else if input.len() == 2 {
            seq![a, b, c]
        } else {
            seq![a, b, c, d] + b64_text(input.skip(3))
        }
    }
}

/// Four six-bit values as one number, the first highest; values that are missing count as zero.
pub open spec fn quad(v: Seq<int>) -> int {
    v[0] * 262144 + (if v.len() > 1 {
        v[1] * 4096
    } else {
        0
    }) + (if v.len() > 2 {
        v[2] * 64
    } else {
        0
    }) + (if v.len() > 3 {
        v[3]
    } else {
        0
    })
}

/// The bytes that six-bit values stand for: each four become three bytes, three at the end become
/// two, and one or two at the end become one.
pub open spec fn b64_bytes(values: Seq<int>) -> Seq<u8>
    decreases values.len(),
{
    if values.len() == 0 {
        seq![]
    } else {
        let n = quad(values);
        let a = (n / 65536) as u8;
        let b = (n / 256 % 256) as u8;
        let c = (n % 256) as u8;
        if values.len() <= 2 {
            seq![a]
        } else if values.len() == 3 {
            seq![a, b]
        } else {
            seq![a, b, c] + b64_bytes(values.skip(4))
        }
    }
}

/// Whether every character is one of the alphabet.
pub open spec fn is_b64(s: Seq<char>) -> bool {
    forall|i: int| 0 <= i < s.len() ==> b64_value(#[trigger] s[i]) is Some
}

/// The six-bit values of the characters.
pub open spec fn b64_values(s: Seq<char>) -> Seq<int> {
    s.map_values(|c: char| b64_value(c)->0)
}

/// What a text decodes to, where every character is one of the alphabet.
pub open spec fn b64_decoded(s: Seq<char>) -> Option<Seq<u8>> {
    if is_b64(s) {
        Some(b64_bytes(b64_values(s)))
    } else {
        None
    }
}

/// The character of a six-bit value.
fn digit(v: u32) -> (c: char)
    requires
        v < 64,
    ensures
        c == b64_char(v as int),
{
    if v < 26 {
        (65 + v as u8) as char
    } else if v < 52 {
        (97 + (v as u8 - 26)) as char
    } else if v < 62 {
        (48 + (v as u8 - 52)) as char
    } else if v == 62 {
        '-'
    } else {
        '_'
    }
}

/// The six-bit value of a character.
fn value(c: char) -> (r: Option<u32>)
    ensures
        match r {
            Some(v) => v < 64 && b64_value(c) == Some(v as int),
            None => b64_value(c) is None,
        },
{
    if 'A' <= c && c <= 'Z' {
        Some(c as u32 - 65)
    } else if 'a' <= c && c <= 'z' {
        Some(c as u32 - 97 + 26)
    } else if '0' <= c && c <= '9' {
        Some(c as u32 - 48 + 52)
    } else if c == '-' {
        Some(62)
    } else if c == '_' {
        Some(63)
    } else {
        None
    }
}

/// Encodes bytes.
pub fn base64_encode(input: &[u8]) -> (r: String)
    ensures
        r@ == b64_text(input@),
{
    let mut out = String::new();
    let mut i: usize = 0;
    assert(input@.skip(0) =~= input@);
    assert(out@ + b64_text(input@) =~= b64_text(input@));
    while i < input.len()
        invariant
            i <= input@.len(),
            out@ + b64_text(input@.skip(i as int)) == b64_text(input@),
        decreases input@.len() - i,
    {
        let ghost here = input@.skip(i as int);
        let ghost before = out@;
        let left: usize = input.len() - i;
        let second: u32 = if left > 1 {
            input[i + 1] as u32
        } else {
            0
        };
        let third: u32 = if left > 2 {
            input[i + 2] as u32
        } else {
            0
        };
        let n: u32 = input[i] as u32 * 65536 + second * 256 + third;
        assert(n == triple(here));
        out.push(digit(n / 262144));
        out.push(digit(n / 4096 % 64));
        if left > 1 {
            out.push(digit(n / 64 % 64));
        }
        if left > 2 {
            out.push(digit(n % 64));
            assert(here.skip(3) =~= input@.skip(i + 3));
            i += 3;
        } else {
            i = input.len();
        }
        assert(left <= 2 ==> input@.skip(i as int) =~= seq![]);
        assert(out@ + b64_text(input@.skip(i as int)) =~= before + b64_text(here));
    }
    assert(input@.skip(i as int) =~= seq![]);
    assert(out@ + b64_text(seq![]) =~= out@);
    out
}

/// Decodes a text, or refuses it where a character is not of the alphabet.
pub fn base64_decode(input: &str) -> (r: Option<Vec<u8>>)
    ensures
        match r {
            Some(bytes) => b64_decoded(input@) == Some(bytes@),
            None => b64_decoded(input@) is None,
        },
{
    let chars = chars_of(input);
    let mut bits: Vec<u32> = Vec::new();
    let mut k: usize = 0;
    while k < chars.len()
        invariant
            k <= chars@.len(),
            chars@ == input@,
            bits@.len() == k,
            forall|j: int|
                0 <= j < k ==> (#[trigger] bits@[j]) < 64 && b64_value(chars@[j]) == Some(
                    bits@[j] as int,
                ),
        decreases chars@.len() - k,
    {
        match value(chars[k]) {
            Some(v) => bits.push(v),
            None => {
                assert(b64_value(input@[k as int]) is None);
                return None;
            },
        }
        k += 1;
    }
    let ghost values = b64_values(input@);
    assert(is_b64(input@)) by {
        assert forall|j: int| 0 <= j < input@.len() implies b64_value(
            #[trigger] input@[j],
        ) is Some by {
            assert(bits@[j] < 64);
        }
    }
    let mut out: Vec<u8> = Vec::new();
    let mut i: usize = 0;
    assert(values.skip(0) =~= values);
    assert(out@ + b64_bytes(values) =~= b64_bytes(values));
    while i < bits.len()
        invariant
            i <= bits@.len(),
            bits@.len() == values.len(),
            forall|j: int|
                0 <= j < values.len() ==> (#[trigger] bits@[j]) < 64 && values[j] == bits@[j],
            out@ + b64_bytes(values.skip(i as int)) == b64_bytes(values),
        decreases bits@.len() - i,
    {
        let ghost here = values.skip(i as int);
        let ghost before = out@;
        let left: usize = bits.len() - i;
        assert(bits@[i as int] < 64);
        let second: u32 = if left > 1 {
            assert(bits@[i + 1] < 64);
            bits[i + 1]
        } else {
            0
        };
        let third: u32 = if left > 2 {
            assert(bits@[i + 2] < 64);
            bits[i + 2]
        } else {
            0
        };
        let fourth: u32 = if left > 3 {
            assert(bits@[i + 3] < 64);
            bits[i + 3]
        } else {
            0
        };
        let n: u32 = bits[i] * 262144 + second * 4096 + third * 64 + fourth;
        assert(n == quad(here));
        out.push((n / 65536) as u8);
        if left > 2 {
            out.push((n / 256 % 256) as u8);
        }
        if left > 3 {
            out.push((n % 256) as u8);
            assert(here.skip(4) =~= values.skip(i + 4));
            i += 4;
        } else {
            i = bits.len();
        }
        assert(left <= 3 ==> values.skip(i as int) =~= seq![]);
        assert(out@ + b64_bytes(values.skip(i as int)) =~= before + b64_bytes(here));
    }
    assert(values.skip(i as int) =~= seq![]);
    assert(out@ + b64_bytes(seq![]) =~= out@);
    Some(out)
}

/// A six-bit value survives being written as a character.
proof fn lemma_digit(v: int)
    requires
        0 <= v < 64,
    ensures
        b64_value(b64_char(v)) == Some(v),
{
}

/// A number of 24 bits is made of its four six-bit values.
proof fn lemma_six_bits(n: int)
    requires
        0 <= n < 0x100_0000,
    ensures
        0 <= n / 262144 < 64,
        0 <= n / 4096 % 64 < 64,
        0 <= n / 64 % 64 < 64,
        0 <= n % 64 < 64,
        n == n / 262144 * 262144 + n / 4096 % 64 * 4096 + n / 64 % 64 * 64 + n % 64,
{
    let q1 = n / 64;
    let q2 = q1 / 64;
    let q3 = q2 / 64;
    assert(n / 4096 == q2);
    assert(n / 262144 == q3);
}

/// A number of three bytes gives its bytes back; bytes of zero at its end leave no six-bit value
/// there.
proof fn lemma_three_bytes(x: int, y: int, z: int, n: int)
    requires
        0 <= x < 256,
        0 <= y < 256,
        0 <= z < 256,
        n == x * 65536 + y * 256 + z,
    ensures
        n / 65536 == x,
        n / 256 % 256 == y,
        n % 256 == z,
        z == 0 ==> n % 64 == 0,
        y == 0 && z == 0 ==> n / 64 % 64 == 0,
{
    assert(n / 256 == x * 256 + y);
    assert(y == 0 && z == 0 ==> n / 64 == x * 1024);
}

/// Decoding undoes encoding, for every sequence of bytes.
pub proof fn base64_round_trips(input: Seq<u8>)
    ensures
        b64_decoded(b64_text(input)) == Some(input),
    decreases input.len(),
{
    let s = b64_text(input);
    let values = b64_values(s);
    if input.len() == 0 {
        assert(values =~= seq![]);
        assert(b64_bytes(values) =~= input);
    } else {
        let n = triple(input);
        let a = n / 262144;
        let b = n / 4096 % 64;
        let c = n / 64 % 64;
        let d = n % 64;
        let y = if input.len() > 1 {
            input[1] as int
        } else {
            0
        };
        let z = if input.len() > 2 {
            input[2] as int
        } else {
            0
        };
        lemma_six_bits(n);
        lemma_three_bytes(input[0] as int, y, z, n);
        lemma_digit(a);
        lemma_digit(b);
        lemma_digit(c);
        lemma_digit(d);
        if input.len() == 1 {
            assert(values =~= seq![a, b]);
            assert(b64_bytes(values) =~= input);
        } else if input.len() == 2 {
            assert(values =~= seq![a, b, c]);
            assert(b64_bytes(values) =~= input);
        } else {
            let rest = input.skip(3);
            base64_round_trips(rest);
            let t = b64_text(rest);
            assert(s =~= seq![b64_char(a), b64_char(b), b64_char(c), b64_char(d)] + t);
            assert forall|i: int| 0 <= i < s.len() implies b64_value(#[trigger] s[i]) is Some by {
                if i >= 4 {
                    assert(s[i] == t[i - 4]);
                }
            }
            assert(values.skip(4) =~= b64_values(t));
            assert(values[0] == a && values[1] == b && values[2] == c && values[3] == d);
            assert(quad(values) == n);
            assert(b64_bytes(values) =~= seq![input[0], input[1], input[2]] + rest);
            assert(b64_bytes(values) =~= input);
        }
    }
}

/// The alphabet in order: the capital letters, the small ones, the digits, `-` and `_`. Every
/// character of it stands for its own place, and no other character stands for anything.
pub proof fn the_alphabet_is_the_url_safe_one(v: int, c: char)
    ensures
        0 <= v < 26 ==> b64_char(v) as int == 'A' as int + v,
        26 <= v < 52 ==> b64_char(v) as int == 'a' as int + (v - 26),
        52 <= v < 62 ==> b64_char(v) as int == '0' as int + (v - 52),
        b64_char(62) == '-',
        b64_char(63) == '_',
        0 <= v < 64 ==> b64_value(b64_char(v)) == Some(v),
        b64_value(c) matches Some(v) ==> 0 <= v < 64 && b64_char(v) == c,
        b64_value('+') is None,
        b64_value('/') is None,
        b64_value('=') is None,
{
}

/// The first three bytes become the first four characters, six bits at a time and the highest
/// first; what follows is encoded on its own.
pub proof fn bytes_are_encoded_in_order(input: Seq<u8>)
    requires
        input.len() >= 3,
    ensures
        ({
            let s = b64_text(input);
            &&& s[0] == b64_char(input[0] as int / 4)
            &&& s[1] == b64_char(input[0] as int % 4 * 16 + input[1] as int / 16)
            &&& s[2] == b64_char(input[1] as int % 16 * 4 + input[2] as int / 64)
            &&& s[3] == b64_char(input[2] as int % 64)
            &&& s.skip(4) == b64_text(input.skip(3))
        }),
{
    lemma_first_six(input[0] as int, input[1] as int, input[2] as int);
    lemma_second_six(input[0] as int, input[1] as int, input[2] as int);
    lemma_third_six(input[0] as int, input[1] as int, input[2] as int);
    lemma_fourth_six(input[0] as int, input[1] as int, input[2] as int);
    assert(b64_text(input).skip(4) =~= b64_text(input.skip(3)));
}

/// One or two bytes at the end become two or three characters, the missing bits zero, and there is
/// no padding.
pub proof fn the_last_bytes_are_not_padded(input: Seq<u8>)
    ensures
        input.len() == 0 ==> b64_text(input).len() == 0,
        input.len() == 1 ==> b64_text(input) == seq![
            b64_char(input[0] as int / 4),
            b64_char(input[0] as int % 4 * 16),
        ],
        input.len() == 2 ==> b64_text(input) == seq![
            b64_char(input[0] as int / 4),
            b64_char(input[0] as int % 4 * 16 + input[1] as int / 16),
            b64_char(input[1] as int % 16 * 4),
        ],
{
    if input.len() == 1 || input.len() == 2 {
        let y = if input.len() > 1 {
            input[1] as int
        } else {
            0
        };
        lemma_first_six(input[0] as int, y, 0);
        lemma_second_six(input[0] as int, y, 0);
        lemma_third_six(input[0] as int, y, 0);
    }
}

/// The highest six bits of three bytes.
proof fn lemma_first_six(x: int, y: int, z: int)
    requires
        0 <= x < 256,
        0 <= y < 256,
        0 <= z < 256,
    ensures
        (x * 65536 + y * 256 + z) / 262144 == x / 4,
{
    let q = x / 4;
    let r = x % 4;
    assert(x * 65536 + y * 256 + z == q * 262144 + (r * 65536 + y * 256 + z));
}

/// The next six bits of three bytes.
proof fn lemma_second_six(x: int, y: int, z: int)
    requires
        0 <= x < 256,
        0 <= y < 256,
        0 <= z < 256,
    ensures
        (x * 65536 + y * 256 + z) / 4096 % 64 == x % 4 * 16 + y / 16,
{
    let n = x * 65536 + y * 256 + z;
    let h = x * 16 + y / 16;
    assert(n == h * 4096 + (y % 16 * 256 + z));
    assert(n / 4096 == h);
    assert(h == x / 4 * 64 + (x % 4 * 16 + y / 16));
}

/// The six bits after those.
proof fn lemma_third_six(x: int, y: int, z: int)
    requires
        0 <= x < 256,
        0 <= y < 256,
        0 <= z < 256,
    ensures
        (x * 65536 + y * 256 + z) / 64 % 64 == y % 16 * 4 + z / 64,
{
    let n = x * 65536 + y * 256 + z;
    let h = x * 1024 + y * 4 + z / 64;
    assert(n == h * 64 + z % 64);
    assert(n / 64 == h);
    assert(h == (x * 16 + y / 16) * 64 + (y % 16 * 4 + z / 64));
}

/// The lowest six bits of three bytes.
proof fn lemma_fourth_six(x: int, y: int, z: int)
    requires
        0 <= x < 256,
        0 <= y < 256,
        0 <= z < 256,
    ensures
        (x * 65536 + y * 256 + z) % 64 == z % 64,
{
    assert(x * 65536 + y * 256 + z == (x * 1024 + y * 4 + z / 64) * 64 + z % 64);
}

/// A text decodes exactly where every character of it is one of the alphabet.
pub proof fn only_the_alphabet_decodes(s: Seq<char>)
    ensures
        b64_decoded(s) is Some <==> forall|i: int|
            0 <= i < s.len() ==> ('A' <= #[trigger] s[i] <= 'Z' || 'a' <= s[i] <= 'z' || '0' <= s[i]
                <= '9' || s[i] == '-' || s[i] == '_'),
{
    if forall|i: int|
        0 <= i < s.len() ==> ('A' <= #[trigger] s[i] <= 'Z' || 'a' <= s[i] <= 'z' || '0' <= s[i]
            <= '9' || s[i] == '-' || s[i] == '_') {
        assert(is_b64(s));
    } else {
        let i = choose|i: int|
            0 <= i < s.len() && !('A' <= #[trigger] s[i] <= 'Z' || 'a' <= s[i] <= 'z' || '0'
                <= s[i] <= '9' || s[i] == '-' || s[i] == '_');
        assert(b64_value(s[i]) is None);
    }
}

/// The first four characters become the first three bytes, six bits at a time and the highest
/// first, and what follows is decoded on its own. Fewer characters than four, at the end, give the
/// bytes that they fill or, where there is one alone, the one that it begins.
pub proof fn characters_are_decoded_in_order(s: Seq<char>)
    requires
        b64_decoded(s) is Some,
    ensures
        ({
            let bytes = b64_decoded(s)->0;
            let a = b64_value(s[0])->0;
            let b = b64_value(s[1])->0;
            let c = b64_value(s[2])->0;
            let d = b64_value(s[3])->0;
            &&& s.len() == 0 ==> bytes.len() == 0
            &&& s.len() == 1 ==> bytes.len() == 1 && bytes[0] == a * 4
            &&& s.len() == 2 ==> bytes.len() == 1 && bytes[0] == a * 4 + b / 16
            &&& s.len() == 3 ==> bytes.len() == 2 && bytes[0] == a * 4 + b / 16 && bytes[1] == b
                % 16 * 16 + c / 4
            &&& s.len() >= 4 ==> {
                &&& bytes[0] == a * 4 + b / 16
                &&& bytes[1] == b % 16 * 16 + c / 4
                &&& bytes[2] == c % 4 * 64 + d
                &&& b64_decoded(s.skip(4)) == Some(bytes.skip(3))
            }
        }),
{
    let values = b64_values(s);
    if s.len() >= 1 {
        assert(b64_value(s[0]) is Some);
        assert(s.len() >= 2 ==> b64_value(s[1]) is Some);
        assert(s.len() >= 3 ==> b64_value(s[2]) is Some);
        assert(s.len() >= 4 ==> b64_value(s[3]) is Some);
        let a = b64_value(s[0])->0;
        let b = if s.len() >= 2 {
            b64_value(s[1])->0
        } else {
            0
        };
        let c = if s.len() >= 3 {
            b64_value(s[2])->0
        } else {
            0
        };
        let d = if s.len() >= 4 {
            b64_value(s[3])->0
        } else {
            0
        };
        assert(quad(values) == a * 262144 + b * 4096 + c * 64 + d);
        lemma_first_byte(a, b, c, d);
        lemma_second_byte(a, b, c, d);
        lemma_third_byte(a, b, c, d);
    }
    if s.len() >= 4 {
        let t = s.skip(4);
        assert forall|i: int| 0 <= i < t.len() implies b64_value(#[trigger] t[i]) is Some by {
            assert(t[i] == s[i + 4]);
        }
        assert(values.skip(4) =~= b64_values(t));
        assert(b64_bytes(values).skip(3) =~= b64_bytes(b64_values(t)));
    }
}

/// The highest eight bits of four six-bit values.
proof fn lemma_first_byte(a: int, b: int, c: int, d: int)
    requires
        0 <= a < 64,
        0 <= b < 64,
        0 <= c < 64,
        0 <= d < 64,
    ensures
        (a * 262144 + b * 4096 + c * 64 + d) / 65536 == a * 4 + b / 16,
        0 <= a * 4 + b / 16 < 256,
{
    let h = a * 4 + b / 16;
    assert(a * 262144 + b * 4096 + c * 64 + d == h * 65536 + (b % 16 * 4096 + c * 64 + d));
}

/// The next eight bits.
proof fn lemma_second_byte(a: int, b: int, c: int, d: int)
    requires
        0 <= a < 64,
        0 <= b < 64,
        0 <= c < 64,
        0 <= d < 64,
    ensures
        (a * 262144 + b * 4096 + c * 64 + d) / 256 % 256 == b % 16 * 16 + c / 4,
        0 <= b % 16 * 16 + c / 4 < 256,
{
    let n = a * 262144 + b * 4096 + c * 64 + d;
    let h = a * 1024 + b * 16 + c / 4;
    assert(n == h * 256 + (c % 4 * 64 + d));
    assert(n / 256 == h);
    assert(h == (a * 4 + b / 16) * 256 + (b % 16 * 16 + c / 4));
}

/// The lowest eight bits.
proof fn lemma_third_byte(a: int, b: int, c: int, d: int)
    requires
        0 <= a < 64,
        0 <= b < 64,
        0 <= c < 64,
        0 <= d < 64,
    ensures
        (a * 262144 + b * 4096 + c * 64 + d) % 256 == c % 4 * 64 + d,
        0 <= c % 4 * 64 + d < 256,
{
    assert(a * 262144 + b * 4096 + c * 64 + d == (a * 1024 + b * 16 + c / 4) * 256 + (c % 4 * 64
        + d));
}

} // verus!
