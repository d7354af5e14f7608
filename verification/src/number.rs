//! Numbers as text: decimal and hexadecimal digits, and reading a decimal number back.

use vstd::prelude::*;

verus! {

/// The character of one decimal digit.
pub open spec fn decimal_digit(d: nat) -> char {
    ((48 + d) as u8) as char
}

/// `n` in decimal, without leading zeros.
pub open spec fn decimal_text(n: nat) -> Seq<char>
    decreases n,
{
    if n < 10 {
        seq![decimal_digit(n)]
    } else {
        decimal_text(n / 10).push(decimal_digit(n % 10))
    }
}

/// The character of one lower-case hexadecimal digit.
pub open spec fn hex_digit(d: nat) -> char {
    if d < 10 {
        ((48 + d) as u8) as char
    } else {
        ((87 + d) as u8) as char
    }
}

/// `n` in lower-case hexadecimal, without leading zeros.
pub open spec fn hex_text(n: nat) -> Seq<char>
    decreases n,
{
    if n < 16 {
        seq![hex_digit(n)]
    } else {
        hex_text(n / 16).push(hex_digit(n % 16))
    }
}

/// The last `width` lower-case hexadecimal digits of `n`, leading zeros kept.
pub open spec fn hex_padded(n: nat, width: nat) -> Seq<char>
    decreases width,
{
    if width == 0 {
        seq![]
    } else {
        hex_padded(n / 16, (width - 1) as nat).push(hex_digit(n % 16))
    }
}

/// Whether `b` is the byte of a decimal digit.
pub open spec fn is_digit(b: u8) -> bool {
    48 <= b <= 57
}

/// The number that a run of digit bytes stands for.
pub open spec fn digits_value(s: Seq<u8>) -> nat
    decreases s.len(),
{
    if s.len() == 0 {
        0
    } else {
        digits_value(s.drop_last()) * 10 + (s.last() - 48) as nat
    }
}

/// `s` without one leading `+`.
pub open spec fn unsigned_part(s: Seq<u8>) -> Seq<u8> {
    if s.len() > 0 && s[0] == 43 {
        s.skip(1)
    } else {
        s
    }
}

/// The offset that `s` spells: an optional `+`, then decimal digits and nothing else, with a
/// value that fits a `usize`.
pub open spec fn parsed_usize(s: Seq<u8>) -> Option<usize> {
    let digits = unsigned_part(s);
    if digits.len() > 0 && (forall|i: int| 0 <= i < digits.len() ==> is_digit(#[trigger] digits[i]))
        && digits_value(digits) <= usize::MAX {
        Some(digits_value(digits) as usize)
    } else {
        None
    }
}

/// Writes `n` in decimal.
pub fn decimal(n: u64) -> (r: String)
    ensures
        r@ == decimal_text(n as nat),
    decreases n,
{
    let mut out = if n < 10 {
        String::new()
    } else {
        decimal(n / 10)
    };
    let ghost before = out@;
    out.push((48 + (n % 10) as u8) as char);
    assert(n < 10 ==> before.push(decimal_digit(n as nat)) =~= seq![decimal_digit(n as nat)]);
    out
}

/// Writes one hexadecimal digit.
fn hex_char(d: u8) -> (c: char)
    requires
        d < 16,
    ensures
        c == hex_digit(d as nat),
{
    if d < 10 {
        (48 + d) as char
    } else {
        (87 + d) as char
    }
}

/// Writes `n` in lower-case hexadecimal.
pub fn hex(n: u128) -> (r: String)
    ensures
        r@ == hex_text(n as nat),
    decreases n,
{
    let mut out = if n < 16 {
        String::new()
    } else {
        hex(n / 16)
    };
    let ghost before = out@;
    out.push(hex_char((n % 16) as u8));
    assert(n < 16 ==> before.push(hex_digit(n as nat)) =~= seq![hex_digit(n as nat)]);
    out
}

/// Writes the last `width` hexadecimal digits of `n`.
pub fn hex_fixed(n: u64, width: usize) -> (r: String)
    ensures
        r@ == hex_padded(n as nat, width as nat),
    decreases width,
{
    if width == 0 {
        let r = String::new();
        assert(r@ =~= seq![]);
        return r;
    }
    let mut out = hex_fixed(n / 16, width - 1);
    out.push(hex_char((n % 16) as u8));
    out
}

/// A longer run of digits never stands for a smaller number.
proof fn lemma_prefix_value(s: Seq<u8>, n: int)
    requires
        0 <= n <= s.len(),
        forall|i: int| 0 <= i < s.len() ==> is_digit(#[trigger] s[i]),
    ensures
        digits_value(s.take(n)) <= digits_value(s),
    decreases s.len(),
{
    if n == s.len() {
        assert(s.take(n) =~= s);
    } else {
        let t = s.drop_last();
        lemma_prefix_value(t, n);
        assert(t.take(n) =~= s.take(n));
        assert(is_digit(s[s.len() - 1]));
    }
}

/// Reads a decimal `usize` as `str::parse` does: an optional `+`, at least one digit, nothing
/// else, no overflow.
pub fn parse_usize(s: &Vec<u8>) -> (r: Option<usize>)
    ensures
        r == parsed_usize(s@),
{
    let from: usize = if s.len() > 0 && s[0] == 43 {
        1
    } else {
        0
    };
    let ghost digits = unsigned_part(s@);
    assert(digits =~= s@.skip(from as int));
    if s.len() == from {
        return None;
    }
    let mut value: usize = 0;
    let mut i: usize = from;
    while i < s.len()
        invariant
            from <= i <= s@.len(),
            from < s@.len(),
            digits == s@.skip(from as int),
            digits == unsigned_part(s@),
            forall|k: int| 0 <= k < i - from ==> is_digit(#[trigger] digits[k]),
            value == digits_value(digits.take(i - from)),
        decreases s@.len() - i,
    {
        let b: u8 = s[i];
        let ghost k = i - from;
        assert(digits[k] == b);
        if b < 48 || b > 57 {
            return None;
        }
        assert(digits.take(k + 1).drop_last() =~= digits.take(k));
        let d: usize = (b - 48) as usize;
        assert(digits_value(digits.take(k + 1)) == value * 10 + d);
        if value > usize::MAX / 10 || value * 10 > usize::MAX - d {
            proof {
                if forall|j: int| 0 <= j < digits.len() ==> is_digit(#[trigger] digits[j]) {
                    lemma_prefix_value(digits, k + 1);
                }
            }
            return None;
        }
        value = value * 10 + d;
        i += 1;
    }
    assert(digits.take(digits.len() as int) =~= digits);
    Some(value)
}

/// The bytes of the decimal digits of `n`.
pub open spec fn decimal_bytes(n: nat) -> Seq<u8> {
    decimal_text(n).map_values(|c: char| c as u8)
}

/// Decimal text is made of digits, the first of which is not a sign, and stands for its number.
pub proof fn lemma_decimal_value(n: nat)
    ensures
        decimal_text(n).len() > 0,
        forall|i: int|
            0 <= i < decimal_text(n).len() ==> '0' <= #[trigger] decimal_text(n)[i] <= '9',
        forall|i: int|
            0 <= i < decimal_bytes(n).len() ==> is_digit(#[trigger] decimal_bytes(n)[i]),
        digits_value(decimal_bytes(n)) == n,
    decreases n,
{
    if n < 10 {
        assert(decimal_bytes(n) =~= seq![(48 + n) as u8]);
        assert(seq![(48 + n) as u8].drop_last() =~= seq![]);
        assert(digits_value(seq![]) == 0);
    } else {
        lemma_decimal_value(n / 10);
        let b = decimal_bytes(n);
        assert(b.drop_last() =~= decimal_bytes(n / 10));
        assert(b.last() == (48 + n % 10) as u8);
        assert forall|i: int| 0 <= i < b.len() implies is_digit(#[trigger] b[i]) by {
            if i < b.len() - 1 {
                assert(b[i] == decimal_bytes(n / 10)[i]);
            }
        }
        assert forall|i: int| 0 <= i < decimal_text(n).len() implies '0'
            <= #[trigger] decimal_text(n)[i] <= '9' by {
            if i < decimal_text(n).len() - 1 {
                assert(decimal_text(n)[i] == decimal_text(n / 10)[i]);
            }
        }
    }
}

/// Reading back a number that was written in decimal gives that number.
pub proof fn decimal_reads_back(n: usize)
    ensures
        parsed_usize(decimal_bytes(n as nat)) == Some(n),
{
    lemma_decimal_value(n as nat);
    assert(is_digit(decimal_bytes(n as nat)[0]));
}

/// Fixed-width hexadecimal text has the width asked for and holds only `0-9a-f`.
pub proof fn hex_padded_is_hex(n: nat, width: nat)
    ensures
        hex_padded(n, width).len() == width,
        forall|i: int|
            0 <= i < width ==> ('0' <= #[trigger] hex_padded(n, width)[i] <= '9' || 'a'
                <= hex_padded(n, width)[i] <= 'f'),
    decreases width,
{
    if width > 0 {
        hex_padded_is_hex(n / 16, (width - 1) as nat);
        let p = hex_padded(n / 16, (width - 1) as nat);
        assert forall|i: int| 0 <= i < width implies ('0' <= #[trigger] hex_padded(n, width)[i]
            <= '9' || 'a' <= hex_padded(n, width)[i] <= 'f') by {
            if i < width - 1 {
                assert(hex_padded(n, width)[i] == p[i]);
            }
        }
    }
}

/// Two numbers with the same fixed-width hexadecimal text agree in those digits.
pub proof fn hex_padded_is_injective(a: nat, b: nat, width: nat)
    requires
        a < vstd::arithmetic::power::pow(16, width),
        b < vstd::arithmetic::power::pow(16, width),
        hex_padded(a, width) == hex_padded(b, width),
    ensures
        a == b,
    decreases width,
{
    reveal(vstd::arithmetic::power::pow);
    if width > 0 {
        let w = (width - 1) as nat;
        let pa = hex_padded(a / 16, w);
        let pb = hex_padded(b / 16, w);
        hex_padded_is_hex(a / 16, w);
        hex_padded_is_hex(b / 16, w);
        assert(pa =~= hex_padded(a, width).drop_last());
        assert(pb =~= hex_padded(b, width).drop_last());
        assert(hex_padded(a, width).last() == hex_digit(a % 16));
        assert(hex_padded(b, width).last() == hex_digit(b % 16));
        assert(vstd::arithmetic::power::pow(16, width) == 16 * vstd::arithmetic::power::pow(16, w));
        hex_padded_is_injective(a / 16, b / 16, w);
    }
}

/// Hexadecimal text is never empty.
proof fn lemma_hex_text_len(n: nat)
    ensures
        hex_text(n).len() > 0,
    decreases n,
{
    if n >= 16 {
        lemma_hex_text_len(n / 16);
    }
}

/// Hexadecimal text holds only `0-9a-f`, and no two numbers share it.
pub proof fn hex_text_is_injective(a: nat, b: nat)
    ensures
        hex_text(a).len() > 0,
        forall|i: int|
            0 <= i < hex_text(a).len() ==> ('0' <= #[trigger] hex_text(a)[i] <= '9' || 'a'
                <= hex_text(a)[i] <= 'f'),
        hex_text(a) == hex_text(b) ==> a == b,
    decreases a,
{
    if a >= 16 {
        let p = hex_text(a / 16);
        hex_text_is_injective(a / 16, b / 16);
        assert forall|i: int| 0 <= i < hex_text(a).len() implies ('0' <= #[trigger] hex_text(a)[i]
            <= '9' || 'a' <= hex_text(a)[i] <= 'f') by {
            if i < p.len() {
                assert(hex_text(a)[i] == p[i]);
            }
        }
        if hex_text(a) == hex_text(b) {
            assert(hex_text(a).len() >= 2);
            assert(b >= 16);
            assert(p =~= hex_text(a).drop_last());
            assert(hex_text(b / 16) =~= hex_text(b).drop_last());
            assert(hex_text(a).last() == hex_digit(a % 16));
            assert(hex_text(b).last() == hex_digit(b % 16));
        }
    } else if hex_text(a) == hex_text(b) {
        if b >= 16 {
            lemma_hex_text_len(b / 16);
            assert(hex_text(b).len() >= 2);
        }
        assert(b < 16);
        assert(hex_text(a)[0] == hex_digit(a));
        assert(hex_text(b)[0] == hex_digit(b));
    }
}

/// A decimal number is the one without its last digit, followed by that digit.
pub proof fn decimal_digits_come_in_order(n: nat, d: nat)
    requires
        d < 10,
    ensures
        decimal_text(d) == seq![(('0' as u8) + d) as u8 as char],
        n > 0 ==> decimal_text(n * 10 + d) == decimal_text(n).push((('0' as u8) + d) as u8 as char),
{
    if n > 0 {
        assert((n * 10 + d) / 10 == n);
        assert((n * 10 + d) % 10 == d);
    }
}

/// A hexadecimal number is the one without its last digit, followed by that digit, with small
/// letters for ten to fifteen; the fixed-width form is the same with zeros in front.
pub proof fn hex_digits_come_in_order(n: nat, d: nat, width: nat)
    requires
        d < 16,
    ensures
        d < 10 ==> hex_digit(d) as int == '0' as int + d,
        d >= 10 ==> hex_digit(d) as int == 'a' as int + (d - 10),
        hex_text(d) == seq![hex_digit(d)],
        n > 0 ==> hex_text(n * 16 + d) == hex_text(n).push(hex_digit(d)),
        hex_padded(n * 16 + d, width + 1) == hex_padded(n, width).push(hex_digit(d)),
        hex_padded(n, 0).len() == 0,
{
    assert((n * 16 + d) / 16 == n);
    assert((n * 16 + d) % 16 == d);
}

/// Which bytes spell a number: a run of digits, with at most one `+` in front, whose value fits. A
/// zero in front changes nothing; anything else than a digit, or no digit at all, spells none.
pub proof fn what_spells_a_number(s: Seq<u8>)
    ensures
        s.len() == 0 ==> parsed_usize(s) is None,
        s == seq!['+' as u8] ==> parsed_usize(s) is None,
        (s.len() > 0 && s[0] != '+' as u8) ==> parsed_usize(seq!['+' as u8] + s) == parsed_usize(s),
        (exists|i: int|
            0 < i < s.len() && !('0' as u8 <= #[trigger] s[i] <= '9' as u8)) ==> parsed_usize(
            s,
        ) is None,
        (s.len() > 0 && s[0] != '+' as u8 && !('0' as u8 <= s[0] <= '9' as u8)) ==> parsed_usize(
            s,
        ) is None,
        (s.len() > 0 && s[0] != '+' as u8) ==> parsed_usize(seq!['0' as u8] + s) == parsed_usize(s),
        parsed_usize(s) matches Some(n) ==> s.len() > 0 && s[0] != '+' as u8 ==> n == digits_value(
            s,
        ),
{
    assert(unsigned_part(s).len() <= s.len());
    if s.len() > 0 && s[0] != 43 {
        let plus = seq!['+' as u8] + s;
        assert(plus.skip(1) =~= s);
        let zero = seq!['0' as u8] + s;
        lemma_leading_zero(s);
        assert(unsigned_part(zero) == zero);
        if forall|i: int| 0 <= i < s.len() ==> is_digit(#[trigger] s[i]) {
            assert forall|i: int| 0 <= i < zero.len() implies is_digit(#[trigger] zero[i]) by {
                if i > 0 {
                    assert(zero[i] == s[i - 1]);
                }
            }
        } else {
            let i = choose|i: int| 0 <= i < s.len() && !is_digit(#[trigger] s[i]);
            assert(zero[i + 1] == s[i]);
        }
    }
    if exists|i: int| 0 < i < s.len() && !('0' as u8 <= #[trigger] s[i] <= '9' as u8) {
        let i = choose|i: int| 0 < i < s.len() && !('0' as u8 <= #[trigger] s[i] <= '9' as u8);
        let digits = unsigned_part(s);
        if s[0] == 43 {
            assert(digits[i - 1] == s[i]);
        } else {
            assert(digits[i] == s[i]);
        }
    }
}

/// A zero in front does not change a number.
proof fn lemma_leading_zero(s: Seq<u8>)
    ensures
        digits_value(seq!['0' as u8] + s) == digits_value(s),
    decreases s.len(),
{
    let zero = seq!['0' as u8] + s;
    if s.len() == 0 {
        assert(zero.drop_last() =~= seq![]);
        assert(digits_value(zero.drop_last()) == 0);
    } else {
        assert(zero.drop_last() =~= seq!['0' as u8] + s.drop_last());
        lemma_leading_zero(s.drop_last());
    }
}

} // verus!
