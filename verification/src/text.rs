//! Strings as sequences of characters: the few operations the rest of the library needs, each
//! with the sequence it computes.

use vstd::prelude::*;

verus! {

// ---------------------------------------------------------------------------------------------
// What the standard library decides.
// ---------------------------------------------------------------------------------------------

/// The characters with Unicode's `White_Space` property.
pub open spec fn is_white_space(c: char) -> bool {
    ||| '\u{9}' <= c <= '\u{d}'
    ||| c == ' '
    ||| c == '\u{85}'
    ||| c == '\u{a0}'
    ||| c == '\u{1680}'
    ||| '\u{2000}' <= c <= '\u{200a}'
    ||| c == '\u{2028}'
    ||| c == '\u{2029}'
    ||| c == '\u{202f}'
    ||| c == '\u{205f}'
    ||| c == '\u{3000}'
}

/// `char::is_whitespace`: true exactly for the characters with the `White_Space` property.
pub assume_specification[ char::is_whitespace ](c: char) -> (b: bool)
    ensures
        b == is_white_space(c),
;

/// `String::push`: appends one character.
pub assume_specification[ String::push ](s: &mut String, c: char)
    ensures
        final(s)@ == old(s)@.push(c),
;

/// A string as `{:?}` prints it: in double quotes, with special characters escaped.
pub uninterp spec fn debug_text(s: Seq<char>) -> Seq<char>;

/// Formats a string with `{:?}`. Which characters are escaped and how is left to the name
/// `debug_text`; the claim is that the text depends on the string alone.
#[verifier::external_body]
pub(crate) fn quoted(s: &str) -> (r: String)
    ensures
        r@ == debug_text(s@),
{
    format!("{:?}", s)
}

/// A string in Unicode lower case.
pub uninterp spec fn lowercase_text(s: Seq<char>) -> Seq<char>;

/// `str::to_lowercase`. The case mapping is left to the name `lowercase_text`; the claim is that
/// the text depends on the string alone.
#[verifier::external_body]
pub(crate) fn lowercase(s: &str) -> (r: String)
    ensures
        r@ == lowercase_text(s@),
{
    s.to_lowercase()
}

// ---------------------------------------------------------------------------------------------
// Characters.
// ---------------------------------------------------------------------------------------------

/// The characters of a string, in order.
pub fn chars_of(s: &str) -> (r: Vec<char>)
    ensures
        r@ == s@,
{
    let mut out: Vec<char> = Vec::new();
    for c in it: s.chars()
        invariant
            out@ == it.seq().take(it.index()),
            it.seq() == s@,
    {
        out.push(c);
        assert(it.seq().take(it.index() + 1) =~= it.seq().take(it.index()).push(c));
    }
    assert(s@.take(s@.len() as int) =~= s@);
    out
}

/// The string made of `chars[from..to]`.
pub fn string_of(chars: &Vec<char>, from: usize, to: usize) -> (r: String)
    requires
        from <= to <= chars@.len(),
    ensures
        r@ == chars@.subrange(from as int, to as int),
{
    let mut out = String::new();
    let mut i: usize = from;
    while i < to
        invariant
            from <= i <= to <= chars@.len(),
            out@ == chars@.subrange(from as int, i as int),
        decreases to - i,
    {
        out.push(chars[i]);
        i += 1;
        assert(out@ =~= chars@.subrange(from as int, i as int));
    }
    out
}

/// Whether `c` occurs in `s`.
pub fn contains_char(s: &str, c: char) -> (b: bool)
    ensures
        b == s@.contains(c),
{
    let chars = chars_of(s);
    let mut i: usize = 0;
    while i < chars.len()
        invariant
            i <= chars@.len(),
            chars@ == s@,
            forall|k: int| 0 <= k < i ==> chars@[k] != c,
        decreases chars@.len() - i,
    {
        if chars[i] == c {
            return true;
        }
        i += 1;
    }
    false
}

/// Whether two strings hold the same characters.
pub fn same(a: &str, b: &str) -> (r: bool)
    ensures
        r == (a@ == b@),
{
    let x = chars_of(a);
    let y = chars_of(b);
    if x.len() != y.len() {
        return false;
    }
    let mut i: usize = 0;
    while i < x.len()
        invariant
            i <= x@.len() == y@.len(),
            x@ == a@,
            y@ == b@,
            forall|k: int| 0 <= k < i ==> x@[k] == y@[k],
        decreases x@.len() - i,
    {
        if x[i] != y[i] {
            return false;
        }
        i += 1;
    }
    assert(a@ =~= b@);
    true
}

/// Whether `s` begins with `prefix`.
pub fn starts_with(s: &str, prefix: &str) -> (b: bool)
    ensures
        b == prefix@.is_prefix_of(s@),
{
    let a = chars_of(s);
    let p = chars_of(prefix);
    if p.len() > a.len() {
        return false;
    }
    let mut i: usize = 0;
    while i < p.len()
        invariant
            i <= p@.len() <= a@.len(),
            a@ == s@,
            p@ == prefix@,
            forall|k: int| 0 <= k < i ==> a@[k] == p@[k],
        decreases p@.len() - i,
    {
        if a[i] != p[i] {
            assert(s@.subrange(0, p@.len() as int)[i as int] != prefix@[i as int]);
            return false;
        }
        i += 1;
    }
    assert(s@.subrange(0, p@.len() as int) =~= prefix@);
    true
}

/// `s` without its first `n` characters.
pub fn skip_chars(s: &str, n: usize) -> (r: String)
    requires
        n <= s@.len(),
    ensures
        r@ == s@.skip(n as int),
{
    let chars = chars_of(s);
    let r = string_of(&chars, n, chars.len());
    assert(s@.subrange(n as int, s@.len() as int) =~= s@.skip(n as int));
    r
}

// ---------------------------------------------------------------------------------------------
// Whitespace.
// ---------------------------------------------------------------------------------------------

/// How many white-space characters `s` begins with.
pub open spec fn leading_space(s: Seq<char>) -> nat
    decreases s.len(),
{
    if s.len() > 0 && is_white_space(s[0]) {
        1 + leading_space(s.skip(1))
    } else {
        0
    }
}

/// How many characters of `s` come before its first white-space character.
pub open spec fn word_len(s: Seq<char>) -> nat
    decreases s.len(),
{
    if s.len() > 0 && !is_white_space(s[0]) {
        1 + word_len(s.skip(1))
    } else {
        0
    }
}

/// `s` without the white space at its end.
pub open spec fn trimmed_end(s: Seq<char>) -> Seq<char>
    decreases s.len(),
{
    if s.len() > 0 && is_white_space(s.last()) {
        trimmed_end(s.drop_last())
    } else {
        s
    }
}

/// `s` without the white space at either end.
pub open spec fn trimmed(s: Seq<char>) -> Seq<char> {
    trimmed_end(s.skip(leading_space(s) as int))
}

/// The maximal runs of `s` that hold no white space, in order.
pub open spec fn words(s: Seq<char>) -> Seq<Seq<char>>
    decreases s.len(),
    via words_decreases
{
    let rest = s.skip(leading_space(s) as int);
    if rest.len() == 0 {
        seq![]
    } else {
        seq![rest.take(word_len(rest) as int)] + words(rest.skip(word_len(rest) as int))
    }
}

#[via_fn]
proof fn words_decreases(s: Seq<char>) {
    lemma_runs(s);
    let rest = s.skip(leading_space(s) as int);
    lemma_runs(rest);
}

/// The two runs a string can begin with stay inside it, and one of them is empty.
pub proof fn lemma_runs(s: Seq<char>)
    ensures
        leading_space(s) <= s.len(),
        word_len(s) <= s.len(),
        s.skip(leading_space(s) as int).len() > 0 ==> word_len(s.skip(leading_space(s) as int)) > 0,
        forall|k: int| 0 <= k < leading_space(s) ==> is_white_space(#[trigger] s[k]),
        forall|k: int| 0 <= k < word_len(s) ==> !is_white_space(#[trigger] s[k]),
    decreases s.len(),
{
    if s.len() > 0 {
        let t = s.skip(1);
        lemma_runs(t);
        if is_white_space(s[0]) {
            assert(s.skip(leading_space(s) as int) =~= t.skip(leading_space(t) as int));
            assert forall|k: int| 0 <= k < leading_space(s) implies is_white_space(
                #[trigger] s[k],
            ) by {
                if k > 0 {
                    assert(s[k] == t[k - 1]);
                }
            }
        } else {
            assert(s.skip(0) =~= s);
            assert forall|k: int| 0 <= k < word_len(s) implies !is_white_space(
                #[trigger] s[k],
            ) by {
                if k > 0 {
                    assert(s[k] == t[k - 1]);
                }
            }
        }
    }
}

/// The end of the white-space run that begins at `from`.
fn space_end(chars: &Vec<char>, from: usize) -> (r: usize)
    requires
        from <= chars@.len(),
    ensures
        from <= r <= chars@.len(),
        r - from == leading_space(chars@.skip(from as int)),
{
    let mut i: usize = from;
    assert(chars@.skip(i as int) =~= chars@.skip(from as int));
    while i < chars.len() && chars[i].is_whitespace()
        invariant
            from <= i <= chars@.len(),
            i - from + leading_space(chars@.skip(i as int)) == leading_space(
                chars@.skip(from as int),
            ),
        decreases chars@.len() - i,
    {
        assert(chars@.skip(i as int).skip(1) =~= chars@.skip(i + 1));
        i += 1;
    }
    i
}

/// The end of the run without white space that begins at `from`.
fn word_end(chars: &Vec<char>, from: usize) -> (r: usize)
    requires
        from <= chars@.len(),
    ensures
        from <= r <= chars@.len(),
        r - from == word_len(chars@.skip(from as int)),
{
    let mut i: usize = from;
    while i < chars.len() && !chars[i].is_whitespace()
        invariant
            from <= i <= chars@.len(),
            i - from + word_len(chars@.skip(i as int)) == word_len(chars@.skip(from as int)),
        decreases chars@.len() - i,
    {
        assert(chars@.skip(i as int).skip(1) =~= chars@.skip(i + 1));
        i += 1;
    }
    i
}

/// Removes the white space at both ends.
pub fn trim(s: &str) -> (r: String)
    ensures
        r@ == trimmed(s@),
{
    let chars = chars_of(s);
    assert(chars@.skip(0) =~= chars@);
    let from = space_end(&chars, 0);
    let mut to: usize = chars.len();
    let ghost rest = chars@.skip(from as int);
    assert(chars@.subrange(from as int, to as int) =~= rest);
    while from < to && chars[to - 1].is_whitespace()
        invariant
            from <= to <= chars@.len(),
            trimmed_end(chars@.subrange(from as int, to as int)) == trimmed_end(rest),
        decreases to,
    {
        assert(chars@.subrange(from as int, to as int).drop_last() =~= chars@.subrange(
            from as int,
            to - 1,
        ));
        to -= 1;
    }
    string_of(&chars, from, to)
}

/// The strings' contents.
pub open spec fn texts(v: Seq<String>) -> Seq<Seq<char>> {
    v.map_values(|s: String| s@)
}

/// Whether two optional strings hold the same.
pub open spec fn same_opt(a: Option<String>, b: Option<String>) -> bool {
    match (a, b) {
        (Some(x), Some(y)) => x@ == y@,
        (None, None) => true,
        _ => false,
    }
}

/// Copies an optional string.
pub fn copy_opt(s: &Option<String>) -> (r: Option<String>)
    ensures
        same_opt(r, *s),
{
    match s {
        Some(s) => Some(s.clone()),
        None => None,
    }
}

/// Splits a string at white space, as the words of a query are told apart.
pub fn split_words(s: &str) -> (r: Vec<String>)
    ensures
        texts(r@) == words(s@),
{
    let chars = chars_of(s);
    let mut out: Vec<String> = Vec::new();
    let mut at: usize = 0;
    assert(chars@.skip(0) =~= chars@);
    assert(texts(out@) + words(chars@) =~= words(chars@));
    loop
        invariant
            at <= chars@.len(),
            texts(out@) + words(chars@.skip(at as int)) == words(chars@),
        ensures
            texts(out@) == words(chars@),
        decreases chars@.len() - at,
    {
        let ghost here = chars@.skip(at as int);
        proof {
            lemma_runs(here);
        }
        let from = space_end(&chars, at);
        let ghost rest = here.skip(leading_space(here) as int);
        assert(rest =~= chars@.skip(from as int));
        if from == chars.len() {
            assert(words(here) =~= seq![]);
            assert(texts(out@) + words(here) =~= texts(out@));
            break;
        }
        let to = word_end(&chars, from);
        proof {
            lemma_runs(rest);
        }
        let word = string_of(&chars, from, to);
        assert(rest.take(word_len(rest) as int) =~= word@);
        assert(rest.skip(word_len(rest) as int) =~= chars@.skip(to as int));
        let ghost before = texts(out@);
        out.push(word);
        assert(texts(out@) =~= before.push(word@));
        assert(texts(out@) + words(chars@.skip(to as int)) =~= before + words(here));
        at = to;
    }
    out
}

// ---------------------------------------------------------------------------------------------
// Separators.
// ---------------------------------------------------------------------------------------------

/// `s` with every `from` replaced by `to`.
pub open spec fn replaced(s: Seq<char>, from: char, to: char) -> Seq<char> {
    s.map_values(
        |c: char|
            if c == from {
                to
            } else {
                c
            },
    )
}

/// `s` with every backslash turned into a forward slash.
pub open spec fn folded(s: Seq<char>) -> Seq<char> {
    replaced(s, '\\', '/')
}

/// Replaces every `from` by `to`.
pub fn replace_char(s: &str, from: char, to: char) -> (r: String)
    ensures
        r@ == replaced(s@, from, to),
{
    let chars = chars_of(s);
    let mut out = String::new();
    let mut i: usize = 0;
    while i < chars.len()
        invariant
            i <= chars@.len(),
            chars@ == s@,
            out@ == replaced(s@.take(i as int), from, to),
        decreases chars@.len() - i,
    {
        out.push(
            if chars[i] == from {
                to
            } else {
                chars[i]
            },
        );
        i += 1;
        assert(out@ =~= replaced(s@.take(i as int), from, to));
    }
    assert(s@.take(s@.len() as int) =~= s@);
    out
}

/// Turns every backslash into a forward slash.
pub fn fold(s: &str) -> (r: String)
    ensures
        r@ == folded(s@),
{
    replace_char(s, '\\', '/')
}

/// A folded string holds no backslash, and folding it again changes nothing.
pub proof fn folding_removes_backslashes(s: Seq<char>)
    ensures
        !folded(s).contains('\\'),
        folded(folded(s)) == folded(s),
        folded(s).len() == s.len(),
        !s.contains('\\') ==> folded(s) == s,
{
    assert(folded(folded(s)) =~= folded(s));
    if !s.contains('\\') {
        assert forall|i: int| 0 <= i < s.len() implies folded(s)[i] == s[i] by {
            assert(s[i] != '\\');
        }
        assert(folded(s) =~= s);
    }
}

/// `s` without the `sep` characters at its end.
pub open spec fn without_trailing(s: Seq<char>, sep: char) -> Seq<char>
    decreases s.len(),
{
    if s.len() > 0 && s.last() == sep {
        without_trailing(s.drop_last(), sep)
    } else {
        s
    }
}

/// What trimming leaves is a prefix that does not end in `sep`.
pub proof fn lemma_without_trailing(s: Seq<char>, sep: char)
    ensures
        without_trailing(s, sep).len() <= s.len(),
        without_trailing(s, sep) == s.take(without_trailing(s, sep).len() as int),
        without_trailing(s, sep).len() > 0 ==> without_trailing(s, sep).last() != sep,
    decreases s.len(),
{
    if s.len() > 0 && s.last() == sep {
        let t = s.drop_last();
        lemma_without_trailing(t, sep);
        let n = without_trailing(t, sep).len() as int;
        assert(t.take(n) =~= s.take(n));
    } else {
        assert(s.take(s.len() as int) =~= s);
    }
}

/// Removes the `sep` characters at the end.
pub fn trim_trailing(s: &str, sep: char) -> (r: String)
    ensures
        r@ == without_trailing(s@, sep),
{
    let chars = chars_of(s);
    let mut to: usize = chars.len();
    assert(chars@.take(to as int) =~= chars@);
    while to > 0 && chars[to - 1] == sep
        invariant
            to <= chars@.len(),
            without_trailing(chars@.take(to as int), sep) == without_trailing(chars@, sep),
        decreases to,
    {
        assert(chars@.take(to as int).drop_last() =~= chars@.take(to - 1));
        to -= 1;
    }
    let r = string_of(&chars, 0, to);
    assert(r@ =~= chars@.take(to as int));
    r
}

// ---------------------------------------------------------------------------------------------
// Order.
// ---------------------------------------------------------------------------------------------

/// Whether `a` comes before `b` in lexicographic order, or is `b`.
pub open spec fn text_le(a: Seq<char>, b: Seq<char>) -> bool
    decreases a.len(),
{
    if a.len() == 0 {
        true
    } else if b.len() == 0 {
        false
    } else if a[0] == b[0] {
        text_le(a.skip(1), b.skip(1))
    } else {
        a[0] < b[0]
    }
}

/// Of two texts one comes first; only equal ones do both ways.
pub proof fn text_order_is_total(a: Seq<char>, b: Seq<char>)
    ensures
        text_le(a, b) || text_le(b, a),
        text_le(a, b) && text_le(b, a) ==> a == b,
    decreases a.len(),
{
    if a.len() == 0 || b.len() == 0 {
        if a.len() == 0 && b.len() == 0 {
            assert(a =~= b);
        }
    } else if a[0] == b[0] {
        text_order_is_total(a.skip(1), b.skip(1));
        if a.skip(1) == b.skip(1) {
            assert(a =~= seq![a[0]] + a.skip(1));
            assert(b =~= seq![b[0]] + b.skip(1));
        }
    }
}

/// The order is transitive.
pub proof fn text_order_is_transitive(a: Seq<char>, b: Seq<char>, c: Seq<char>)
    requires
        text_le(a, b),
        text_le(b, c),
    ensures
        text_le(a, c),
    decreases a.len(),
{
    if a.len() > 0 && a[0] == b[0] && b[0] == c[0] {
        text_order_is_transitive(a.skip(1), b.skip(1), c.skip(1));
    }
}

/// Whether `a` comes before `b` in lexicographic order, or is `b`.
pub fn at_most(a: &str, b: &str) -> (r: bool)
    ensures
        r == text_le(a@, b@),
{
    let x = chars_of(a);
    let y = chars_of(b);
    let mut i: usize = 0;
    assert(x@.skip(0) =~= x@);
    assert(y@.skip(0) =~= y@);
    while i < x.len() && i < y.len() && x[i] == y[i]
        invariant
            i <= x@.len(),
            i <= y@.len(),
            text_le(x@.skip(i as int), y@.skip(i as int)) == text_le(x@, y@),
        decreases x@.len() - i,
    {
        assert(x@.skip(i as int).skip(1) =~= x@.skip(i + 1));
        assert(y@.skip(i as int).skip(1) =~= y@.skip(i + 1));
        i += 1;
    }
    if i == x.len() {
        true
    } else if i == y.len() {
        false
    } else {
        x[i] < y[i]
    }
}

// ---------------------------------------------------------------------------------------------
// What holds of words, ends and separators.
// ---------------------------------------------------------------------------------------------

/// A text without white space is one word, or none where it is empty.
pub proof fn a_run_is_one_word(s: Seq<char>)
    requires
        forall|k: int| 0 <= k < s.len() ==> !is_white_space(#[trigger] s[k]),
    ensures
        s.len() == 0 ==> words(s).len() == 0,
        s.len() > 0 ==> words(s) == seq![s],
{
    assert(leading_space(s) == 0);
    assert(s.skip(0) =~= s);
    if s.len() > 0 {
        lemma_word_of_a_run(s);
        assert(s.take(s.len() as int) =~= s);
        let rest = s.skip(s.len() as int);
        assert(rest.skip(leading_space(rest) as int).len() == 0);
        assert(words(rest) =~= seq![]);
        assert(words(s) =~= seq![s]);
    }
}

/// A run is as long as its text.
proof fn lemma_word_of_a_run(s: Seq<char>)
    requires
        forall|k: int| 0 <= k < s.len() ==> !is_white_space(#[trigger] s[k]),
    ensures
        word_len(s) == s.len(),
    decreases s.len(),
{
    if s.len() > 0 {
        let t = s.skip(1);
        assert forall|k: int| 0 <= k < t.len() implies !is_white_space(#[trigger] t[k]) by {
            assert(t[k] == s[k + 1]);
        }
        lemma_word_of_a_run(t);
    }
}

/// White space parts words: those of a text are the ones before any of its white-space characters
/// and the ones after it, in order. With the words of a text that has none, this says what the
/// words of every text are.
pub proof fn white_space_parts_words(a: Seq<char>, c: char, b: Seq<char>)
    requires
        is_white_space(c),
    ensures
        words(a + seq![c] + b) == words(a) + words(b),
    decreases a.len(),
{
    let s = a + seq![c] + b;
    if a.len() == 0 {
        assert(s.skip(1) =~= b);
        assert(s[0] == c);
        lemma_runs(b);
        assert(s.skip(leading_space(s) as int) =~= b.skip(leading_space(b) as int));
        assert(a.skip(leading_space(a) as int).len() == 0);
        assert(words(a) =~= seq![]);
        assert(words(a) + words(b) =~= words(b));
    } else if is_white_space(a[0]) {
        let t = a.skip(1);
        let u = t + seq![c] + b;
        assert(s.skip(1) =~= u);
        assert(s[0] == a[0]);
        lemma_runs(u);
        lemma_runs(t);
        assert(s.skip(leading_space(s) as int) =~= u.skip(leading_space(u) as int));
        assert(a.skip(leading_space(a) as int) =~= t.skip(leading_space(t) as int));
        white_space_parts_words(t, c, b);
    } else {
        lemma_runs(a);
        assert(s[0] == a[0]);
        assert(a.skip(0) =~= a);
        assert(s.skip(0) =~= s);
        lemma_same_run(a, c, b);
        let n = word_len(a) as int;
        let rest = a.skip(n);
        assert(s.skip(n) =~= rest + seq![c] + b);
        assert(s.take(n) =~= a.take(n));
        white_space_parts_words(rest, c, b);
        assert(words(s) == seq![a.take(n)] + words(rest + seq![c] + b));
        assert(words(a) == seq![a.take(n)] + words(rest));
        assert(words(s) =~= words(a) + words(b));
    }
}

/// A run that begins a text ends no later because of what follows white space.
proof fn lemma_same_run(a: Seq<char>, c: char, b: Seq<char>)
    requires
        is_white_space(c),
    ensures
        word_len(a + seq![c] + b) == word_len(a),
    decreases a.len(),
{
    let s = a + seq![c] + b;
    if a.len() == 0 {
        assert(s[0] == c);
    } else {
        assert(s[0] == a[0]);
        assert(s.skip(1) =~= a.skip(1) + seq![c] + b);
        if !is_white_space(a[0]) {
            lemma_same_run(a.skip(1), c, b);
        }
    }
}

/// Trimming takes white space off both ends and nothing else, and leaves none there.
pub proof fn trimming_takes_only_the_ends(s: Seq<char>)
    ensures
        exists|i: int, j: int|
            #![trigger s.subrange(i, j)]
            0 <= i <= j <= s.len() && trimmed(s) == s.subrange(i, j) && (forall|k: int|
                0 <= k < i ==> is_white_space(#[trigger] s[k])) && (forall|k: int|
                j <= k < s.len() ==> is_white_space(#[trigger] s[k])),
        trimmed(s).len() > 0 ==> !is_white_space(trimmed(s)[0]) && !is_white_space(
            trimmed(s).last(),
        ),
{
    lemma_runs(s);
    let i = leading_space(s) as int;
    let rest = s.skip(i);
    lemma_trimmed_end(rest);
    let n = trimmed_end(rest).len() as int;
    assert(trimmed(s) =~= s.subrange(i, i + n));
    assert forall|k: int| i + n <= k < s.len() implies is_white_space(#[trigger] s[k]) by {
        assert(s[k] == rest[k - i]);
    }
    if n > 0 {
        assert(trimmed(s)[0] == rest[0]);
        assert(word_len(rest) > 0);
        assert(!is_white_space(rest[0]));
    }
}

/// What is left of a text without the white space at its end is a beginning of it.
proof fn lemma_trimmed_end(s: Seq<char>)
    ensures
        trimmed_end(s).len() <= s.len(),
        trimmed_end(s) == s.take(trimmed_end(s).len() as int),
        forall|k: int| trimmed_end(s).len() <= k < s.len() ==> is_white_space(#[trigger] s[k]),
        trimmed_end(s).len() > 0 ==> !is_white_space(trimmed_end(s).last()),
    decreases s.len(),
{
    if s.len() > 0 && is_white_space(s.last()) {
        let t = s.drop_last();
        lemma_trimmed_end(t);
        let n = trimmed_end(t).len() as int;
        assert(t.take(n) =~= s.take(n));
        assert forall|k: int| n <= k < s.len() implies is_white_space(#[trigger] s[k]) by {
            if k < t.len() {
                assert(t[k] == s[k]);
            }
        }
    } else {
        assert(s.take(s.len() as int) =~= s);
    }
}

/// Folding turns each backslash into a forward slash and leaves every other character where it is.
pub proof fn folding_changes_only_backslashes(s: Seq<char>)
    ensures
        folded(s).len() == s.len(),
        forall|i: int|
            0 <= i < s.len() ==> (s[i] == '\\' ==> #[trigger] folded(s)[i] == '/') && (s[i]
                != '\\' ==> folded(s)[i] == s[i]),
{
}

/// Replacing a character changes it wherever it stands, and changes nothing else.
pub proof fn replacing_changes_only_that_character(s: Seq<char>, from: char, to: char)
    ensures
        replaced(s, from, to).len() == s.len(),
        forall|i: int|
            0 <= i < s.len() ==> (s[i] == from ==> #[trigger] replaced(s, from, to)[i] == to) && (
            s[i] != from ==> replaced(s, from, to)[i] == s[i]),
{
}

/// What is taken off the end of a path is separators, all that stand there and nothing else.
pub proof fn only_trailing_separators_are_taken(s: Seq<char>, sep: char)
    ensures
        without_trailing(s, sep).len() <= s.len(),
        forall|k: int|
            0 <= k < without_trailing(s, sep).len() ==> #[trigger] without_trailing(s, sep)[k]
                == s[k],
        forall|k: int| without_trailing(s, sep).len() <= k < s.len() ==> #[trigger] s[k] == sep,
        without_trailing(s, sep).len() > 0 ==> without_trailing(s, sep).last() != sep,
    decreases s.len(),
{
    if s.len() > 0 && s.last() == sep {
        let t = s.drop_last();
        only_trailing_separators_are_taken(t, sep);
        assert forall|k: int| without_trailing(s, sep).len() <= k < s.len() implies #[trigger] s[k]
            == sep by {
            if k < t.len() {
                assert(t[k] == s[k]);
            }
        }
    }
}

/// The order of two texts is that of the first characters in which they differ; a text that ends
/// there comes first.
pub proof fn texts_are_ordered_by_their_first_difference(
    common: Seq<char>,
    a: Seq<char>,
    b: Seq<char>,
)
    ensures
        a.len() > 0 && b.len() > 0 && a[0] < b[0] ==> text_le(common + a, common + b) && !text_le(
            common + b,
            common + a,
        ),
        text_le(common, common + a),
        a.len() > 0 ==> !text_le(common + a, common),
    decreases common.len(),
{
    if common.len() == 0 {
        assert(common + a =~= a);
        assert(common + b =~= b);
    } else {
        let t = common.skip(1);
        texts_are_ordered_by_their_first_difference(t, a, b);
        assert((common + a).skip(1) =~= t + a);
        assert((common + b).skip(1) =~= t + b);
    }
}

/// Two optional strings are the same where both are missing, or both are there with the same
/// characters.
pub proof fn optional_strings_are_copied_whole(a: Option<String>, b: Option<String>)
    requires
        same_opt(a, b),
    ensures
        a is Some <==> b is Some,
        a matches Some(x) ==> x@ == b->0@,
{
}

} // verus!
