//! The text side of a parameter: what a host types in, and what the plugin shows.
//!
//! Text is handled as a sequence of `char`s. Byte offsets, where the parsing rules
//! use them, are those of the text's UTF-8 encoding, which is what `str::len`
//! counts.
use vstd::prelude::*;
use vstd::utf8::{encode_utf8, encode_scalar, char_is_scalar};

verus! {

broadcast use char_is_scalar;

/// The Unicode `White_Space` property, which `char::is_whitespace` and `str::trim` use.
pub open spec fn is_white_space(c: char) -> bool {
    let u = c as u32;
    ||| 0x9 <= u <= 0xD
    ||| u == 0x20
    ||| u == 0x85
    ||| u == 0xA0
    ||| u == 0x1680
    ||| 0x2000 <= u <= 0x200A
    ||| u == 0x2028
    ||| u == 0x2029
    ||| u == 0x202F
    ||| u == 0x205F
    ||| u == 0x3000
}

/// Whether `c` is white space in the sense of `char::is_whitespace`.
pub fn white_space(c: char) -> (r: bool)
    ensures
        r == is_white_space(c),
{
    let u = c as u32;
    (0x9 <= u && u <= 0xD) || u == 0x20 || u == 0x85 || u == 0xA0 || u == 0x1680 || (0x2000
        <= u && u <= 0x200A) || u == 0x2028 || u == 0x2029 || u == 0x202F || u == 0x205F || u
        == 0x3000
}

/// `s` without its leading white space.
pub open spec fn trim_start(s: Seq<char>) -> Seq<char>
    decreases s.len(),
{
    if s.len() > 0 && is_white_space(s[0]) {
        trim_start(s.drop_first())
    } else {
        s
    }
}

/// `s` without its trailing white space.
pub open spec fn trim_end(s: Seq<char>) -> Seq<char>
    decreases s.len(),
{
    if s.len() > 0 && is_white_space(s.last()) {
        trim_end(s.drop_last())
    } else {
        s
    }
}

/// `s` without leading and trailing white space, as `str::trim` gives it.
pub open spec fn trim(s: Seq<char>) -> Seq<char> {
    trim_end(trim_start(s))
}

/// The number of bytes of the UTF-8 encoding of `s`: what `str::len` returns.
pub open spec fn utf8_len(s: Seq<char>) -> nat {
    encode_utf8(s).len()
}

/// The code of `c` with an ASCII capital letter taken to lower case, as
/// `to_ascii_lowercase` does, and any other character unchanged.
pub open spec fn ascii_lower(c: char) -> u32 {
    let u = c as u32;
    if 65 <= u <= 90 {
        (u + 32) as u32
    } else {
        u
    }
}

/// Two character sequences that match when ASCII letters are compared without case.
///
/// Against a pattern of ASCII characters this agrees with `str::eq_ignore_ascii_case`,
/// which compares bytes: a character outside ASCII encodes to bytes that no ASCII byte
/// matches, and lengthens the byte sequence beyond the pattern's.
pub open spec fn eq_ignore_ascii_case(s: Seq<char>, pattern: Seq<char>) -> bool {
    &&& s.len() == pattern.len()
    &&& forall|i: int| 0 <= i < s.len() ==> ascii_lower(#[trigger] s[i]) == ascii_lower(pattern[i])
}

/// The unit that follows the number in a parameter's text.
#[derive(Clone, Copy, Debug, PartialEq, Eq, Structural)]
pub enum Unit {
    /// A bare number.
    Bare,
    /// Decibels: ` dB`.
    Decibels,
    /// Milliseconds: ` ms`.
    Millis,
    /// Per cent: `%`.
    Percent,
}

/// The two letters of a unit that is written after a space.
pub open spec fn unit_letters(unit: Unit) -> Seq<char> {
    match unit {
        Unit::Decibels => seq!['d', 'B'],
        Unit::Millis => seq!['m', 's'],
        _ => Seq::empty(),
    }
}

/// The part of a parameter's text that is read as the number.
///
/// For decibels and milliseconds the two unit letters (in any case) are cut off only
/// where the text has no white space at either end; the rest is then trimmed. For a
/// per cent value a `%` at the end of the trimmed text is cut off. Otherwise the
/// trimmed text is the number.
pub open spec fn number_part(text: Seq<char>, unit: Unit) -> Seq<char> {
    let n = text.len();
    match unit {
        Unit::Bare => trim(text),
        Unit::Percent => {
            let t = trim(text);
            if t.len() > 0 && t.last() == '%' {
                trim(t.drop_last())
            } else {
                t
            }
        },
        _ => {
            if trim(text) == text && n >= 2 && eq_ignore_ascii_case(
                text.subrange(n - 2, n as int),
                unit_letters(unit),
            ) {
                trim(text.subrange(0, n - 2))
            } else {
                trim(text)
            }
        },
    }
}

/// How a value is shown: the number, then its unit.
pub open spec fn displayed(number: Seq<char>, unit: Unit) -> Seq<char> {
    match unit {
        Unit::Bare => number,
        Unit::Decibels => number + seq![' ', 'd', 'B'],
        Unit::Millis => number + seq![' ', 'm', 's'],
        Unit::Percent => number + seq!['%'],
    }
}

proof fn lemma_trim_start_skip(s: Seq<char>, k: int)
    requires
        0 <= k <= s.len(),
        forall|i: int| 0 <= i < k ==> is_white_space(#[trigger] s[i]),
    ensures
        trim_start(s) == trim_start(s.subrange(k, s.len() as int)),
    decreases k,
{
    if k == 0 {
        assert(s.subrange(0, s.len() as int) =~= s);
    } else {
        let t = s.drop_first();
        assert forall|i: int| 0 <= i < k - 1 implies is_white_space(#[trigger] t[i]) by {
            assert(t[i] == s[i + 1]);
        }
        lemma_trim_start_skip(t, k - 1);
        assert(t.subrange(k - 1, t.len() as int) =~= s.subrange(k, s.len() as int));
    }
}

proof fn lemma_trim_end_skip(s: Seq<char>, k: int)
    requires
        0 <= k <= s.len(),
        forall|i: int| k <= i < s.len() ==> is_white_space(#[trigger] s[i]),
    ensures
        trim_end(s) == trim_end(s.subrange(0, k)),
    decreases s.len() - k,
{
    if k == s.len() {
        assert(s.subrange(0, k) =~= s);
    } else {
        let t = s.drop_last();
        assert forall|i: int| k <= i < t.len() implies is_white_space(#[trigger] t[i]) by {
            assert(t[i] == s[i]);
        }
        lemma_trim_end_skip(t, k);
        assert(t.subrange(0, k) =~= s.subrange(0, k));
    }
}

/// The bounds of the trimmed part of `s[lo..hi]`.
fn trim_bounds(s: &Vec<char>, lo: usize, hi: usize) -> (r: (usize, usize))
    requires
        lo <= hi <= s.len(),
    ensures
        lo <= r.0 <= r.1 <= hi,
        s@.subrange(r.0 as int, r.1 as int) == trim(s@.subrange(lo as int, hi as int)),
        forall|i: int| lo <= i < r.0 ==> is_white_space(#[trigger] s@[i]),
        forall|i: int| r.1 <= i < hi ==> is_white_space(#[trigger] s@[i]),
{
    let mut a = lo;
    while a < hi && white_space(s[a])
        invariant
            lo <= a <= hi <= s.len(),
            forall|i: int| lo <= i < a ==> is_white_space(#[trigger] s@[i]),
        decreases hi - a,
    {
        a = a + 1;
    }
    let ghost whole = s@.subrange(lo as int, hi as int);
    proof {
        assert forall|i: int| 0 <= i < a - lo implies is_white_space(#[trigger] whole[i]) by {
            assert(whole[i] == s@[lo + i]);
        }
        lemma_trim_start_skip(whole, a - lo);
        assert(whole.subrange(a - lo, whole.len() as int) =~= s@.subrange(a as int, hi as int));
    }
    let mut b = hi;
    while b > a && white_space(s[b - 1])
        invariant
            lo <= a <= b <= hi <= s.len(),
            forall|i: int| b <= i < hi ==> is_white_space(#[trigger] s@[i]),
        decreases b - a,
    {
        b = b - 1;
    }
    proof {
        let rest = s@.subrange(a as int, hi as int);
        assert forall|i: int| b - a <= i < rest.len() implies is_white_space(#[trigger] rest[i]) by {
            assert(rest[i] == s@[a + i]);
        }
        lemma_trim_end_skip(rest, b - a);
        assert(rest.subrange(0, b - a) =~= s@.subrange(a as int, b as int));
    }
    (a, b)
}

/// A copy of `s[lo..hi]`.
fn copy_range(s: &Vec<char>, lo: usize, hi: usize) -> (r: Vec<char>)
    requires
        lo <= hi <= s.len(),
    ensures
        r@ == s@.subrange(lo as int, hi as int),
{
    let mut r: Vec<char> = Vec::new();
    let mut i = lo;
    while i < hi
        invariant
            lo <= i <= hi <= s.len(),
            r@ == s@.subrange(lo as int, i as int),
        decreases hi - i,
    {
        r.push(s[i]);
        i = i + 1;
        proof {
            assert(r@ =~= s@.subrange(lo as int, i as int));
        }
    }
    r
}

proof fn lemma_encode_concat(a: Seq<char>, b: Seq<char>)
    ensures
        encode_utf8(a + b) == encode_utf8(a) + encode_utf8(b),
    decreases a.len(),
{
    if a.len() == 0 {
        assert(a + b =~= b);
        assert(encode_utf8(a) =~= Seq::<u8>::empty());
        assert(encode_utf8(a) + encode_utf8(b) =~= encode_utf8(b));
    } else {
        lemma_encode_concat(a.drop_first(), b);
        assert((a + b).drop_first() =~= a.drop_first() + b);
        assert((a + b)[0] == a[0]);
        assert(encode_scalar(a[0] as u32) + (encode_utf8(a.drop_first()) + encode_utf8(b))
            =~= (encode_scalar(a[0] as u32) + encode_utf8(a.drop_first())) + encode_utf8(b));
    }
}

proof fn lemma_scalar_len(c: char)
    ensures
        1 <= encode_scalar(c as u32).len() <= 4,
        encode_scalar(c as u32).len() == 1 <==> (c as u32) < 0x80,
{
}

proof fn lemma_single(c: char)
    ensures
        encode_utf8(seq![c]).len() == encode_scalar(c as u32).len(),
{
    let s = seq![c];
    assert(s.drop_first() =~= Seq::<char>::empty());
    assert(encode_utf8(s.drop_first()) =~= Seq::<u8>::empty());
    assert(encode_utf8(s) =~= encode_scalar(c as u32) + Seq::<u8>::empty());
}

proof fn lemma_prefix_step(s: Seq<char>, j: int)
    requires
        0 <= j < s.len(),
    ensures
        utf8_len(s.subrange(0, j + 1)) == utf8_len(s.subrange(0, j)) + encode_scalar(
            s[j] as u32,
        ).len(),
{
    assert(s.subrange(0, j + 1) =~= s.subrange(0, j) + seq![s[j]]);
    lemma_encode_concat(s.subrange(0, j), seq![s[j]]);
    lemma_single(s[j]);
}

proof fn lemma_len_at_least_count(s: Seq<char>)
    ensures
        utf8_len(s) >= s.len(),
    decreases s.len(),
{
    if s.len() > 0 {
        lemma_len_at_least_count(s.drop_first());
        lemma_scalar_len(s[0]);
    }
}

proof fn lemma_split_len(s: Seq<char>, i: int)
    requires
        0 <= i <= s.len(),
    ensures
        utf8_len(s) == utf8_len(s.subrange(0, i)) + utf8_len(s.subrange(i, s.len() as int)),
{
    assert(s =~= s.subrange(0, i) + s.subrange(i, s.len() as int));
    lemma_encode_concat(s.subrange(0, i), s.subrange(i, s.len() as int));
}

proof fn lemma_prefix_mono(s: Seq<char>, j: int, k: int)
    requires
        0 <= j <= k <= s.len(),
    ensures
        utf8_len(s.subrange(0, j)) + (k - j) <= utf8_len(s.subrange(0, k)),
{
    let p = s.subrange(0, k);
    lemma_split_len(p, j);
    assert(p.subrange(0, j) =~= s.subrange(0, j));
    lemma_len_at_least_count(p.subrange(j, k));
}

/// Two characters at `j` that close `s` take two bytes exactly when both are ASCII.
proof fn lemma_pair_len(s: Seq<char>, j: int)
    requires
        0 <= j,
        j + 2 == s.len(),
    ensures
        utf8_len(s.subrange(j, s.len() as int)) == encode_scalar(s[j] as u32).len()
            + encode_scalar(s[j + 1] as u32).len(),
{
    let suffix = s.subrange(j, s.len() as int);
    assert(suffix =~= seq![s[j]] + seq![s[j + 1]]);
    lemma_encode_concat(seq![s[j]], seq![s[j + 1]]);
    lemma_single(s[j]);
    lemma_single(s[j + 1]);
}

/// The number of UTF-8 bytes of `s[0..j]`.
fn prefix_byte_len(s: &Vec<char>, j: usize) -> (r: usize)
    requires
        j <= s.len(),
        utf8_len(s@) <= usize::MAX,
    ensures
        r == utf8_len(s@.subrange(0, j as int)),
{
    let mut acc: usize = 0;
    let mut i: usize = 0;
    while i < j
        invariant
            i <= j <= s.len(),
            utf8_len(s@) <= usize::MAX,
            acc == utf8_len(s@.subrange(0, i as int)),
        decreases j - i,
    {
        proof {
            lemma_prefix_step(s@, i as int);
            lemma_split_len(s@, i as int + 1);
        }
        acc = acc + char_width(s[i]);
        i = i + 1;
    }
    acc
}

/// The number of bytes of the UTF-8 encoding of `c`, as `char::len_utf8` gives it.
fn char_width(c: char) -> (r: usize)
    ensures
        r == encode_scalar(c as u32).len(),
{
    let u = c as u32;
    if u < 0x80 {
        1
    } else if u < 0x800 {
        2
    } else if u < 0x10000 {
        3
    } else {
        4
    }
}

/// Whether `c` matches the ASCII letter `letter` when case is ignored.
fn same_ascii_letter(c: char, letter: char) -> (r: bool)
    ensures
        r == (ascii_lower(c) == ascii_lower(letter)),
{
    let cu = c as u32;
    let lu = letter as u32;
    let lc = if 65 <= cu && cu <= 90 {
        cu + 32
    } else {
        cu
    };
    let ll = if 65 <= lu && lu <= 90 {
        lu + 32
    } else {
        lu
    };
    lc == ll
}

/// The two letters of a unit written after a space.
fn letters_of(unit: Unit) -> (r: (char, char))
    requires
        unit == Unit::Decibels || unit == Unit::Millis,
    ensures
        unit_letters(unit) == seq![r.0, r.1],
{
    match unit {
        Unit::Decibels => ('d', 'B'),
        _ => ('m', 's'),
    }
}

/// The facts about a text whose trimmed part is `text[a..b]`.
pub open spec fn trimmed_at(text: Seq<char>, a: int, b: int) -> bool {
    &&& 0 <= a <= b <= text.len()
    &&& text.subrange(a, b) == trim(text)
    &&& forall|i: int| 0 <= i < a ==> is_white_space(#[trigger] text[i])
    &&& forall|i: int| b <= i < text.len() ==> is_white_space(#[trigger] text[i])
}

/// Whether `text` is the number followed directly by the two unit letters, with no
/// white space at either end: the case in which the unit is cut off.
pub open spec fn ends_in_unit(text: Seq<char>, unit: Unit) -> bool {
    let n = text.len();
    &&& trim(text) == text
    &&& n >= 2
    &&& eq_ignore_ascii_case(text.subrange(n - 2, n as int), unit_letters(unit))
}

proof fn lemma_trim_parts(text: Seq<char>, a: int, b: int)
    requires
        trimmed_at(text, a, b),
    ensures
        utf8_len(text) == utf8_len(text.subrange(0, a)) + utf8_len(text.subrange(a, b))
            + utf8_len(text.subrange(b, text.len() as int)),
        utf8_len(text.subrange(0, a)) >= a,
        utf8_len(text.subrange(b, text.len() as int)) >= text.len() - b,
{
    let n = text.len() as int;
    lemma_split_len(text, a);
    lemma_split_len(text.subrange(a, n), b - a);
    assert(text.subrange(a, n).subrange(0, b - a) =~= text.subrange(a, b));
    assert(text.subrange(a, n).subrange(b - a, n - a) =~= text.subrange(b, n));
    lemma_len_at_least_count(text.subrange(0, a));
    lemma_len_at_least_count(text.subrange(b, n));
}

proof fn lemma_ascii_letter(c: char, letter: char)
    requires
        ascii_lower(c) == ascii_lower(letter),
        (letter as u32) < 0x80,
    ensures
        (c as u32) < 0x80,
{
}

/// A split two bytes before the end, followed by the unit, leaves nothing trimmed.
proof fn lemma_split_means_unit(text: Seq<char>, a: int, b: int, j: int, unit: Unit)
    requires
        unit == Unit::Decibels || unit == Unit::Millis,
        trimmed_at(text, a, b),
        utf8_len(text) >= 2,
        0 <= j,
        j + 2 == b - a,
        utf8_len(text.subrange(a, b).subrange(0, j)) == utf8_len(text) - 2,
        ascii_lower(text[a + j]) == ascii_lower(unit_letters(unit)[0]),
        ascii_lower(text[a + j + 1]) == ascii_lower(unit_letters(unit)[1]),
    ensures
        a == 0,
        b == text.len(),
        ends_in_unit(text, unit),
{
    let n = text.len() as int;
    let t = text.subrange(a, b);
    lemma_trim_parts(text, a, b);
    lemma_split_len(t, j);
    lemma_pair_len(t, j);
    lemma_ascii_letter(t[j], unit_letters(unit)[0]);
    lemma_ascii_letter(t[j + 1], unit_letters(unit)[1]);
    lemma_scalar_len(t[j]);
    lemma_scalar_len(t[j + 1]);
    assert(t.subrange(j, t.len() as int) =~= t.subrange(j, b - a));
    assert(utf8_len(t) == utf8_len(text));
    assert(a == 0 && b == n);
    assert(t =~= text);
    let u2 = text.subrange(n - 2, n);
    assert(u2[0] == text[n - 2]);
    assert(u2[1] == text[n - 1]);
    assert(unit_letters(unit).len() == 2);
}

/// A text that trimming leaves unchanged has no white space at either end.
proof fn lemma_untrimmed(text: Seq<char>, a: int, b: int)
    requires
        trimmed_at(text, a, b),
        trim(text) == text,
    ensures
        a == 0,
        b == text.len(),
{
    assert(text.subrange(a, b).len() == text.len());
}

/// When `t` ends in two ASCII characters, the first split point at or past
/// `utf8_len(t) - 2` bytes is the one just before them.
proof fn lemma_found_before_pair(t: Seq<char>, j: int, acc: int)
    requires
        t.len() >= 2,
        (t[t.len() - 2] as u32) < 0x80,
        (t[t.len() - 1] as u32) < 0x80,
        0 <= j <= t.len(),
        acc == utf8_len(t.subrange(0, j)),
        j == t.len() || acc >= utf8_len(t) - 2,
        forall|k: int| 0 <= k < j ==> utf8_len(#[trigger] t.subrange(0, k)) < utf8_len(t) - 2,
    ensures
        j == t.len() - 2,
        acc == utf8_len(t) - 2,
{
    let n = t.len() as int;
    lemma_scalar_len(t[n - 2]);
    lemma_scalar_len(t[n - 1]);
    lemma_split_len(t, n - 2);
    lemma_pair_len(t, n - 2);
    assert(utf8_len(t.subrange(0, n - 2)) == utf8_len(t) - 2);
    if j > n - 2 {
        assert(utf8_len(t.subrange(0, n - 2)) < utf8_len(t) - 2);
    }
    lemma_prefix_mono(t, j, n - 2);
}

/// The last two characters of a text that ends in the unit are ASCII.
proof fn lemma_unit_is_ascii(text: Seq<char>, unit: Unit)
    requires
        unit == Unit::Decibels || unit == Unit::Millis,
        ends_in_unit(text, unit),
    ensures
        (text[text.len() - 2] as u32) < 0x80,
        (text[text.len() - 1] as u32) < 0x80,
{
    let n = text.len() as int;
    let u2 = text.subrange(n - 2, n);
    assert(u2[0] == text[n - 2]);
    assert(u2[1] == text[n - 1]);
    assert(unit_letters(unit).len() == 2);
    assert(ascii_lower(u2[0]) == ascii_lower(unit_letters(unit)[0]));
    assert(ascii_lower(u2[1]) == ascii_lower(unit_letters(unit)[1]));
    lemma_ascii_letter(text[n - 2], unit_letters(unit)[0]);
    lemma_ascii_letter(text[n - 1], unit_letters(unit)[1]);
}

/// Where the text is cut before its unit: `Some(n - 2)` for a text that ends in the
/// unit, else `None`. This follows the parameter's parsing rule step by step: split
/// the trimmed text two bytes before the end of the untrimmed text, and accept the
/// split if the part after it is the unit, ASCII case ignored. A text of fewer than
/// two bytes is not split.
fn unit_cut(text: &Vec<char>, a: usize, b: usize, unit: Unit) -> (r: Option<usize>)
    requires
        unit == Unit::Decibels || unit == Unit::Millis,
        trimmed_at(text@, a as int, b as int),
        utf8_len(text@) <= usize::MAX,
    ensures
        r is Some <==> ends_in_unit(text@, unit),
        r matches Some(e) ==> e == text.len() - 2,
{
    let n = text.len();
    let (l0, l1) = letters_of(unit);
    let total = prefix_byte_len(text, n);
    proof {
        assert(text@.subrange(0, n as int) =~= text@);
        lemma_trim_parts(text@, a as int, b as int);
    }
    if total < 2 {
        proof {
            lemma_len_at_least_count(text@);
        }
        return None;
    }
    let mid = total - 2;
    let len = b - a;
    let ghost t = text@.subrange(a as int, b as int);
    let mut acc: usize = 0;
    let mut j: usize = 0;
    while j < len && acc < mid
        invariant
            a <= b <= n == text.len(),
            len == b - a,
            t == text@.subrange(a as int, b as int),
            utf8_len(t) <= total,
            total == utf8_len(text@),
            total <= usize::MAX,
            mid == total - 2,
            j <= len,
            acc == utf8_len(t.subrange(0, j as int)),
            forall|k: int| 0 <= k < j ==> utf8_len(#[trigger] t.subrange(0, k)) < mid,
        decreases len - j,
    {
        proof {
            lemma_prefix_step(t, j as int);
            lemma_prefix_mono(t, j as int + 1, len as int);
            assert(t.subrange(0, len as int) =~= t);
        }
        acc = acc + char_width(text[a + j]);
        j = j + 1;
    }
    if acc == mid && len - j == 2 && same_ascii_letter(text[a + j], l0) && same_ascii_letter(
        text[a + j + 1],
        l1,
    ) {
        proof {
            lemma_split_means_unit(text@, a as int, b as int, j as int, unit);
        }
        Some(j)
    } else {
        proof {
            if ends_in_unit(text@, unit) {
                lemma_untrimmed(text@, a as int, b as int);
                assert(t =~= text@);
                lemma_unit_is_ascii(text@, unit);
                lemma_found_before_pair(t, j as int, acc as int);
                let u2 = text@.subrange(n - 2, n as int);
                assert(u2[0] == text@[n - 2]);
                assert(u2[1] == text@[n - 1]);
                assert(ascii_lower(u2[0]) == ascii_lower(unit_letters(unit)[0]));
                assert(ascii_lower(u2[1]) == ascii_lower(unit_letters(unit)[1]));
            }
        }
        None
    }
}

/// The part of `text` that is read as the number, for a value given with `unit`.
///
/// The text is trimmed. For decibels and milliseconds the unit is cut off where
/// `unit_cut` finds it, and the rest trimmed again; for a per cent value a `%` that
/// ends the trimmed text is cut off, and the rest trimmed again.
pub fn number_text(text: &Vec<char>, unit: Unit) -> (r: Vec<char>)
    requires
        utf8_len(text@) <= usize::MAX,
    ensures
        r@ == number_part(text@, unit),
{
    let n = text.len();
    let (a, b) = trim_bounds(text, 0, n);
    proof {
        assert(text@.subrange(0, n as int) =~= text@);
    }
    match unit {
        Unit::Bare => copy_range(text, a, b),
        Unit::Percent => {
            if b > a && text[b - 1] == '%' {
                let (c, d) = trim_bounds(text, a, b - 1);
                proof {
                    assert(text@.subrange(a as int, b - 1) =~= text@.subrange(
                        a as int,
                        b as int,
                    ).drop_last());
                }
                copy_range(text, c, d)
            } else {
                copy_range(text, a, b)
            }
        },
        _ => {
            match unit_cut(text, a, b, unit) {
                Some(e) => {
                    let (c, d) = trim_bounds(text, 0, e);
                    copy_range(text, c, d)
                },
                None => copy_range(text, a, b),
            }
        },
    }
}

/// The text that shows a value: `number` followed by `unit`.
pub fn display_text(number: &Vec<char>, unit: Unit) -> (r: Vec<char>)
    ensures
        r@ == displayed(number@, unit),
{
    let mut r = copy_range(number, 0, number.len());
    proof {
        assert(number@.subrange(0, number@.len() as int) =~= number@);
    }
    match unit {
        Unit::Bare => {},
        Unit::Decibels => {
            r.push(' ');
            r.push('d');
            r.push('B');
        },
        Unit::Millis => {
            r.push(' ');
            r.push('m');
            r.push('s');
        },
        Unit::Percent => {
            r.push('%');
        },
    }
    proof {
        assert(r@ =~= displayed(number@, unit));
    }
    r
}

proof fn lemma_trim_fixed(s: Seq<char>)
    requires
        s.len() > 0,
        !is_white_space(s[0]),
        !is_white_space(s.last()),
    ensures
        trim(s) == s,
{
}

/// Reading back what is shown gives the number that was shown: for a number with no
/// white space at either end, the number part of its displayed text, in any unit, is
/// the number itself.
pub proof fn lemma_read_back_displayed(number: Seq<char>, unit: Unit)
    requires
        number.len() > 0,
        !is_white_space(number[0]),
        !is_white_space(number.last()),
    ensures
        number_part(displayed(number, unit), unit) == number,
{
    let d = displayed(number, unit);
    lemma_trim_fixed(number);
    match unit {
        Unit::Bare => {},
        Unit::Percent => {
            assert(d[0] == number[0]);
            lemma_trim_fixed(d);
            assert(d.drop_last() =~= number);
        },
        _ => {
            let n = d.len();
            assert(d[0] == number[0]);
            lemma_trim_fixed(d);
            let spaced = d.subrange(0, n - 2);
            assert(spaced =~= number.push(' '));
            assert(spaced[0] == number[0]);
            assert(spaced.drop_last() =~= number);
            assert(trim_start(spaced) == spaced);
            assert(trim_end(spaced) == trim_end(number));
            let u2 = d.subrange(n - 2, n as int);
            assert(u2 =~= unit_letters(unit));
        },
    }
}

} // verus!
