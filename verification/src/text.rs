//! Character-level text operations the retrieval core is specified over:
//! ASCII case folding, case-insensitive substring search (the in-memory
//! meaning of the search filter), lexicographic comparison (the meaning of
//! ordering by a text column), and escaping of pattern metacharacters before
//! a search string is wrapped into a substring pattern.

use vstd::prelude::*;
use vstd::string::StrSliceExecFns;

verus! {

/// Relies on std's `String::push`: appends the given char to the end of the
/// string.
pub assume_specification[ String::push ](s: &mut String, ch: char)
    ensures
        final(s)@ == old(s)@.push(ch),
;

/// ASCII case folding: uppercase letters map to their lowercase twin, every
/// other character is left alone.
pub open spec fn lower_char(c: char) -> char {
    match c {
        'A' => 'a',
        'B' => 'b',
        'C' => 'c',
        'D' => 'd',
        'E' => 'e',
        'F' => 'f',
        'G' => 'g',
        'H' => 'h',
        'I' => 'i',
        'J' => 'j',
        'K' => 'k',
        'L' => 'l',
        'M' => 'm',
        'N' => 'n',
        'O' => 'o',
        'P' => 'p',
        'Q' => 'q',
        'R' => 'r',
        'S' => 's',
        'T' => 't',
        'U' => 'u',
        'V' => 'v',
        'W' => 'w',
        'X' => 'x',
        'Y' => 'y',
        'Z' => 'z',
        _ => c,
    }
}

/// Executable ASCII case folding.
pub fn to_lower(c: char) -> (r: char)
    ensures
        r == lower_char(c),
{
    match c {
        'A' => 'a',
        'B' => 'b',
        'C' => 'c',
        'D' => 'd',
        'E' => 'e',
        'F' => 'f',
        'G' => 'g',
        'H' => 'h',
        'I' => 'i',
        'J' => 'j',
        'K' => 'k',
        'L' => 'l',
        'M' => 'm',
        'N' => 'n',
        'O' => 'o',
        'P' => 'p',
        'Q' => 'q',
        'R' => 'r',
        'S' => 's',
        'T' => 't',
        'U' => 'u',
        'V' => 'v',
        'W' => 'w',
        'X' => 'x',
        'Y' => 'y',
        'Z' => 'z',
        _ => c,
    }
}

/// The needle matches the haystack at position `i`, up to case.
pub open spec fn matches_at(hay: Seq<char>, needle: Seq<char>, i: int) -> bool {
    &&& 0 <= i
    &&& i + needle.len() <= hay.len()
    &&& forall|j: int|
        0 <= j < needle.len() ==> lower_char(hay[i + j]) == lower_char(#[trigger] needle[j])
}

/// Case-insensitive substring containment: the meaning of the search filter.
pub open spec fn contains_ci(hay: Seq<char>, needle: Seq<char>) -> bool {
    exists|i: int| matches_at(hay, needle, i)
}

/// Whether the needle matches the haystack at the given position, compared
/// character by character up to ASCII case.
fn check_match_at(hay: &str, needle: &str, i: usize, hay_len: usize, needle_len: usize) -> (r:
    bool)
    requires
        hay_len == hay@.len(),
        needle_len == needle@.len(),
        i + needle_len <= hay_len,
    ensures
        r == matches_at(hay@, needle@, i as int),
{
    let mut j: usize = 0;
    while j < needle_len
        invariant
            hay_len == hay@.len(),
            needle_len == needle@.len(),
            i + needle_len <= hay_len,
            0 <= j <= needle_len,
            forall|k: int|
                0 <= k < j ==> lower_char(hay@[i + k]) == lower_char(#[trigger] needle@[k]),
        decreases needle_len - j,
    {
        let hc = hay.get_char(i + j);
        let nc = needle.get_char(j);
        if to_lower(hc) != to_lower(nc) {
            return false;
        }
        j = j + 1;
    }
    true
}

/// Case-insensitive substring search.
pub fn str_contains_ci(hay: &str, needle: &str) -> (r: bool)
    ensures
        r == contains_ci(hay@, needle@),
{
    let hay_len = hay.unicode_len();
    let needle_len = needle.unicode_len();
    if needle_len > hay_len {
        assert(forall|i: int| !matches_at(hay@, needle@, i));
        return false;
    }
    let mut i: usize = 0;
    while i <= hay_len - needle_len
        invariant
            hay_len == hay@.len(),
            needle_len == needle@.len(),
            needle_len <= hay_len,
            0 <= i <= hay_len - needle_len + 1,
            forall|k: int| 0 <= k < i ==> !matches_at(hay@, needle@, k),
        decreases hay_len - needle_len - i + 1,
    {
        if check_match_at(hay, needle, i, hay_len, needle_len) {
            return true;
        }
        i = i + 1;
    }
    assert(forall|k: int| !matches_at(hay@, needle@, k));
    false
}

/// Character-for-character string equality.
pub fn str_eq(a: &str, b: &str) -> (r: bool)
    ensures
        r == (a@ == b@),
{
    let a_len = a.unicode_len();
    let b_len = b.unicode_len();
    if a_len != b_len {
        return false;
    }
    let mut i: usize = 0;
    while i < a_len
        invariant
            a_len == a@.len(),
            b_len == b@.len(),
            a_len == b_len,
            0 <= i <= a_len,
            forall|k: int| 0 <= k < i ==> a@[k] == b@[k],
        decreases a_len - i,
    {
        if a.get_char(i) != b.get_char(i) {
            return false;
        }
        i = i + 1;
    }
    proof {
        assert(a@ =~= b@);
    }
    true
}

/// Lexicographic order on character sequences, by code point: the meaning of
/// ordering by a text column.
pub open spec fn seq_char_le(a: Seq<char>, b: Seq<char>) -> bool
    decreases a.len(),
{
    if a.len() == 0 {
        true
    } else if b.len() == 0 {
        false
    } else if a[0] != b[0] {
        (a[0] as int) < (b[0] as int)
    } else {
        seq_char_le(a.drop_first(), b.drop_first())
    }
}

/// Dropping an equal prefix from both sides leaves the order unchanged.
proof fn lemma_seq_char_le_skip(a: Seq<char>, b: Seq<char>, i: int)
    requires
        0 <= i <= a.len(),
        i <= b.len(),
        forall|j: int| 0 <= j < i ==> a[j] == b[j],
    ensures
        seq_char_le(a, b) == seq_char_le(a.skip(i), b.skip(i)),
    decreases i,
{
    if i > 0 {
        assert(a.len() > 0 && b.len() > 0 && a[0] == b[0]);
        lemma_seq_char_le_skip(a.drop_first(), b.drop_first(), i - 1);
        assert(a.drop_first().skip(i - 1) =~= a.skip(i));
        assert(b.drop_first().skip(i - 1) =~= b.skip(i));
    } else {
        assert(a.skip(0) =~= a);
        assert(b.skip(0) =~= b);
    }
}

/// Executable lexicographic comparison.
pub fn str_le(a: &str, b: &str) -> (r: bool)
    ensures
        r == seq_char_le(a@, b@),
{
    let a_len = a.unicode_len();
    let b_len = b.unicode_len();
    let min_len: usize = if a_len < b_len {
        a_len
    } else {
        b_len
    };
    let mut i: usize = 0;
    while i < min_len
        invariant
            a_len == a@.len(),
            b_len == b@.len(),
            min_len == if a_len < b_len {
                a_len as int
            } else {
                b_len as int
            },
            0 <= i <= min_len,
            forall|k: int| 0 <= k < i ==> a@[k] == b@[k],
        decreases min_len - i,
    {
        let ca = a.get_char(i);
        let cb = b.get_char(i);
        if ca != cb {
            proof {
                lemma_seq_char_le_skip(a@, b@, i as int);
                assert(((ca as u32) < (cb as u32)) == ((ca as int) < (cb as int)));
            }
            return (ca as u32) < (cb as u32);
        }
        i = i + 1;
    }
    proof {
        lemma_seq_char_le_skip(a@, b@, min_len as int);
        if a_len <= b_len {
            assert(a@.skip(min_len as int).len() == 0);
        } else {
            assert(b@.skip(min_len as int).len() == 0);
            assert(a@.skip(min_len as int).len() > 0);
        }
    }
    a_len <= b_len
}

/// Lexicographic order is total: any two texts compare one way or the
/// other.
pub proof fn lemma_seq_char_le_total(a: Seq<char>, b: Seq<char>)
    ensures
        seq_char_le(a, b) || seq_char_le(b, a),
    decreases a.len(),
{
    if a.len() > 0 && b.len() > 0 {
        if a[0] == b[0] {
            lemma_seq_char_le_total(a.drop_first(), b.drop_first());
        } else {
            assert((a[0] as int) != (b[0] as int));
        }
    }
}

/// Whether a character is special inside a SQL LIKE pattern and must be
/// escaped for the search text to be matched literally.
pub open spec fn is_like_meta(c: char) -> bool {
    c == '%' || c == '_' || c == '\\'
}

/// The search text with every pattern metacharacter (`%`, `_`, and the
/// escape character itself) preceded by a backslash, so that it matches only
/// literally once wrapped into a substring pattern.
pub open spec fn escape_like_spec(s: Seq<char>) -> Seq<char>
    decreases s.len(),
{
    if s.len() == 0 {
        Seq::empty()
    } else {
        let head = if is_like_meta(s[0]) {
            seq!['\\', s[0]]
        } else {
            seq![s[0]]
        };
        head + escape_like_spec(s.drop_first())
    }
}

/// Escaping distributes over concatenation.
proof fn lemma_escape_like_add(a: Seq<char>, b: Seq<char>)
    ensures
        escape_like_spec(a + b) == escape_like_spec(a) + escape_like_spec(b),
    decreases a.len(),
{
    if a.len() == 0 {
        assert(a + b =~= b);
        assert(escape_like_spec(a) + escape_like_spec(b) =~= escape_like_spec(b));
    } else {
        assert((a + b).drop_first() =~= a.drop_first() + b);
        lemma_escape_like_add(a.drop_first(), b);
        assert(escape_like_spec(a + b) =~= escape_like_spec(a) + escape_like_spec(b));
    }
}

/// A one-character sequence escapes to itself, possibly with a leading
/// backslash.
proof fn lemma_escape_like_unit(c: char)
    ensures
        escape_like_spec(seq![c]) == if is_like_meta(c) {
            seq!['\\', c]
        } else {
            seq![c]
        },
{
    reveal_with_fuel(escape_like_spec, 2);
    assert(seq![c].drop_first() =~= Seq::<char>::empty());
    if is_like_meta(c) {
        assert(escape_like_spec(seq![c]) =~= seq!['\\', c]);
    } else {
        assert(escape_like_spec(seq![c]) =~= seq![c]);
    }
}

/// The decoder for escaped pattern text: a backslash makes the next
/// character literal. It exists to state that escaping loses nothing.
pub open spec fn unescape_like_spec(s: Seq<char>) -> Seq<char>
    decreases s.len(),
{
    if s.len() == 0 {
        Seq::empty()
    } else if s[0] == '\\' && s.len() >= 2 {
        seq![s[1]] + unescape_like_spec(s.skip(2))
    } else {
        seq![s[0]] + unescape_like_spec(s.drop_first())
    }
}

/// Escaping is lossless: decoding the escaped text gives back exactly the
/// raw search text, so the pattern stands for the literal text and for
/// nothing else.
pub proof fn lemma_escape_like_round_trip(s: Seq<char>)
    ensures
        unescape_like_spec(escape_like_spec(s)) == s,
    decreases s.len(),
{
    if s.len() > 0 {
        let rest = s.drop_first();
        lemma_escape_like_round_trip(rest);
        let e = escape_like_spec(s);
        if is_like_meta(s[0]) {
            assert(e =~= seq!['\\', s[0]] + escape_like_spec(rest));
            assert(e[0] == '\\' && e.len() >= 2);
            assert(e.skip(2) =~= escape_like_spec(rest));
            assert(unescape_like_spec(e) =~= seq![s[0]] + rest);
            assert(seq![s[0]] + rest =~= s);
        } else {
            assert(e =~= seq![s[0]] + escape_like_spec(rest));
            assert(e[0] == s[0] && s[0] != '\\');
            assert(e.drop_first() =~= escape_like_spec(rest));
            assert(unescape_like_spec(e) =~= seq![s[0]] + rest);
            assert(seq![s[0]] + rest =~= s);
        }
    }
}

/// The case-insensitive substring pattern built from a raw search text:
/// the escaped text wrapped between wildcards.
pub open spec fn like_pattern_spec(s: Seq<char>) -> Seq<char> {
    seq!['%'] + escape_like_spec(s) + seq!['%']
}

/// Escapes the raw search text and wraps it into a substring pattern, ready
/// to be bound as a query parameter.
pub fn build_like_pattern(search: &str) -> (r: String)
    ensures
        r@ == like_pattern_spec(search@),
{
    let len = search.unicode_len();
    let mut out = String::new();
    out.push('%');
    assert(out@ =~= seq!['%'] + escape_like_spec(search@.subrange(0, 0)));
    let mut i: usize = 0;
    while i < len
        invariant
            len == search@.len(),
            0 <= i <= len,
            out@ == seq!['%'] + escape_like_spec(search@.subrange(0, i as int)),
        decreases len - i,
    {
        let c = search.get_char(i);
        if c == '%' || c == '_' || c == '\\' {
            out.push('\\');
        }
        out.push(c);
        proof {
            assert(search@.subrange(0, i + 1) =~= search@.subrange(0, i as int) + seq![
                search@[i as int],
            ]);
            lemma_escape_like_add(search@.subrange(0, i as int), seq![search@[i as int]]);
            lemma_escape_like_unit(search@[i as int]);
        }
        i = i + 1;
    }
    out.push('%');
    proof {
        assert(search@.subrange(0, len as int) =~= search@);
    }
    out
}

} // verus!
