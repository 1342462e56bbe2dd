//! Character-level text helpers and their specifications: Unicode white
//! space, trimming, ASCII lower-casing, line splitting, and building strings.

use vstd::prelude::*;
use vstd::string::{StrSliceExecFns, StringExecFns};

verus! {

/// Unicode `White_Space` (what `char::is_whitespace` tests).
pub open spec fn is_ws(c: char) -> bool {
    ||| ('\u{9}' <= c && c <= '\u{d}')
    ||| c == ' '
    ||| c == '\u{85}'
    ||| c == '\u{a0}'
    ||| c == '\u{1680}'
    ||| ('\u{2000}' <= c && c <= '\u{200a}')
    ||| c == '\u{2028}'
    ||| c == '\u{2029}'
    ||| c == '\u{202f}'
    ||| c == '\u{205f}'
    ||| c == '\u{3000}'
}

/// Executable [`is_ws`].
pub fn is_whitespace(c: char) -> (r: bool)
    ensures
        r == is_ws(c),
{
    ('\u{9}' <= c && c <= '\u{d}') || c == ' ' || c == '\u{85}' || c == '\u{a0}' || c == '\u{1680}'
        || ('\u{2000}' <= c && c <= '\u{200a}') || c == '\u{2028}' || c == '\u{2029}' || c
        == '\u{202f}' || c == '\u{205f}' || c == '\u{3000}'
}

/// Every character of `s` is white space.
pub open spec fn all_ws(s: Seq<char>) -> bool {
    forall|k: int| 0 <= k < s.len() ==> is_ws(#[trigger] s[k])
}

/// `s` with leading white space removed.
pub open spec fn trim_start(s: Seq<char>) -> Seq<char>
    decreases s.len(),
{
    if s.len() > 0 && is_ws(s[0]) {
        trim_start(s.drop_first())
    } else {
        s
    }
}

/// `s` with trailing white space removed.
pub open spec fn trim_end(s: Seq<char>) -> Seq<char>
    decreases s.len(),
{
    if s.len() > 0 && is_ws(s.last()) {
        trim_end(s.drop_last())
    } else {
        s
    }
}

/// `s` with leading and trailing white space removed (`str::trim`).
pub open spec fn trim(s: Seq<char>) -> Seq<char> {
    trim_end(trim_start(s))
}

/// ASCII lower-casing of one character (`char::to_ascii_lowercase`).
pub open spec fn ascii_lower_char(c: char) -> char {
    if 'A' <= c && c <= 'Z' {
        ((c as u32) + 32) as char
    } else {
        c
    }
}

/// ASCII lower-casing of a text (`str::to_ascii_lowercase`).
pub open spec fn ascii_lower(s: Seq<char>) -> Seq<char> {
    s.map_values(|c: char| ascii_lower_char(c))
}

/// ASCII upper-casing of one character (`char::to_ascii_uppercase`).
pub open spec fn ascii_upper_char(c: char) -> char {
    if 'a' <= c && c <= 'z' {
        ((c as u32) - 32) as char
    } else {
        c
    }
}

/// ASCII upper-casing of a text (`str::to_ascii_uppercase`).
pub open spec fn ascii_upper(s: Seq<char>) -> Seq<char> {
    s.map_values(|c: char| ascii_upper_char(c))
}

/// The characters of `s`, in order.
pub fn chars_of(s: &str) -> (r: Vec<char>)
    ensures
        r@ == s@,
{
    broadcast use vstd::string::group_string_axioms;
    let mut r: Vec<char> = Vec::new();
    for c in it: s.chars()
        invariant
            it.seq() == s@,
            r@ == it.seq().take(it.index()),
    {
        r.push(c);
    }
    r
}

/// `String::push`: appends one character.
#[verifier::external_body]
fn push_char(s: &mut String, c: char)
    ensures
        final(s)@ == old(s)@.push(c),
{
    s.push(c);
}

/// A `String` holding the characters of `v`.
pub fn string_of(v: &Vec<char>) -> (r: String)
    ensures
        r@ == v@,
{
    let mut r = String::new();
    for i in 0..v.len()
        invariant
            r@ == v@.take(i as int),
    {
        push_char(&mut r, v[i]);
    }
    r
}

/// A `String` holding the characters of `s`.
pub fn string_from(s: &str) -> (r: String)
    ensures
        r@ == s@,
{
    String::from_str(s)
}

/// Whether the characters of `v` are exactly those of `lit`.
pub fn eq_str(v: &[char], lit: &str) -> (r: bool)
    ensures
        r == (v@ == lit@),
{
    let n = lit.unicode_len();
    if v.len() != n {
        return false;
    }
    for i in 0..n
        invariant
            n == lit@.len(),
            v@.len() == n,
            forall|k: int| 0 <= k < i ==> v@[k] == lit@[k],
    {
        if v[i] != lit.get_char(i) {
            return false;
        }
    }
    assert(v@ =~= lit@);
    true
}

/// Moving past a leading white-space character leaves `trim_start` unchanged.
proof fn lemma_trim_start_step(s: Seq<char>, i: int)
    requires
        0 <= i < s.len(),
        is_ws(s[i]),
    ensures
        trim_start(s.subrange(i, s.len() as int)) == trim_start(s.subrange(i + 1, s.len() as int)),
{
    assert(s.subrange(i, s.len() as int).drop_first() =~= s.subrange(i + 1, s.len() as int));
}

/// Dropping a trailing white-space character leaves `trim_end` unchanged.
proof fn lemma_trim_end_step(s: Seq<char>, j: int)
    requires
        0 < j <= s.len(),
        is_ws(s[j - 1]),
    ensures
        trim_end(s.subrange(0, j)) == trim_end(s.subrange(0, j - 1)),
{
    assert(s.subrange(0, j).drop_last() =~= s.subrange(0, j - 1));
}

/// `trim` of `v` (`str::trim`).
pub fn trim_chars(v: &[char]) -> (r: Vec<char>)
    ensures
        r@ == trim(v@),
{
    let n = v.len();
    let mut i: usize = 0;
    assert(v@.subrange(0, n as int) =~= v@);
    while i < n && is_whitespace(v[i])
        invariant
            i <= n,
            n == v@.len(),
            trim_start(v@) == trim_start(v@.subrange(i as int, n as int)),
        decreases n - i,
    {
        proof {
            lemma_trim_start_step(v@, i as int);
        }
        i = i + 1;
    }
    let ghost t = v@.subrange(i as int, n as int);
    assert(trim_start(v@) == t) by {
        if i < n {
        } else {
            assert(t.len() == 0);
        }
    }
    let mut j: usize = n;
    while j > i && is_whitespace(v[j - 1])
        invariant
            i <= j <= n,
            n == v@.len(),
            t == v@.subrange(i as int, n as int),
            trim_end(t) == trim_end(v@.subrange(i as int, j as int)),
        decreases j,
    {
        proof {
            let u = v@.subrange(i as int, j as int);
            lemma_trim_end_step(u, (j - i) as int);
            assert(u.subrange(0, (j - i) as int) =~= u);
            assert(u.subrange(0, (j - i - 1) as int) =~= v@.subrange(i as int, (j - 1) as int));
        }
        j = j - 1;
    }
    let mut r: Vec<char> = Vec::new();
    for k in i..j
        invariant
            i <= j <= n,
            n == v@.len(),
            r@ == v@.subrange(i as int, k as int),
    {
        r.push(v[k]);
        assert(r@ =~= v@.subrange(i as int, k + 1));
    }
    proof {
        let u = v@.subrange(i as int, j as int);
        if u.len() > 0 {
            assert(u.last() == v@[j - 1]);
        }
    }
    r
}

/// Executable [`ascii_lower_char`].
pub fn to_ascii_lower(c: char) -> (r: char)
    ensures
        r == ascii_lower_char(c),
{
    if 'A' <= c && c <= 'Z' {
        let b = (c as u8) + 32;
        b as char
    } else {
        c
    }
}

/// [`ascii_lower`] of `v`.
pub fn ascii_lower_chars(v: &[char]) -> (r: Vec<char>)
    ensures
        r@ == ascii_lower(v@),
{
    let mut r: Vec<char> = Vec::new();
    for i in 0..v.len()
        invariant
            r@ == ascii_lower(v@.take(i as int)),
    {
        r.push(to_ascii_lower(v[i]));
        assert(ascii_lower(v@.take(i + 1)) =~= ascii_lower(v@.take(i as int)).push(ascii_lower_char(v@[i as int])));
    }
    assert(v@.take(v.len() as int) =~= v@);
    r
}

/// The index of the first line feed at or after `i`, or the length of `s`
/// where there is none.
pub open spec fn line_end(s: Seq<char>, i: int) -> int
    decreases s.len() - i,
{
    if i >= s.len() {
        s.len() as int
    } else if s[i] == '\n' {
        i
    } else {
        line_end(s, i + 1)
    }
}

/// `line_end` lies between its start and the end of the text.
pub proof fn lemma_line_end_bounds(s: Seq<char>, i: int)
    requires
        0 <= i <= s.len(),
    ensures
        i <= line_end(s, i) <= s.len(),
        line_end(s, i) < s.len() ==> s[line_end(s, i)] == '\n',
    decreases s.len() - i,
{
    if i < s.len() && s[i] != '\n' {
        lemma_line_end_bounds(s, i + 1);
    }
}

/// Where no line feed stands in `[start, i)` and `i` ends the text or holds
/// a line feed, the line that starts at `start` ends at `i`.
pub proof fn lemma_line_end_at(s: Seq<char>, start: int, i: int)
    requires
        0 <= start <= i <= s.len(),
        forall|k: int| start <= k < i ==> s[k] != '\n',
        i == s.len() || s[i] == '\n',
    ensures
        line_end(s, start) == i,
    decreases i - start,
{
    if start < i {
        lemma_line_end_at(s, start + 1, i);
    }
}

/// A line terminated by a line feed loses one trailing carriage return.
pub open spec fn strip_cr(l: Seq<char>) -> Seq<char> {
    if l.len() > 0 && l.last() == '\r' {
        l.drop_last()
    } else {
        l
    }
}

/// The lines of `s` from position `i` on, as `str::lines` yields them: the
/// text is split after each line feed, a final empty piece is not a line,
/// and each line loses its line feed and, before it, one carriage return.
pub open spec fn lines_from(s: Seq<char>, i: int) -> Seq<Seq<char>>
    decreases s.len() - i,
{
    if i < 0 || i >= s.len() {
        Seq::empty()
    } else {
        let e = line_end(s, i);
        proof {
            lemma_line_end_bounds(s, i);
        }
        if e < s.len() {
            seq![strip_cr(s.subrange(i, e))] + lines_from(s, e + 1)
        } else {
            seq![s.subrange(i, e)]
        }
    }
}

/// The lines of `s` (`str::lines`).
pub open spec fn lines(s: Seq<char>) -> Seq<Seq<char>> {
    lines_from(s, 0)
}

/// For each line, whether it is blank (all white space).
pub open spec fn blank_flags(ls: Seq<Seq<char>>) -> Seq<bool> {
    ls.map_values(|l: Seq<char>| all_ws(l))
}

/// Dropping a carriage return does not change whether a line is blank.
proof fn lemma_strip_cr_blank(l: Seq<char>)
    ensures
        all_ws(strip_cr(l)) == all_ws(l),
{
    if l.len() > 0 && l.last() == '\r' {
        assert(is_ws(l.last()));
        if all_ws(strip_cr(l)) {
            assert forall|k: int| 0 <= k < l.len() implies is_ws(#[trigger] l[k]) by {
                if k < l.len() - 1 {
                    assert(strip_cr(l)[k] == l[k]);
                }
            }
        }
    }
}

/// For each line of `v`, whether it is blank; its length is the number of
/// lines.
pub fn line_blank_flags(v: &[char]) -> (r: Vec<bool>)
    ensures
        r@ == blank_flags(lines(v@)),
{
    let n = v.len();
    let mut r: Vec<bool> = Vec::new();
    let mut start: usize = 0;
    let mut blank = true;
    for i in 0..n
        invariant
            n == v@.len(),
            start <= i,
            forall|k: int| start <= k < i ==> v@[k] != '\n',
            blank == all_ws(v@.subrange(start as int, i as int)),
            blank_flags(lines(v@)) == r@ + blank_flags(lines_from(v@, start as int)),
    {
        if v[i] == '\n' {
            proof {
                lemma_line_end_at(v@, start as int, i as int);
                let seg = v@.subrange(start as int, i as int);
                lemma_strip_cr_blank(seg);
                let rest = lines_from(v@, i + 1);
                assert(lines_from(v@, start as int) == seq![strip_cr(seg)] + rest);
                assert(blank_flags(seq![strip_cr(seg)] + rest) =~= seq![all_ws(seg)] + blank_flags(rest));
                assert(r@.push(blank) + blank_flags(rest) =~= r@ + (seq![blank] + blank_flags(rest)));
            }
            r.push(blank);
            start = i + 1;
            blank = true;
            assert(v@.subrange(start as int, start as int).len() == 0);
        } else {
            let w = is_whitespace(v[i]);
            proof {
                let a = v@.subrange(start as int, i as int);
                let b = v@.subrange(start as int, i + 1);
                assert(b =~= a.push(v@[i as int]));
                if blank && w {
                    assert forall|k: int| 0 <= k < b.len() implies is_ws(#[trigger] b[k]) by {
                        if k < a.len() {
                            assert(b[k] == a[k]);
                        }
                    }
                }
                if !w {
                    assert(!is_ws(b[b.len() - 1]));
                }
                if !blank {
                    let k = choose|k: int| 0 <= k < a.len() && !is_ws(#[trigger] a[k]);
                    assert(b[k] == a[k]);
                }
            }
            blank = blank && w;
        }
    }
    if start < n {
        proof {
            lemma_line_end_at(v@, start as int, n as int);
            let seg = v@.subrange(start as int, n as int);
            assert(lines_from(v@, start as int) == seq![seg]);
            assert(blank_flags(seq![seg]) =~= seq![all_ws(seg)]);
        }
        r.push(blank);
    } else {
        assert(blank_flags(lines_from(v@, start as int)) =~= Seq::<bool>::empty());
        assert(r@ + Seq::<bool>::empty() =~= r@);
    }
    r
}

} // verus!
