//! The per-object discovery/description tags every function and table
//! carries: title, narratives for LLMs and humans, keywords (as a JSON array),
//! category, and described example queries (as a JSON list).

use vstd::prelude::*;

use crate::text::{chars_of, string_from, string_of, trim, trim_chars};

verus! {

// ---------------------------------------------------------------------------
// Character sequences
// ---------------------------------------------------------------------------

/// Append the characters of `s` to `out`.
pub fn extend_chars(out: &mut Vec<char>, s: &[char])
    ensures
        final(out)@ == old(out)@ + s@,
{
    let ghost start = out@;
    for i in 0..s.len()
        invariant
            out@ == start + s@.take(i as int),
    {
        out.push(s[i]);
        assert(out@ =~= start + s@.take(i + 1));
    }
    assert(s@.take(s@.len() as int) =~= s@);
}

/// Append the characters of `s` to `out`.
pub fn extend_str(out: &mut Vec<char>, s: &str)
    ensures
        final(out)@ == old(out)@ + s@,
{
    let v = chars_of(s);
    extend_chars(out, v.as_slice());
}

/// `items` joined with `sep` between consecutive items.
pub open spec fn join_with(items: Seq<Seq<char>>, sep: Seq<char>) -> Seq<char>
    decreases items.len(),
{
    if items.len() == 0 {
        Seq::empty()
    } else if items.len() == 1 {
        items[0]
    } else {
        join_with(items.drop_last(), sep) + sep + items.last()
    }
}

/// The views of a sequence of character vectors.
pub open spec fn char_vec_views(v: Seq<Vec<char>>) -> Seq<Seq<char>> {
    v.map_values(|x: Vec<char>| x@)
}

/// `items` joined with `sep` between consecutive items.
pub fn join_chars(items: &Vec<Vec<char>>, sep: char) -> (r: Vec<char>)
    ensures
        r@ == join_with(char_vec_views(items@), seq![sep]),
{
    let ghost iv = char_vec_views(items@);
    let mut out: Vec<char> = Vec::new();
    for i in 0..items.len()
        invariant
            iv == char_vec_views(items@),
            out@ == join_with(iv.take(i as int), seq![sep]),
    {
        let ghost before = out@;
        proof {
            let t = iv.take(i + 1);
            assert(t.drop_last() =~= iv.take(i as int));
            assert(t.last() == items@[i as int]@);
        }
        if i > 0 {
            out.push(sep);
        }
        extend_chars(&mut out, items[i].as_slice());
        proof {
            if i == 0 {
                assert(out@ =~= iv.take(1)[0]);
            } else {
                assert(out@ =~= before + seq![sep] + items@[i as int]@);
            }
        }
    }
    assert(iv.take(items@.len() as int) =~= iv);
    out
}

/// The views of a sequence of text slices.
pub open spec fn str_views(v: Seq<&str>) -> Seq<Seq<char>> {
    v.map_values(|x: &str| x@)
}

/// `items` joined with `sep` between consecutive items.
pub fn join_strs(items: &[&str], sep: &str) -> (r: Vec<char>)
    ensures
        r@ == join_with(str_views(items@), sep@),
{
    let ghost iv = str_views(items@);
    let mut out: Vec<char> = Vec::new();
    for i in 0..items.len()
        invariant
            iv == str_views(items@),
            out@ == join_with(iv.take(i as int), sep@),
    {
        let ghost before = out@;
        proof {
            let t = iv.take(i + 1);
            assert(t.drop_last() =~= iv.take(i as int));
            assert(t.last() == items@[i as int]@);
        }
        if i > 0 {
            extend_str(&mut out, sep);
        }
        extend_str(&mut out, items[i]);
        proof {
            if i == 0 {
                assert(out@ =~= iv.take(1)[0]);
            } else {
                assert(out@ =~= before + sep@ + items@[i as int]@);
            }
        }
    }
    assert(iv.take(items@.len() as int) =~= iv);
    out
}

// ---------------------------------------------------------------------------
// JSON escaping
// ---------------------------------------------------------------------------

/// The lower-case hexadecimal digit of `n` (below 16).
pub open spec fn hex_digit(n: u32) -> char {
    if n < 10 {
        (48 + n) as char
    } else {
        (87 + n) as char
    }
}

/// The JSON escape of one character: quote, backslash, line feed, carriage
/// return and tab by their short escapes, other control characters as
/// `\u00XX` (lower-case hex), everything else as itself.
pub open spec fn json_escape_char(c: char) -> Seq<char> {
    if c == '"' {
        seq!['\\', '"']
    } else if c == '\\' {
        seq!['\\', '\\']
    } else if c == '\n' {
        seq!['\\', 'n']
    } else if c == '\r' {
        seq!['\\', 'r']
    } else if c == '\t' {
        seq!['\\', 't']
    } else if (c as u32) < 0x20 {
        seq!['\\', 'u', '0', '0', hex_digit((c as u32) / 16), hex_digit((c as u32) % 16)]
    } else {
        seq![c]
    }
}

/// The JSON escape of a text, character by character.
pub open spec fn json_escaped(s: Seq<char>) -> Seq<char>
    decreases s.len(),
{
    if s.len() == 0 {
        Seq::empty()
    } else {
        json_escaped(s.drop_last()) + json_escape_char(s.last())
    }
}

/// Executable [`hex_digit`].
fn hex_digit_char(n: u32) -> (r: char)
    requires
        n < 16,
    ensures
        r == hex_digit(n),
{
    if n < 10 {
        (48 + n as u8) as char
    } else {
        (87 + n as u8) as char
    }
}

/// Append the JSON escape of the characters `s` to `out`.
fn push_json_escaped_chars(out: &mut Vec<char>, s: &[char])
    ensures
        final(out)@ == old(out)@ + json_escaped(s@),
{
    let ghost start = out@;
    for i in 0..s.len()
        invariant
            out@ == start + json_escaped(s@.take(i as int)),
    {
        let c = s[i];
        let ghost before = out@;
        if c == '"' {
            out.push('\\');
            out.push('"');
        } else if c == '\\' {
            out.push('\\');
            out.push('\\');
        } else if c == '\n' {
            out.push('\\');
            out.push('n');
        } else if c == '\r' {
            out.push('\\');
            out.push('r');
        } else if c == '\t' {
            out.push('\\');
            out.push('t');
        } else if (c as u32) < 0x20 {
            let code = c as u32;
            out.push('\\');
            out.push('u');
            out.push('0');
            out.push('0');
            out.push(hex_digit_char(code / 16));
            out.push(hex_digit_char(code % 16));
        } else {
            out.push(c);
        }
        proof {
            let t = s@.take(i + 1);
            assert(t.drop_last() =~= s@.take(i as int));
            assert(t.last() == c);
            assert(out@ =~= before + json_escape_char(c));
        }
    }
    assert(s@.take(s@.len() as int) =~= s@);
}

/// Append the JSON escape of `s` to `out`.
fn push_json_escaped(out: &mut Vec<char>, s: &str)
    ensures
        final(out)@ == old(out)@ + json_escaped(s@),
{
    let v = chars_of(s);
    push_json_escaped_chars(out, v.as_slice());
}

/// JSON-escape a single string value (quotes, backslashes, control chars) so it
/// can be embedded in a JSON string literal.
pub fn json_escape(s: &str) -> (r: String)
    ensures
        r@ == json_escaped(s@),
{
    let mut out: Vec<char> = Vec::new();
    push_json_escaped(&mut out, s);
    string_of(&out)
}

// ---------------------------------------------------------------------------
// Reading JSON text back
// ---------------------------------------------------------------------------

/// The value of a hexadecimal digit.
pub open spec fn hex_value(c: char) -> Option<nat> {
    if '0' <= c && c <= '9' {
        Some(((c as u32) - 48) as nat)
    } else if 'a' <= c && c <= 'f' {
        Some(((c as u32) - 87) as nat)
    } else if 'A' <= c && c <= 'F' {
        Some(((c as u32) - 55) as nat)
    } else {
        None
    }
}

/// The character a two-character JSON escape `\e` stands for.
pub open spec fn json_short_escape(e: char) -> Option<char> {
    if e == '"' {
        Some('"')
    } else if e == '\\' {
        Some('\\')
    } else if e == '/' {
        Some('/')
    } else if e == 'b' {
        Some('\u{8}')
    } else if e == 'f' {
        Some('\u{c}')
    } else if e == 'n' {
        Some('\n')
    } else if e == 'r' {
        Some('\r')
    } else if e == 't' {
        Some('\t')
    } else {
        None
    }
}

/// The code point of the four hexadecimal digits `t[1..5]` of a `\u`
/// escape that begins at `t[0] == 'u'`.
pub open spec fn json_hex4(t: Seq<char>) -> Option<nat> {
    match (hex_value(t[1]), hex_value(t[2]), hex_value(t[3]), hex_value(t[4])) {
        (Some(a), Some(b), Some(c), Some(d)) => Some(a * 4096 + b * 256 + c * 16 + d),
        _ => None,
    }
}

/// `c` in front of the text that a read gave, if it gave one.
pub open spec fn prepend_read(c: char, o: Option<(Seq<char>, Seq<char>)>) -> Option<(Seq<char>, Seq<char>)> {
    match o {
        Some((s, rest)) => Some((seq![c] + s, rest)),
        None => None,
    }
}

/// Reads the body of a JSON string (RFC 8259, section 7) up to its closing
/// quote: the characters it stands for and the text after the quote, or
/// `None` where the text is no string body. A `\u` escape of a surrogate
/// (which needs a pair) is not read.
#[verifier::opaque]
pub open spec fn json_string_body(t: Seq<char>) -> Option<(Seq<char>, Seq<char>)>
    decreases t.len(),
{
    if t.len() == 0 {
        None
    } else if t[0] == '"' {
        Some((Seq::empty(), t.drop_first()))
    } else if t[0] == '\\' {
        if t.len() < 2 {
            None
        } else {
            match json_short_escape(t[1]) {
                Some(c) => prepend_read(c, json_string_body(t.subrange(2, t.len() as int))),
                None => if t[1] == 'u' && t.len() >= 6 {
                    match json_hex4(t.subrange(1, 6)) {
                        Some(v) => if v < 0xD800 || (0xE000 <= v && v < 0x10000) {
                            prepend_read(v as char, json_string_body(t.subrange(6, t.len() as int)))
                        } else {
                            None
                        },
                        None => None,
                    }
                } else {
                    None
                },
            }
        }
    } else if (t[0] as u32) < 0x20 {
        None
    } else {
        prepend_read(t[0], json_string_body(t.drop_first()))
    }
}

/// Reading a string body consumes its closing quote, so what is left is
/// shorter.
pub proof fn lemma_json_string_body_shorter(t: Seq<char>)
    ensures
        json_string_body(t) matches Some((s, rest)) ==> rest.len() < t.len(),
    decreases t.len(),
{
    reveal(json_string_body);
    if t.len() > 0 && t[0] != '"' {
        if t[0] == '\\' {
            if t.len() >= 2 {
                lemma_json_string_body_shorter(t.subrange(2, t.len() as int));
                if t.len() >= 6 {
                    lemma_json_string_body_shorter(t.subrange(6, t.len() as int));
                }
            }
        } else {
            lemma_json_string_body_shorter(t.drop_first());
        }
    }
}

/// The text a JSON string literal stands for, or `None` where `t` is no
/// string literal.
pub open spec fn json_string(t: Seq<char>) -> Option<Seq<char>> {
    if t.len() > 0 && t[0] == '"' {
        match json_string_body(t.drop_first()) {
            Some((s, rest)) => if rest.len() == 0 {
                Some(s)
            } else {
                None
            },
            None => None,
        }
    } else {
        None
    }
}

/// The escape of a concatenation is the concatenation of the escapes.
pub proof fn lemma_json_escaped_concat(a: Seq<char>, b: Seq<char>)
    ensures
        json_escaped(a + b) == json_escaped(a) + json_escaped(b),
    decreases b.len(),
{
    if b.len() == 0 {
        assert(a + b =~= a);
        assert(json_escaped(a) + json_escaped(b) =~= json_escaped(a));
    } else {
        assert((a + b).drop_last() =~= a + b.drop_last());
        assert((a + b).last() == b.last());
        lemma_json_escaped_concat(a, b.drop_last());
        assert(json_escaped(a) + json_escaped(b.drop_last()) + json_escape_char(b.last()) =~= json_escaped(
            a,
        ) + json_escaped(b));
    }
}

/// A hexadecimal digit reads back as its value.
proof fn lemma_hex_digit_value(n: u32)
    requires
        n < 16,
    ensures
        hex_value(hex_digit(n)) == Some(n as nat),
{
}

/// Reading the escape of one character gives that character in front of
/// what the rest reads as.
pub proof fn lemma_read_escape_char(c: char, x: Seq<char>)
    ensures
        json_string_body(json_escape_char(c) + x) == prepend_read(c, json_string_body(x)),
{
    reveal(json_string_body);
    let t = json_escape_char(c) + x;
    if c == '"' || c == '\\' || c == '\n' || c == '\r' || c == '\t' {
        assert(t.subrange(2, t.len() as int) =~= x);
    } else if (c as u32) < 0x20 {
        let v = c as u32;
        lemma_hex_digit_value(v / 16);
        lemma_hex_digit_value(v % 16);
        assert(t.subrange(6, t.len() as int) =~= x);
        assert(t.subrange(1, 6) =~= seq!['u', '0', '0', hex_digit(v / 16), hex_digit(v % 16)]);
        assert(json_hex4(t.subrange(1, 6)) == Some(((v / 16) * 16 + v % 16) as nat));
        assert((((v / 16) * 16 + v % 16) as nat) as char == c);
    } else {
        assert(t.drop_first() =~= x);
    }
}

/// The escape of `s`, then a quote, reads back as `s` with the rest left.
pub proof fn lemma_read_escaped(s: Seq<char>, rest: Seq<char>)
    ensures
        json_string_body(json_escaped(s) + seq!['"'] + rest) == Some((s, rest)),
    decreases s.len(),
{
    reveal(json_string_body);
    if s.len() == 0 {
        let t = json_escaped(s) + seq!['"'] + rest;
        assert(t =~= seq!['"'] + rest);
        assert(t.drop_first() =~= rest);
    } else {
        let s0 = s[0];
        let tail = s.drop_first();
        assert(s =~= seq![s0] + tail);
        lemma_json_escaped_concat(seq![s0], tail);
        assert(json_escaped(seq![s0]) =~= json_escape_char(s0)) by {
            assert(seq![s0].drop_last() =~= Seq::<char>::empty());
            assert(seq![s0].last() == s0);
            assert(json_escaped(Seq::<char>::empty()) == Seq::<char>::empty());
            assert(Seq::<char>::empty() + json_escape_char(s0) =~= json_escape_char(s0));
        }
        lemma_read_escaped(tail, rest);
        let x = json_escaped(tail) + seq!['"'] + rest;
        assert(json_escaped(s) + seq!['"'] + rest =~= json_escape_char(s0) + x);
        lemma_read_escape_char(s0, x);
        assert(seq![s0] + tail =~= s);
    }
}

/// Reads `"…"(,"…")*]` to the end of `t`: the texts of the string items of
/// a JSON array after its `[`, or `None`.
pub open spec fn json_string_items(t: Seq<char>) -> Option<Seq<Seq<char>>>
    decreases t.len(),
{
    if t.len() == 0 || t[0] != '"' {
        None
    } else {
        match json_string_body(t.drop_first()) {
            None => None,
            Some((s, r)) => if r.len() == 1 && r[0] == ']' {
                Some(seq![s])
            } else if r.len() > 0 && r[0] == ',' {
                proof {
                    lemma_json_string_body_shorter(t.drop_first());
                }
                match json_string_items(r.drop_first()) {
                    Some(more) => Some(seq![s] + more),
                    None => None,
                }
            } else {
                None
            },
        }
    }
}

/// The texts of a JSON array of strings, or `None` where `t` is no such
/// array. (Only arrays without white space between their tokens are read,
/// which is how this library writes them.)
pub open spec fn json_string_array(t: Seq<char>) -> Option<Seq<Seq<char>>> {
    if t.len() == 2 && t[0] == '[' && t[1] == ']' {
        Some(Seq::empty())
    } else if t.len() > 0 && t[0] == '[' {
        json_string_items(t.drop_first())
    } else {
        None
    }
}

/// A join of two or more items starts with the first item and a separator.
pub proof fn lemma_join_front(items: Seq<Seq<char>>, sep: Seq<char>)
    requires
        items.len() >= 2,
    ensures
        join_with(items, sep) == items[0] + sep + join_with(items.drop_first(), sep),
    decreases items.len(),
{
    if items.len() == 2 {
        assert(items.drop_first().len() == 1);
        assert(items.drop_last().len() == 1);
        assert(join_with(items.drop_last(), sep) == items[0]);
        assert(join_with(items.drop_first(), sep) == items[1]);
    } else {
        let p = items.drop_last();
        lemma_join_front(p, sep);
        assert(p.drop_first() =~= items.drop_first().drop_last());
        assert(items.drop_first().last() == items.last());
        assert(p[0] == items[0]);
        assert(join_with(items, sep) == join_with(p, sep) + sep + items.last());
        assert(join_with(items.drop_first(), sep) == join_with(items.drop_first().drop_last(), sep) + sep
            + items.drop_first().last());
        assert(items[0] + sep + join_with(p.drop_first(), sep) + sep + items.last() =~= items[0] + sep + (
        join_with(p.drop_first(), sep) + sep + items.last()));
    }
}

/// A join of items that are all non-empty is non-empty where there is an
/// item.
pub proof fn lemma_join_nonempty(items: Seq<Seq<char>>, sep: Seq<char>)
    requires
        items.len() >= 1,
        forall|i: int| 0 <= i < items.len() ==> #[trigger] items[i].len() > 0,
    ensures
        join_with(items, sep).len() > 0,
    decreases items.len(),
{
    if items.len() > 1 {
        lemma_join_nonempty(items.drop_last(), sep);
    }
}

/// A string as a JSON string literal.
pub open spec fn json_quoted(k: Seq<char>) -> Seq<char> {
    seq!['"'] + json_escaped(k) + seq!['"']
}

/// The items of a non-empty list, quoted and joined by commas, then `]`,
/// read back as the items.
pub proof fn lemma_read_string_items(xs: Seq<Seq<char>>)
    requires
        xs.len() >= 1,
    ensures
        json_string_items(join_with(xs.map_values(|k: Seq<char>| json_quoted(k)), seq![',']) + seq![']'])
            == Some(xs),
    decreases xs.len(),
{
    let q = xs.map_values(|k: Seq<char>| json_quoted(k));
    let t = join_with(q, seq![',']) + seq![']'];
    let x0 = xs[0];
    if xs.len() == 1 {
        assert(join_with(q, seq![',']) == q[0]);
        assert(t =~= seq!['"'] + (json_escaped(x0) + seq!['"'] + seq![']']));
        assert(t.drop_first() =~= json_escaped(x0) + seq!['"'] + seq![']']);
        lemma_read_escaped(x0, seq![']']);
        assert(seq![x0] =~= xs);
    } else {
        let rest = xs.drop_first();
        lemma_join_front(q, seq![',']);
        assert(q.drop_first() =~= rest.map_values(|k: Seq<char>| json_quoted(k)));
        let tail = join_with(q.drop_first(), seq![',']) + seq![']'];
        assert(t =~= seq!['"'] + (json_escaped(x0) + seq!['"'] + (seq![','] + tail)));
        assert(t.drop_first() =~= json_escaped(x0) + seq!['"'] + (seq![','] + tail));
        lemma_read_escaped(x0, seq![','] + tail);
        assert((seq![','] + tail).drop_first() =~= tail);
        lemma_read_string_items(rest);
        assert(seq![x0] + rest =~= xs);
    }
}

// ---------------------------------------------------------------------------
// Keywords
// ---------------------------------------------------------------------------

/// The pieces of `s` between commas (`str::split(',')`): one more piece
/// than there are commas, empty pieces included.
pub open spec fn split_commas(s: Seq<char>) -> Seq<Seq<char>>
    decreases s.len(),
{
    if s.len() == 0 {
        seq![Seq::empty()]
    } else if s.last() == ',' {
        split_commas(s.drop_last()).push(Seq::empty())
    } else {
        let p = split_commas(s.drop_last());
        p.update(p.len() - 1, p.last().push(s.last()))
    }
}

/// There is always at least one piece.
proof fn lemma_split_commas_nonempty(s: Seq<char>)
    ensures
        split_commas(s).len() >= 1,
    decreases s.len(),
{
    if s.len() > 0 {
        lemma_split_commas_nonempty(s.drop_last());
    }
}

/// The non-empty texts of `s`, in order.
pub open spec fn non_empty(s: Seq<Seq<char>>) -> Seq<Seq<char>>
    decreases s.len(),
{
    if s.len() == 0 {
        s
    } else if s.last().len() > 0 {
        non_empty(s.drop_last()).push(s.last())
    } else {
        non_empty(s.drop_last())
    }
}

/// A keyword as a JSON string literal.
pub open spec fn quoted_keyword(k: Seq<char>) -> Seq<char> {
    json_quoted(k)
}

/// The `vgi.keywords` JSON array of comma-separated `keywords`: each piece
/// trimmed, empty pieces dropped, each keyword JSON-escaped and quoted.
pub open spec fn keywords_json_text(keywords: Seq<char>) -> Seq<char> {
    let items = keyword_terms(keywords);
    seq!['['] + join_with(items.map_values(|k: Seq<char>| quoted_keyword(k)), seq![',']) + seq![']']
}

/// The comma-separated terms of `keywords`, each trimmed, empty ones
/// dropped.
pub open spec fn keyword_terms(keywords: Seq<char>) -> Seq<Seq<char>> {
    non_empty(split_commas(keywords).map_values(|p: Seq<char>| trim(p)))
}

/// The pieces of `v` between commas.
fn split_on_commas(v: &[char]) -> (r: Vec<Vec<char>>)
    ensures
        char_vec_views(r@) == split_commas(v@),
{
    let mut pieces: Vec<Vec<char>> = Vec::new();
    let mut cur: Vec<char> = Vec::new();
    for i in 0..v.len()
        invariant
            char_vec_views(pieces@).push(cur@) == split_commas(v@.take(i as int)),
    {
        let ghost before = char_vec_views(pieces@).push(cur@);
        proof {
            let t = v@.take(i + 1);
            assert(t.drop_last() =~= v@.take(i as int));
            assert(t.last() == v@[i as int]);
            lemma_split_commas_nonempty(v@.take(i as int));
        }
        if v[i] == ',' {
            let done = cur;
            cur = Vec::new();
            pieces.push(done);
            assert(char_vec_views(pieces@).push(cur@) =~= before.push(Seq::empty()));
        } else {
            cur.push(v[i]);
            assert(char_vec_views(pieces@).push(cur@) =~= before.update(
                before.len() - 1,
                before.last().push(v@[i as int]),
            ));
        }
    }
    assert(v@.take(v@.len() as int) =~= v@);
    let ghost before = char_vec_views(pieces@).push(cur@);
    pieces.push(cur);
    assert(char_vec_views(pieces@) =~= before);
    pieces
}

/// Serialize comma-separated `keywords` into the `vgi.keywords` JSON-array form,
/// e.g. `"a, b"` becomes `["a","b"]`. Trims each term and drops empties; values
/// are JSON-escaped so quotes, backslashes and control characters survive.
pub fn keywords_json(keywords: &str) -> (r: String)
    ensures
        r@ == keywords_json_text(keywords@),
{
    let chars = chars_of(keywords);
    let pieces = split_on_commas(chars.as_slice());
    let ghost pv = char_vec_views(pieces@);
    let ghost trimmed = pv.map_values(|p: Seq<char>| trim(p));
    let mut items: Vec<Vec<char>> = Vec::new();
    for i in 0..pieces.len()
        invariant
            pv == char_vec_views(pieces@),
            trimmed == pv.map_values(|p: Seq<char>| trim(p)),
            char_vec_views(items@) == non_empty(trimmed.take(i as int)).map_values(
                |k: Seq<char>| quoted_keyword(k),
            ),
    {
        let t = trim_chars(pieces[i].as_slice());
        let ghost before = char_vec_views(items@);
        proof {
            let tt = trimmed.take(i + 1);
            assert(tt.drop_last() =~= trimmed.take(i as int));
            assert(tt.last() == t@);
        }
        if t.len() > 0 {
            let mut item: Vec<char> = Vec::new();
            item.push('"');
            push_json_escaped_chars(&mut item, t.as_slice());
            item.push('"');
            assert(item@ =~= quoted_keyword(t@));
            items.push(item);
            assert(char_vec_views(items@) =~= before.push(quoted_keyword(t@)));
        } else {
            assert(char_vec_views(items@) =~= before);
        }
    }
    assert(trimmed.take(pieces@.len() as int) =~= trimmed);
    let joined = join_chars(&items, ',');
    let mut out: Vec<char> = Vec::new();
    out.push('[');
    extend_chars(&mut out, joined.as_slice());
    out.push(']');
    assert(out@ =~= keywords_json_text(keywords@));
    string_of(&out)
}

// ---------------------------------------------------------------------------
// Tags
// ---------------------------------------------------------------------------

/// One described example as a JSON object.
pub open spec fn example_json(desc: Seq<char>, sql: Seq<char>) -> Seq<char> {
    "{\"description\":\""@ + json_escaped(desc) + "\",\"sql\":\""@ + json_escaped(sql) + "\"}"@
}

/// The described-example JSON list of `examples`.
pub open spec fn example_queries_json(examples: Seq<(&str, &str)>) -> Seq<char> {
    seq!['['] + join_with(
        examples.map_values(|e: (&str, &str)| example_json(e.0@, e.1@)),
        seq![','],
    ) + seq![']']
}

/// Build a `vgi.example_queries` tag from `(description, sql)` pairs as the
/// described-example JSON list `[{"description":…,"sql":…}]`.
pub fn example_queries_tag(examples: &[(&str, &str)]) -> (r: (String, String))
    ensures
        r.0@ == "vgi.example_queries"@,
        r.1@ == example_queries_json(examples@),
{
    let ghost ev = examples@.map_values(|e: (&str, &str)| example_json(e.0@, e.1@));
    let mut items: Vec<Vec<char>> = Vec::new();
    for i in 0..examples.len()
        invariant
            ev == examples@.map_values(|e: (&str, &str)| example_json(e.0@, e.1@)),
            char_vec_views(items@) == ev.take(i as int),
    {
        let (desc, sql) = examples[i];
        let mut item: Vec<char> = Vec::new();
        extend_str(&mut item, "{\"description\":\"");
        push_json_escaped(&mut item, desc);
        extend_str(&mut item, "\",\"sql\":\"");
        push_json_escaped(&mut item, sql);
        extend_str(&mut item, "\"}");
        let ghost before = char_vec_views(items@);
        assert(item@ =~= example_json(desc@, sql@));
        items.push(item);
        assert(char_vec_views(items@) =~= before.push(example_json(desc@, sql@)));
        assert(ev.take(i + 1) =~= ev.take(i as int).push(ev[i as int]));
    }
    assert(ev.take(examples@.len() as int) =~= ev);
    let joined = join_chars(&items, ',');
    let mut out: Vec<char> = Vec::new();
    out.push('[');
    extend_chars(&mut out, joined.as_slice());
    out.push(']');
    assert(out@ =~= example_queries_json(examples@));
    (string_from("vgi.example_queries"), string_of(&out))
}

/// Reads `{"description":"…","sql":"…"}` objects, comma separated, then
/// `]` to the end of `t`: the (description, sql) pairs of the objects of a
/// JSON array after its `[`, or `None`.
pub open spec fn json_example_items(t: Seq<char>) -> Option<Seq<(Seq<char>, Seq<char>)>>
    decreases t.len(),
{
    if t.len() < 2 || t[0] != '{' || t[1] != '"' {
        None
    } else {
        match json_string_body(t.subrange(2, t.len() as int)) {
            None => None,
            Some((k1, r1)) => if k1 == "description"@ && r1.len() >= 2 && r1[0] == ':' && r1[1] == '"' {
                match json_string_body(r1.subrange(2, r1.len() as int)) {
                    None => None,
                    Some((d, r2)) => if r2.len() >= 2 && r2[0] == ',' && r2[1] == '"' {
                        match json_string_body(r2.subrange(2, r2.len() as int)) {
                            None => None,
                            Some((k2, r3)) => if k2 == "sql"@ && r3.len() >= 2 && r3[0] == ':' && r3[1]
                                == '"' {
                                match json_string_body(r3.subrange(2, r3.len() as int)) {
                                    None => None,
                                    Some((q, r4)) => if r4.len() == 2 && r4[0] == '}' && r4[1] == ']' {
                                        Some(seq![(d, q)])
                                    } else if r4.len() >= 2 && r4[0] == '}' && r4[1] == ',' {
                                        proof {
                                            lemma_json_string_body_shorter(t.subrange(2, t.len() as int));
                                            lemma_json_string_body_shorter(r1.subrange(2, r1.len() as int));
                                            lemma_json_string_body_shorter(r2.subrange(2, r2.len() as int));
                                            lemma_json_string_body_shorter(r3.subrange(2, r3.len() as int));
                                        }
                                        match json_example_items(r4.subrange(2, r4.len() as int)) {
                                            Some(more) => Some(seq![(d, q)] + more),
                                            None => None,
                                        }
                                    } else {
                                        None
                                    },
                                }
                            } else {
                                None
                            },
                        }
                    } else {
                        None
                    },
                }
            } else {
                None
            },
        }
    }
}

/// The (description, sql) pairs of a JSON array of
/// `{"description":…,"sql":…}` objects, or `None` where `t` is no such
/// array. (Only text without white space between its tokens is read, which
/// is how this library writes it.)
pub open spec fn json_example_array(t: Seq<char>) -> Option<Seq<(Seq<char>, Seq<char>)>> {
    if t.len() == 2 && t[0] == '[' && t[1] == ']' {
        Some(Seq::empty())
    } else if t.len() > 0 && t[0] == '[' {
        json_example_items(t.drop_first())
    } else {
        None
    }
}

/// A text with no quote, backslash or control character is its own escape.
pub proof fn lemma_plain_escaped(s: Seq<char>)
    requires
        forall|k: int|
            0 <= k < s.len() ==> #[trigger] s[k] != '"' && s[k] != '\\' && (s[k] as u32) >= 0x20,
    ensures
        json_escaped(s) == s,
    decreases s.len(),
{
    if s.len() > 0 {
        assert(s.last() == s[s.len() - 1]);
        lemma_plain_escaped(s.drop_last());
        assert(json_escaped(s.drop_last()) + seq![s.last()] =~= s);
    }
}

/// One example object, read after the objects before it.
proof fn lemma_read_example(d: Seq<char>, q: Seq<char>, rest: Seq<char>)
    ensures
        ({
            let t = example_json(d, q) + rest;
            &&& t.len() >= 2 && t[0] == '{' && t[1] == '"'
            &&& json_string_body(t.subrange(2, t.len() as int)) == Some(
                ("description"@, seq![':', '"'] + json_escaped(d) + seq!['"', ',', '"'] + "sql"@ + seq!['"', ':', '"']
                    + json_escaped(q) + seq!['"', '}'] + rest),
            )
        }),
{
    reveal_strlit("description");
    reveal_strlit("sql");
    reveal_strlit("{\"description\":\"");
    reveal_strlit("\",\"sql\":\"");
    reveal_strlit("\"}");
    let desc = "description"@;
    lemma_plain_escaped(desc);
    let t = example_json(d, q) + rest;
    let after = seq![':', '"'] + json_escaped(d) + seq!['"', ',', '"'] + "sql"@ + seq!['"', ':', '"']
        + json_escaped(q) + seq!['"', '}'] + rest;
    assert(t =~= seq!['{', '"'] + (json_escaped(desc) + seq!['"'] + after));
    assert(t.subrange(2, t.len() as int) =~= json_escaped(desc) + seq!['"'] + after);
    lemma_read_escaped(desc, after);
}

/// One example object followed by `]` or by `,` and more text reads as its
/// pair, then what the more text reads as.
proof fn lemma_read_example_object(d: Seq<char>, q: Seq<char>, tail: Seq<char>)
    requires
        tail == seq![']'] || (tail.len() >= 1 && tail[0] == ','),
    ensures
        tail == seq![']'] ==> json_example_items(example_json(d, q) + tail) == Some(seq![(d, q)]),
        tail != seq![']'] ==> json_example_items(example_json(d, q) + tail) == match json_example_items(
            tail.drop_first(),
        ) {
            Some(more) => Some(seq![(d, q)] + more),
            None => None,
        },
{
    reveal_strlit("sql");
    let sql = "sql"@;
    lemma_plain_escaped(sql);
    let t = example_json(d, q) + tail;
    lemma_read_example(d, q, tail);
    let r1 = seq![':', '"'] + json_escaped(d) + seq!['"', ',', '"'] + sql + seq!['"', ':', '"']
        + json_escaped(q) + seq!['"', '}'] + tail;
    let r2 = seq![',', '"'] + sql + seq!['"', ':', '"'] + json_escaped(q) + seq!['"', '}'] + tail;
    assert(r1.subrange(2, r1.len() as int) =~= json_escaped(d) + seq!['"'] + r2);
    lemma_read_escaped(d, r2);
    let a2 = seq![':', '"'] + json_escaped(q) + seq!['"', '}'] + tail;
    assert(r2.subrange(2, r2.len() as int) =~= json_escaped(sql) + seq!['"'] + a2);
    lemma_read_escaped(sql, a2);
    let a3 = seq!['}'] + tail;
    assert(a2.subrange(2, a2.len() as int) =~= json_escaped(q) + seq!['"'] + a3);
    lemma_read_escaped(q, a3);
    assert(a3[0] == '}');
    if tail == seq![']'] {
        assert(a3 =~= seq!['}', ']']);
    } else {
        assert(a3[1] == ',');
        assert(a3.subrange(2, a3.len() as int) =~= tail.drop_first());
    }
}

/// The example objects of a non-empty list, joined by commas, then `]`,
/// read back as the pairs.
pub proof fn lemma_read_example_items(es: Seq<(Seq<char>, Seq<char>)>)
    requires
        es.len() >= 1,
    ensures
        json_example_items(
            join_with(es.map_values(|e: (Seq<char>, Seq<char>)| example_json(e.0, e.1)), seq![','])
                + seq![']'],
        ) == Some(es),
    decreases es.len(),
{
    let objs = es.map_values(|e: (Seq<char>, Seq<char>)| example_json(e.0, e.1));
    let t = join_with(objs, seq![',']) + seq![']'];
    let d = es[0].0;
    let q = es[0].1;
    assert(objs[0] == example_json(d, q));
    if es.len() == 1 {
        assert(join_with(objs, seq![',']) == objs[0]);
        assert(t =~= example_json(d, q) + seq![']']);
        lemma_read_example_object(d, q, seq![']']);
        assert(seq![(d, q)] =~= es);
    } else {
        let more = es.drop_first();
        lemma_join_front(objs, seq![',']);
        let inner = join_with(objs.drop_first(), seq![',']) + seq![']'];
        let tail = seq![','] + inner;
        assert(t =~= example_json(d, q) + tail);
        assert(tail != seq![']']) by {
            assert(tail[0] == ',');
        }
        lemma_read_example_object(d, q, tail);
        assert(tail.drop_first() =~= inner);
        assert(objs.drop_first() =~= more.map_values(|e: (Seq<char>, Seq<char>)| example_json(e.0, e.1)));
        lemma_read_example_items(more);
        assert(seq![(d, q)] + more =~= es);
    }
}

/// The views of a list of tags.
pub open spec fn tag_views(v: Seq<(String, String)>) -> Seq<(Seq<char>, Seq<char>)> {
    v.map_values(|t: (String, String)| (t.0@, t.1@))
}

/// Build the standard per-object discovery/description tags. `keywords` is
/// given comma-separated and serialized to the JSON-array form;
/// `_relative_path` (the implementing file) is accepted for call-site
/// documentation but not emitted.
pub fn object_tags(
    title: &str,
    doc_llm: &str,
    doc_md: &str,
    keywords: &str,
    category: &str,
    _relative_path: &str,
) -> (r: Vec<(String, String)>)
    ensures
        tag_views(r@) == seq![
            ("vgi.title"@, title@),
            ("vgi.doc_llm"@, doc_llm@),
            ("vgi.doc_md"@, doc_md@),
            ("vgi.keywords"@, keywords_json_text(keywords@)),
            ("vgi.category"@, category@),
        ],
{
    let mut v: Vec<(String, String)> = Vec::new();
    v.push((string_from("vgi.title"), string_from(title)));
    v.push((string_from("vgi.doc_llm"), string_from(doc_llm)));
    v.push((string_from("vgi.doc_md"), string_from(doc_md)));
    v.push((string_from("vgi.keywords"), keywords_json(keywords)));
    // The category names one of the schema's categories, placing the object
    // in the worker's navigation sections.
    v.push((string_from("vgi.category"), string_from(category)));
    assert(tag_views(v@) =~= seq![
        ("vgi.title"@, title@),
        ("vgi.doc_llm"@, doc_llm@),
        ("vgi.doc_md"@, doc_md@),
        ("vgi.keywords"@, keywords_json_text(keywords@)),
        ("vgi.category"@, category@),
    ]);
    v
}

} // verus!
