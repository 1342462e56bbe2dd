//! Properties of the library as a whole, relating its functions to each
//! other.

use vstd::prelude::*;

use crate::extract::{
    Capture, CaptureView, capture_texts_of, capture_views, comments_query_text, extraction_ok, imports_query_text,
    invalid_query_message, query_outcome, strings_query_text,
    query_texts_outcome, string_views, symbols_query_text,
};
use crate::lang::{AnalyzeError, Lang, SUPPORTED, after_last_dot, lang_from_name, lang_name, lang_of_extension, lang_of_filename, lang_of_id};
use crate::meta::{
    json_escape_char, json_escaped, json_quoted, json_string, json_string_array, keyword_terms,
    keywords_json_text, lemma_read_escaped, lemma_read_string_items, quoted_keyword, example_json,
    example_queries_json, json_example_array, lemma_join_nonempty, lemma_read_example_items,
};
use crate::parsing::{
    MAX_SOURCE_BYTES, LineSpan, byte_len, lemma_bytes_at_least_chars, lemma_count_code_bounds,
    lemma_lines_from_len, loc_of, loc_outcome, count_code, touched,
};
use crate::symbols::{
    SymbolView, count_function_symbols, drop_suffix, ends_with, lemma_count_function_symbols_le,
    lemma_sort_by_lines, pairing, sort_by_lines, symbol_list, symbols_or_none,
};
use crate::text::{ascii_lower, ascii_lower_char, ascii_upper, ascii_upper_char, blank_flags, is_ws, line_end, lemma_line_end_at, lemma_line_end_bounds, lines, lines_from, trim, trim_end, trim_start};
use crate::meta::{join_with, str_views};
use crate::parsing::has_substr;
use vstd::utf8::encode_utf8;
use crate::ts::ts_query_new;

verus! {

/// A text with no white space at either end and no upper-case ASCII letter
/// is its own normalized form.
proof fn lemma_normal_form(s: Seq<char>)
    requires
        s.len() > 0,
        !is_ws(s[0]),
        !is_ws(s.last()),
        forall|k: int| 0 <= k < s.len() ==> !('A' <= #[trigger] s[k] && s[k] <= 'Z'),
    ensures
        ascii_lower(trim(s)) == s,
{
    assert(trim_start(s) == s);
    assert(trim_end(s) == s);
    assert(ascii_lower(s) =~= s);
}

/// Every language's canonical id names that language: `Lang::from_name`
/// of `Lang::name` gives the language back.
pub proof fn law_name_roundtrip(l: Lang)
    ensures
        lang_from_name(lang_name(l)) == Some(l),
{
    reveal_strlit("rust");
    reveal_strlit("rs");
    reveal_strlit("python");
    reveal_strlit("py");
    reveal_strlit("javascript");
    reveal_strlit("js");
    reveal_strlit("jsx");
    reveal_strlit("mjs");
    reveal_strlit("cjs");
    reveal_strlit("typescript");
    reveal_strlit("ts");
    reveal_strlit("go");
    reveal_strlit("golang");
    reveal_strlit("java");
    reveal_strlit("c");
    reveal_strlit("h");
    reveal_strlit("cpp");
    reveal_strlit("c++");
    reveal_strlit("cxx");
    reveal_strlit("cc");
    reveal_strlit("hpp");
    reveal_strlit("hxx");
    reveal_strlit("json");
    let s = lang_name(l);
    match l {
        Lang::Rust => assert(s =~= seq!['r', 'u', 's', 't']),
        Lang::Python => assert(s =~= seq!['p', 'y', 't', 'h', 'o', 'n']),
        Lang::JavaScript => assert(s =~= seq!['j', 'a', 'v', 'a', 's', 'c', 'r', 'i', 'p', 't']),
        Lang::TypeScript => assert(s =~= seq!['t', 'y', 'p', 'e', 's', 'c', 'r', 'i', 'p', 't']),
        Lang::Go => assert(s =~= seq!['g', 'o']),
        Lang::Java => assert(s =~= seq!['j', 'a', 'v', 'a']),
        Lang::C => assert(s =~= seq!['c']),
        Lang::Cpp => assert(s =~= seq!['c', 'p', 'p']),
        Lang::Json => assert(s =~= seq!['j', 's', 'o', 'n']),
    }
    lemma_normal_form(s);
    assert(lang_of_id(s) == Some(l));
}

/// `SUPPORTED` lists the canonical ids of the languages, one each, in the
/// stable order, and each of them resolves to its language.
pub proof fn law_supported_are_the_canonical_ids()
    ensures
        str_views(SUPPORTED@) == seq![
            lang_name(Lang::Rust),
            lang_name(Lang::Python),
            lang_name(Lang::JavaScript),
            lang_name(Lang::TypeScript),
            lang_name(Lang::Go),
            lang_name(Lang::Java),
            lang_name(Lang::C),
            lang_name(Lang::Cpp),
            lang_name(Lang::Json),
        ],
        forall|i: int| 0 <= i < 9 ==> #[trigger] lang_from_name(SUPPORTED@[i]@) is Some,
{
    assert(str_views(SUPPORTED@) =~= seq![
        lang_name(Lang::Rust),
        lang_name(Lang::Python),
        lang_name(Lang::JavaScript),
        lang_name(Lang::TypeScript),
        lang_name(Lang::Go),
        lang_name(Lang::Java),
        lang_name(Lang::C),
        lang_name(Lang::Cpp),
        lang_name(Lang::Json),
    ]);
    law_name_roundtrip(Lang::Rust);
    law_name_roundtrip(Lang::Python);
    law_name_roundtrip(Lang::JavaScript);
    law_name_roundtrip(Lang::TypeScript);
    law_name_roundtrip(Lang::Go);
    law_name_roundtrip(Lang::Java);
    law_name_roundtrip(Lang::C);
    law_name_roundtrip(Lang::Cpp);
    law_name_roundtrip(Lang::Json);
    assert forall|i: int| 0 <= i < 9 implies #[trigger] lang_from_name(SUPPORTED@[i]@) is Some by {
        assert(SUPPORTED@[i]@ == str_views(SUPPORTED@)[i]);
    }
}

/// The language inferred from a file name is one the other functions
/// accept: its id resolves back to it.
pub proof fn law_inferred_language_resolves(filename: Seq<char>)
    ensures
        lang_of_filename(filename) matches Some(l) ==> lang_from_name(lang_name(l)) == Some(l),
{
    if let Some(l) = lang_of_filename(filename) {
        law_name_roundtrip(l);
    }
}

/// Lines of code never exceed the physical line count: every code line is
/// a line.
pub proof fn law_loc_at_most_lines(source: Seq<char>, spans: Seq<LineSpan>)
    ensures
        0 <= loc_of(source, spans) <= lines(source).len(),
{
    lemma_count_code_bounds(blank_flags(lines(source)), spans, lines(source).len() as int);
}

/// What `loc` gives is at most what `count_lines` gives for the same source.
pub proof fn law_loc_at_most_count_lines(lang: Lang, source: &str, n: i32)
    requires
        loc_outcome(lang, source, Ok(n)),
    ensures
        n <= lines(source@).len() as i32,
        0 <= n,
{
    if source@.len() > 0 {
        lemma_lines_from_len(source@, 0);
        lemma_bytes_at_least_chars(source@);
        let spans = crate::parsing::tree_spans(lang, source@);
        law_loc_at_most_lines(source@, spans);
        assert(lines(source@).len() <= MAX_SOURCE_BYTES);
    } else {
        assert(lines(source@) =~= Seq::<Seq<char>>::empty());
    }
}

/// A trailing line feed does not add a line: a non-empty text that does not
/// end in a line feed has as many lines as the same text with one appended.
pub proof fn law_trailing_newline_adds_no_line(s: Seq<char>)
    requires
        s.len() > 0,
        s.last() != '\n',
    ensures
        lines(s.push('\n')).len() == lines(s).len(),
{
    lemma_lines_push_newline(s, 0);
}

/// From any position, appending a line feed to a text that does not end in
/// one leaves the number of lines from there unchanged.
proof fn lemma_lines_push_newline(s: Seq<char>, i: int)
    requires
        s.len() > 0,
        s.last() != '\n',
        0 <= i <= s.len(),
    ensures
        i < s.len() ==> lines_from(s.push('\n'), i).len() == lines_from(s, i).len(),
    decreases s.len() - i,
{
    let t = s.push('\n');
    if i < s.len() {
        lemma_line_end_bounds(s, i);
        lemma_line_end_bounds(t, i);
        let e = line_end(s, i);
        assert forall|k: int| i <= k < e implies s[k] != '\n' by {
            lemma_line_end_first(s, i, k);
        }
        if e < s.len() {
            lemma_line_end_at(t, i, e);
            lemma_line_end_bounds(s, e + 1);
            if e + 1 < s.len() {
                lemma_lines_push_newline(s, e + 1);
            } else {
                // The line feed at `e` would be the last character.
                assert(false);
            }
        } else {
            lemma_line_end_at(t, i, s.len() as int);
            assert(lines_from(t, s.len() + 1int).len() == 0);
        }
    }
}

/// No line feed stands before `line_end`.
proof fn lemma_line_end_first(s: Seq<char>, i: int, k: int)
    requires
        0 <= i <= k < line_end(s, i),
        line_end(s, i) <= s.len(),
    ensures
        s[k] != '\n',
    decreases k - i,
{
    if i < k {
        lemma_line_end_first(s, i + 1, k);
    }
}

/// There are never more function definitions than symbols.
pub proof fn law_function_count_at_most_symbols(lang: Lang, source: &str)
    ensures
        count_function_symbols(symbols_or_none(lang, source)) <= symbols_or_none(lang, source).len(),
{
    lemma_count_function_symbols_le(symbols_or_none(lang, source));
}

/// `ts_query` gives the texts of the captures `ts_nodes` gives: for the same
/// source, language and query, both succeed or both fail, and on success
/// the texts are the captures' texts in order.
pub proof fn law_query_texts_are_capture_texts(
    lang: Lang,
    source: &str,
    query: Seq<char>,
    caps: Result<Vec<Capture>, crate::lang::AnalyzeError>,
    texts: Result<Vec<String>, crate::lang::AnalyzeError>,
)
    requires
        query_outcome(lang, source, query, caps),
        query_texts_outcome(lang, source, query, texts),
    ensures
        caps is Ok <==> texts is Ok,
        caps matches Ok(c) ==> texts matches Ok(t) && string_views(t@) == capture_texts_of(
            capture_views(c@),
        ),
{
    if source@.len() == 0 {
        if let (Ok(c), Ok(t)) = (caps, texts) {
            assert(capture_views(c@) =~= Seq::empty());
            assert(string_views(t@) =~= Seq::empty());
            assert(capture_texts_of(capture_views(c@)) =~= Seq::empty());
        }
    }
}

/// An extraction gives the texts `ts_query` gives with the extraction's
/// query, wherever it runs at all.
pub proof fn law_extraction_is_query_texts(
    lang: Lang,
    source: &str,
    query: Seq<char>,
    extracted: Seq<Seq<char>>,
    texts: Result<Vec<String>, crate::lang::AnalyzeError>,
)
    requires
        query.len() > 0,
        extraction_ok(lang, source, query, extracted),
        query_texts_outcome(lang, source, query, texts),
    ensures
        texts matches Ok(t) ==> extracted == string_views(t@),
        texts is Err ==> extracted.len() == 0,
{
    if source@.len() == 0 {
        if let Ok(t) = texts {
            assert(string_views(t@) =~= Seq::empty());
        }
    }
}

/// JSON has no comment node, so no comments are ever extracted from it.
pub proof fn law_json_has_no_comments(source: &str, extracted: Seq<Seq<char>>)
    requires
        extraction_ok(Lang::Json, source, comments_query_text(Lang::Json), extracted),
    ensures
        extracted.len() == 0,
{
    reveal_strlit("");
}

/// JSON has no symbols query, so no function definitions are ever counted
/// in it.
pub proof fn law_json_has_no_symbols_query()
    ensures
        symbols_query_text(Lang::Json).len() == 0,
{
    reveal_strlit("");
}

/// The JSON escape leaves no control character unescaped: every character
/// of the escaped text is at or above U+0020, so it can stand inside a JSON
/// string literal.
pub proof fn law_json_escape_has_no_control_chars(s: Seq<char>)
    ensures
        forall|k: int| 0 <= k < json_escaped(s).len() ==> (#[trigger] json_escaped(s)[k] as u32) >= 0x20,
    decreases s.len(),
{
    if s.len() > 0 {
        law_json_escape_has_no_control_chars(s.drop_last());
        let p = json_escaped(s.drop_last());
        let e = json_escape_char(s.last());
        let c = s.last();
        assert forall|k: int| 0 <= k < e.len() implies (#[trigger] e[k] as u32) >= 0x20 by {
            if !(c == '"' || c == '\\' || c == '\n' || c == '\r' || c == '\t') && (c as u32) < 0x20 {
                let v = c as u32;
                assert(v / 16 < 2);
                assert(v % 16 < 16);
            }
        }
        assert forall|k: int| 0 <= k < json_escaped(s).len() implies (#[trigger] json_escaped(s)[k] as u32)
            >= 0x20 by {
            if k < p.len() {
                assert(json_escaped(s)[k] == p[k]);
            } else {
                assert(json_escaped(s)[k] == e[k - p.len()]);
            }
        }
    }
}

/// Malformed source is never an error: for two non-empty sources within
/// the size bound, running the same query in the same language succeeds for
/// both or fails for both, with the same error. Only the language, the query
/// and the size decide failure, never what the source says.
pub proof fn law_source_text_never_decides_query_failure(
    lang: Lang,
    s1: &str,
    s2: &str,
    query: Seq<char>,
    r1: Result<Vec<Capture>, AnalyzeError>,
    r2: Result<Vec<Capture>, AnalyzeError>,
)
    requires
        s1@.len() > 0,
        s2@.len() > 0,
        byte_len(s1) <= MAX_SOURCE_BYTES,
        byte_len(s2) <= MAX_SOURCE_BYTES,
        query_outcome(lang, s1, query, r1),
        query_outcome(lang, s2, query, r2),
    ensures
        r1 is Ok <==> r2 is Ok,
        r1 matches Err(e1) ==> r2 matches Err(e2) && e1@ == e2@,
{
}

/// Malformed source is never an error for `loc` either: for two non-empty
/// sources within the size bound, `loc` in the same language succeeds for
/// both or fails for both, with the same error.
pub proof fn law_source_text_never_decides_loc_failure(
    lang: Lang,
    s1: &str,
    s2: &str,
    r1: Result<i32, AnalyzeError>,
    r2: Result<i32, AnalyzeError>,
)
    requires
        s1@.len() > 0,
        s2@.len() > 0,
        byte_len(s1) <= MAX_SOURCE_BYTES,
        byte_len(s2) <= MAX_SOURCE_BYTES,
        loc_outcome(lang, s1, r1),
        loc_outcome(lang, s2, r2),
    ensures
        r1 is Ok <==> r2 is Ok,
        r1 matches Err(e1) ==> r2 matches Err(e2) && e1@ == e2@,
{
}

/// A character is white space exactly when its ASCII lower-case form is.
proof fn lemma_lower_keeps_ws(c: char)
    ensures
        is_ws(ascii_lower_char(c)) == is_ws(c),
{
}

/// Lower-casing commutes with trimming the start.
proof fn lemma_lower_trim_start(s: Seq<char>)
    ensures
        trim_start(ascii_lower(s)) == ascii_lower(trim_start(s)),
    decreases s.len(),
{
    if s.len() > 0 {
        lemma_lower_keeps_ws(s[0]);
        assert(ascii_lower(s)[0] == ascii_lower_char(s[0]));
        if is_ws(s[0]) {
            assert(ascii_lower(s).drop_first() =~= ascii_lower(s.drop_first()));
            lemma_lower_trim_start(s.drop_first());
        }
    }
}

/// Lower-casing commutes with trimming the end.
proof fn lemma_lower_trim_end(s: Seq<char>)
    ensures
        trim_end(ascii_lower(s)) == ascii_lower(trim_end(s)),
    decreases s.len(),
{
    if s.len() > 0 {
        lemma_lower_keeps_ws(s.last());
        assert(ascii_lower(s).last() == ascii_lower_char(s.last()));
        if is_ws(s.last()) {
            assert(ascii_lower(s).drop_last() =~= ascii_lower(s.drop_last()));
            lemma_lower_trim_end(s.drop_last());
        }
    }
}

/// Lower-casing twice is lower-casing once.
proof fn lemma_lower_idempotent(s: Seq<char>)
    ensures
        ascii_lower(ascii_lower(s)) == ascii_lower(s),
{
    assert(ascii_lower(ascii_lower(s)) =~= ascii_lower(s));
}

/// The result of `trim_start` does not start with white space.
proof fn lemma_trim_start_clean(s: Seq<char>)
    ensures
        trim_start(s).len() > 0 ==> !is_ws(trim_start(s)[0]),
        trim_start(trim_start(s)) == trim_start(s),
    decreases s.len(),
{
    if s.len() > 0 && is_ws(s[0]) {
        lemma_trim_start_clean(s.drop_first());
    }
}

/// Trimming the end of a text that does not start with white space leaves
/// a text that does not either, and it does not end with white space.
proof fn lemma_trim_end_clean(s: Seq<char>)
    ensures
        s.len() > 0 && !is_ws(s[0]) && trim_end(s).len() > 0 ==> trim_end(s)[0] == s[0],
        trim_end(s).len() > 0 ==> !is_ws(trim_end(s).last()),
        trim_end(trim_end(s)) == trim_end(s),
        trim_end(s).len() <= s.len(),
    decreases s.len(),
{
    if s.len() > 0 && is_ws(s.last()) {
        lemma_trim_end_clean(s.drop_last());
    }
}

/// Trimming twice is trimming once.
proof fn lemma_trim_idempotent(s: Seq<char>)
    ensures
        trim(trim(s)) == trim(s),
{
    let a = trim_start(s);
    let b = trim_end(a);
    lemma_trim_start_clean(s);
    lemma_trim_end_clean(a);
    assert(trim_start(b) == b);
    lemma_trim_end_clean(b);
}

/// Language names are case-insensitive and ignore surrounding white space:
/// a name, its ASCII lower-case form and its trimmed form all name the same
/// language (or none).
pub proof fn law_language_names_ignore_case_and_padding(name: Seq<char>)
    ensures
        lang_from_name(ascii_lower(name)) == lang_from_name(name),
        lang_from_name(trim(name)) == lang_from_name(name),
{
    lemma_lower_trim_start(name);
    lemma_lower_trim_end(trim_start(name));
    lemma_lower_idempotent(trim(name));
    lemma_trim_idempotent(name);
}

/// Lower-casing commutes with taking the text after the last `.`.
proof fn lemma_lower_after_last_dot(s: Seq<char>)
    ensures
        after_last_dot(ascii_lower(s)) == ascii_lower(after_last_dot(s)),
    decreases s.len(),
{
    if s.len() > 0 {
        assert(ascii_lower(s).last() == ascii_lower_char(s.last()));
        assert(ascii_lower(s).drop_last() =~= ascii_lower(s.drop_last()));
        if s.last() != '.' {
            lemma_lower_after_last_dot(s.drop_last());
            assert(ascii_lower(after_last_dot(s.drop_last()).push(s.last())) =~= ascii_lower(
                after_last_dot(s.drop_last()),
            ).push(ascii_lower_char(s.last())));
        } else {
            assert(ascii_lower(Seq::<char>::empty()) =~= Seq::<char>::empty());
        }
    }
}

/// Language inference from a file name ignores the case of the name: a
/// name and its ASCII lower-case form denote the same language (or none).
pub proof fn law_file_extensions_ignore_case(filename: Seq<char>)
    ensures
        lang_of_filename(ascii_lower(filename)) == lang_of_filename(filename),
{
    let l = ascii_lower(filename);
    assert(l.contains('.') == filename.contains('.')) by {
        if filename.contains('.') {
            let k = choose|k: int| 0 <= k < filename.len() && filename[k] == '.';
            assert(l[k] == '.');
        }
        if l.contains('.') {
            let k = choose|k: int| 0 <= k < l.len() && l[k] == '.';
            assert(ascii_lower_char(filename[k]) == '.');
        }
    }
    lemma_lower_after_last_dot(filename);
    lemma_lower_idempotent(after_last_dot(filename));
}

/// Only the empty text has no lines: `count_lines` is 0 exactly for the
/// empty source.
pub proof fn law_no_lines_only_when_empty(s: Seq<char>)
    ensures
        lines(s).len() == 0 <==> s.len() == 0,
{
    lemma_lines_from_len(s, 0);
}

/// A malformed tree-sitter query is always a clear error, whatever the
/// source within the size bound (the empty one included): running a query
/// the grammar refuses gives a `Parse` error that carries tree-sitter's
/// message, for `run_query` and `query_texts` alike. (An oversized source is
/// refused as too large first.)
pub proof fn law_malformed_query_always_errors(
    lang: Lang,
    source: &str,
    query: Seq<char>,
    caps: Result<Vec<Capture>, AnalyzeError>,
    texts: Result<Vec<String>, AnalyzeError>,
)
    requires
        query_outcome(lang, source, query, caps),
        query_texts_outcome(lang, source, query, texts),
    ensures
        ts_query_new(lang, query) is Err && byte_len(source) <= MAX_SOURCE_BYTES ==> (caps matches Err(AnalyzeError::Parse(m)) && m@
            == invalid_query_message(ts_query_new(lang, query)->Err_0)),
        ts_query_new(lang, query) is Err && byte_len(source) <= MAX_SOURCE_BYTES ==> (texts matches Err(AnalyzeError::Parse(m)) && m@
            == invalid_query_message(ts_query_new(lang, query)->Err_0)),
{
}

/// A language's canonical id, upper-cased and padded with white space,
/// still names that language.
pub proof fn law_padded_upper_case_name_resolves(l: Lang)
    ensures
        lang_from_name(seq![' '] + ascii_upper(lang_name(l)) + seq!['\t']) == Some(l),
{
    let n = lang_name(l);
    law_name_roundtrip(l);
    reveal_strlit("rust");
    reveal_strlit("python");
    reveal_strlit("javascript");
    reveal_strlit("typescript");
    reveal_strlit("go");
    reveal_strlit("java");
    reveal_strlit("c");
    reveal_strlit("cpp");
    reveal_strlit("json");
    let u = ascii_upper(n);
    let p = seq![' '] + u + seq!['\t'];
    assert(n.len() > 0);
    assert(forall|k: int| 0 <= k < n.len() ==> !is_ws(#[trigger] n[k]) && !('A' <= n[k] && n[k] <= 'Z'));
    assert(forall|k: int| 0 <= k < u.len() ==> !is_ws(#[trigger] u[k]) && u[k] == ascii_upper_char(n[k]));
    // Trimming removes exactly the padding.
    assert(p.drop_first() =~= u + seq!['\t']);
    assert(trim_start(u + seq!['\t']) == u + seq!['\t']) by {
        assert((u + seq!['\t'])[0] == u[0]);
    }
    assert(trim_start(p) == u + seq!['\t']);
    assert((u + seq!['\t']).drop_last() =~= u);
    assert(trim_end(u) == u) by {
        assert(u.last() == u[u.len() - 1]);
    }
    assert(trim(p) == u);
    assert(ascii_lower(u) =~= n) by {
        assert forall|k: int| 0 <= k < n.len() implies #[trigger] ascii_lower(u)[k] == n[k] by {
            let c = n[k];
            if 'a' <= c && c <= 'z' {
                assert(ascii_upper_char(c) == ((c as u32) - 32) as char);
            }
        }
    }
    law_language_names_ignore_case_and_padding(p);
    law_language_names_ignore_case_and_padding(u);
}

/// Where a file name's last part has a `.`, the text after the last `.` of
/// any path ending in it is that of the last part.
proof fn lemma_after_last_dot_suffix(a: Seq<char>, b: Seq<char>)
    requires
        b.contains('.'),
    ensures
        after_last_dot(a + b) == after_last_dot(b),
    decreases b.len(),
{
    let ab = a + b;
    assert(ab.last() == b.last());
    assert(ab.drop_last() =~= a + b.drop_last());
    if b.last() != '.' {
        let k = choose|k: int| 0 <= k < b.len() && b[k] == '.';
        assert(b.drop_last()[k] == '.');
        lemma_after_last_dot_suffix(a, b.drop_last());
    }
}

/// Without a `.` in `b`, the text after the last `.` of `a + b` ends with `b`.
proof fn lemma_after_last_dot_no_dot(a: Seq<char>, b: Seq<char>)
    requires
        !b.contains('.'),
    ensures
        after_last_dot(a + b) == after_last_dot(a) + b,
    decreases b.len(),
{
    let ab = a + b;
    if b.len() == 0 {
        assert(ab =~= a);
        assert(a + b =~= a);
    } else {
        assert(ab.last() == b.last());
        assert(ab.drop_last() =~= a + b.drop_last());
        assert(b.last() != '.') by {
            assert(b[b.len() - 1] == b.last());
        }
        assert(!b.drop_last().contains('.')) by {
            if b.drop_last().contains('.') {
                let k = choose|k: int| 0 <= k < b.drop_last().len() && b.drop_last()[k] == '.';
                assert(b[k] == '.');
            }
        }
        lemma_after_last_dot_no_dot(a, b.drop_last());
        assert(after_last_dot(a) + b.drop_last().push(b.last()) =~= after_last_dot(a) + b);
    }
}

/// No known file extension holds a `/`.
proof fn lemma_extension_has_no_slash(e: Seq<char>)
    requires
        e.contains('/'),
    ensures
        lang_of_extension(e) is None,
{
    reveal_strlit("rs");
    reveal_strlit("py");
    reveal_strlit("pyi");
    reveal_strlit("js");
    reveal_strlit("mjs");
    reveal_strlit("cjs");
    reveal_strlit("jsx");
    reveal_strlit("ts");
    reveal_strlit("tsx");
    reveal_strlit("go");
    reveal_strlit("java");
    reveal_strlit("c");
    reveal_strlit("h");
    reveal_strlit("cpp");
    reveal_strlit("cc");
    reveal_strlit("cxx");
    reveal_strlit("hpp");
    reveal_strlit("hxx");
    reveal_strlit("hh");
    reveal_strlit("json");
    let k = choose|k: int| 0 <= k < e.len() && e[k] == '/';
    assert(e[k] == '/');
}

/// Language inference looks at the file name only: a directory in front of
/// it changes nothing.
pub proof fn law_directory_prefix_changes_nothing(dir: Seq<char>, file: Seq<char>)
    ensures
        lang_of_filename(dir + seq!['/'] + file) == lang_of_filename(file),
{
    let p = dir + seq!['/'] + file;
    assert(p =~= (dir + seq!['/']) + file);
    if file.contains('.') {
        lemma_after_last_dot_suffix(dir + seq!['/'], file);
        let k = choose|k: int| 0 <= k < file.len() && file[k] == '.';
        assert(p[dir.len() + 1 + k] == '.');
    } else if p.contains('.') {
        lemma_after_last_dot_no_dot(dir, seq!['/'] + file);
        assert(p =~= dir + (seq!['/'] + file));
        let e = after_last_dot(dir) + (seq!['/'] + file);
        let le = ascii_lower(e);
        assert(le[after_last_dot(dir).len() as int] == '/');
        lemma_extension_has_no_slash(le);
    } else {
    }
}

/// The number of line feeds in `s` from position `i` on.
pub open spec fn newlines_from(s: Seq<char>, i: int) -> nat
    decreases s.len() - i,
{
    if i < 0 || i >= s.len() {
        0
    } else {
        newlines_from(s, i + 1) + if s[i] == '\n' {
            1nat
        } else {
            0nat
        }
    }
}

/// Skipping characters that are not line feeds does not change the count.
proof fn lemma_newlines_skip(s: Seq<char>, i: int, e: int)
    requires
        0 <= i <= e <= s.len(),
        forall|k: int| i <= k < e ==> s[k] != '\n',
    ensures
        newlines_from(s, i) == newlines_from(s, e),
    decreases e - i,
{
    if i < e {
        lemma_newlines_skip(s, i + 1, e);
    }
}

/// The lines from `i` on: one per line feed, and one more for a last line
/// without one.
proof fn lemma_lines_count_from(s: Seq<char>, i: int)
    requires
        0 <= i <= s.len(),
    ensures
        lines_from(s, i).len() == newlines_from(s, i) + if i < s.len() && s.last() != '\n' {
            1int
        } else {
            0int
        },
    decreases s.len() - i,
{
    if i < s.len() {
        lemma_line_end_bounds(s, i);
        let e = line_end(s, i);
        assert forall|k: int| i <= k < e implies s[k] != '\n' by {
            lemma_line_end_first(s, i, k);
        }
        lemma_newlines_skip(s, i, e);
        if e < s.len() {
            lemma_lines_count_from(s, e + 1);
            if e + 1 == s.len() {
                assert(s.last() == '\n');
            }
        } else {
            assert(s.last() == s[s.len() - 1]);
        }
    }
}

/// `count_lines` counts the line feeds, plus one for a last line that does
/// not end in one: a trailing line feed adds no line, and the empty text
/// has none.
pub proof fn law_line_count_formula(s: Seq<char>)
    ensures
        lines(s).len() == newlines_from(s, 0) + if s.len() > 0 && s.last() != '\n' {
            1int
        } else {
            0int
        },
{
    lemma_lines_count_from(s, 0);
}

/// The JSON escape leaves plain text as it is: a text with no quote, no
/// backslash and no character below U+0020 is its own escape.
pub proof fn law_json_escape_keeps_plain_text(s: Seq<char>)
    requires
        forall|k: int|
            0 <= k < s.len() ==> #[trigger] s[k] != '"' && s[k] != '\\' && (s[k] as u32) >= 0x20,
    ensures
        json_escaped(s) == s,
{
    crate::meta::lemma_plain_escaped(s);
}

/// The JSON escape reads back: the escape of any text, in quotes, is a JSON
/// string literal that stands for that text.
pub proof fn law_json_escape_reads_back(s: Seq<char>)
    ensures
        json_string(json_quoted(s)) == Some(s),
{
    let t = json_quoted(s);
    assert(t.drop_first() =~= json_escaped(s) + seq!['"'] + Seq::<char>::empty());
    lemma_read_escaped(s, Seq::empty());
}

/// The keywords tag is a JSON array that reads back as the comma-separated
/// terms, each trimmed, empty ones dropped, in order.
pub proof fn law_keywords_json_reads_back(keywords: Seq<char>)
    ensures
        json_string_array(keywords_json_text(keywords)) == Some(keyword_terms(keywords)),
{
    let items = keyword_terms(keywords);
    let q = items.map_values(|k: Seq<char>| json_quoted(k));
    assert(items.map_values(|k: Seq<char>| quoted_keyword(k)) =~= q);
    let t = keywords_json_text(keywords);
    if items.len() == 0 {
        assert(q.len() == 0);
        assert(t =~= seq!['[', ']']);
    } else {
        assert(t.drop_first() =~= join_with(q, seq![',']) + seq![']']);
        lemma_read_string_items(items);
        assert(t[0] == '[');
        if t.len() == 2 {
            assert(join_with(q, seq![',']).len() == 0);
            assert(false) by {
                lemma_join_nonempty(q, seq![',']);
            }
        }
    }
}

/// The example-queries tag is a JSON array of `{"description":…,"sql":…}`
/// objects that reads back as the (description, sql) pairs, in order.
pub proof fn law_example_queries_read_back(examples: Seq<(&str, &str)>)
    ensures
        json_example_array(example_queries_json(examples)) == Some(
            examples.map_values(|e: (&str, &str)| (e.0@, e.1@)),
        ),
{
    let es = examples.map_values(|e: (&str, &str)| (e.0@, e.1@));
    let objs = examples.map_values(|e: (&str, &str)| example_json(e.0@, e.1@));
    assert(objs =~= es.map_values(|e: (Seq<char>, Seq<char>)| example_json(e.0, e.1)));
    let t = example_queries_json(examples);
    if es.len() == 0 {
        assert(objs.len() == 0);
        assert(t =~= seq!['[', ']']);
    } else {
        assert(t.drop_first() =~= join_with(objs, seq![',']) + seq![']']);
        lemma_read_example_items(es);
        if t.len() == 2 {
            assert(join_with(objs, seq![',']).len() == 0);
            assert(false) by {
                assert forall|i: int| 0 <= i < objs.len() implies #[trigger] objs[i].len() > 0 by {
                    reveal_strlit("\"}");
                    assert("\"}"@.len() == 2);
                }
                lemma_join_nonempty(objs, seq![',']);
            }
        }
    }
}

/// Every capture text is a contiguous piece of the source: the text of a
/// captured node lying within the source (and so every symbol name and
/// every extracted import, comment and string) occurs in the source.
pub proof fn law_capture_text_is_source_substring(
    names: Seq<Seq<char>>,
    source: Seq<char>,
    c: crate::ts::RawCapture,
)
    requires
        crate::ts::capture_within(c, encode_utf8(source).len()),
    ensures
        has_substr(source, crate::extract::capture_of(names, encode_utf8(source), c).text),
{
    crate::extract::lemma_node_text_in_source(source, c.start_byte as int, c.end_byte as int);
}

/// The import query of each language captures, as `@import`, the
/// grammar's import nodes: `use_declaration` for Rust, `import_statement`
/// and `import_from_statement` for Python, `import_statement` for
/// JavaScript and TypeScript, `import_declaration` for Go and Java,
/// `preproc_include` for C and C++. JSON has no import query.
pub proof fn law_imports_query_patterns()
    ensures
        has_substr(imports_query_text(Lang::Rust), "(use_declaration) @import"@),
        has_substr(imports_query_text(Lang::Python), "(import_statement) @import"@),
        has_substr(imports_query_text(Lang::Python), "(import_from_statement) @import"@),
        has_substr(imports_query_text(Lang::JavaScript), "(import_statement) @import"@),
        has_substr(imports_query_text(Lang::TypeScript), "(import_statement) @import"@),
        has_substr(imports_query_text(Lang::Go), "(import_declaration) @import"@),
        has_substr(imports_query_text(Lang::Java), "(import_declaration) @import"@),
        has_substr(imports_query_text(Lang::C), "(preproc_include) @import"@),
        has_substr(imports_query_text(Lang::Cpp), "(preproc_include) @import"@),
        imports_query_text(Lang::Json).len() == 0,
{
    reveal_strlit("(use_declaration) @import");
    assert(imports_query_text(Lang::Rust).subrange(0, 0int + "(use_declaration) @import"@.len()) =~= "(use_declaration) @import"@);
    reveal_strlit(r#"
            (import_statement) @import
            (import_from_statement) @import
            "#);
    reveal_strlit("(import_statement) @import");
    assert(imports_query_text(Lang::Python).subrange(13, 13int + "(import_statement) @import"@.len()) =~= "(import_statement) @import"@);
    reveal_strlit("(import_from_statement) @import");
    assert(imports_query_text(Lang::Python).subrange(52, 52int + "(import_from_statement) @import"@.len()) =~= "(import_from_statement) @import"@);
    reveal_strlit(r#"
            (import_statement) @import
            "#);
    assert(imports_query_text(Lang::JavaScript).subrange(13, 13int + "(import_statement) @import"@.len()) =~= "(import_statement) @import"@);
    assert(imports_query_text(Lang::TypeScript).subrange(13, 13int + "(import_statement) @import"@.len()) =~= "(import_statement) @import"@);
    reveal_strlit(r#"
            (import_declaration) @import
            "#);
    reveal_strlit("(import_declaration) @import");
    assert(imports_query_text(Lang::Go).subrange(13, 13int + "(import_declaration) @import"@.len()) =~= "(import_declaration) @import"@);
    assert(imports_query_text(Lang::Java).subrange(0, 0int + "(import_declaration) @import"@.len()) =~= "(import_declaration) @import"@);
    reveal_strlit("(preproc_include) @import");
    assert(imports_query_text(Lang::C).subrange(0, 0int + "(preproc_include) @import"@.len()) =~= "(preproc_include) @import"@);
    assert(imports_query_text(Lang::Cpp).subrange(0, 0int + "(preproc_include) @import"@.len()) =~= "(preproc_include) @import"@);
    reveal_strlit("");
}

/// The comment query of each language captures, as `@comment`, the
/// grammar's comment nodes: `line_comment` and `block_comment` for Rust and
/// Java, `comment` for Python, JavaScript, TypeScript, Go, C and C++. JSON
/// has no comment node and no comment query.
pub proof fn law_comments_query_patterns()
    ensures
        has_substr(comments_query_text(Lang::Rust), "(line_comment) @comment"@),
        has_substr(comments_query_text(Lang::Rust), "(block_comment) @comment"@),
        has_substr(comments_query_text(Lang::Python), "(comment) @comment"@),
        has_substr(comments_query_text(Lang::JavaScript), "(comment) @comment"@),
        has_substr(comments_query_text(Lang::TypeScript), "(comment) @comment"@),
        has_substr(comments_query_text(Lang::Go), "(comment) @comment"@),
        has_substr(comments_query_text(Lang::Java), "(line_comment) @comment"@),
        has_substr(comments_query_text(Lang::Java), "(block_comment) @comment"@),
        has_substr(comments_query_text(Lang::C), "(comment) @comment"@),
        has_substr(comments_query_text(Lang::Cpp), "(comment) @comment"@),
        comments_query_text(Lang::Json).len() == 0,
{
    reveal_strlit(r#"
            (line_comment) @comment
            (block_comment) @comment
            "#);
    reveal_strlit("(line_comment) @comment");
    assert(comments_query_text(Lang::Rust).subrange(13, 13int + "(line_comment) @comment"@.len()) =~= "(line_comment) @comment"@);
    reveal_strlit("(block_comment) @comment");
    assert(comments_query_text(Lang::Rust).subrange(49, 49int + "(block_comment) @comment"@.len()) =~= "(block_comment) @comment"@);
    reveal_strlit("(comment) @comment");
    assert(comments_query_text(Lang::Python).subrange(0, 0int + "(comment) @comment"@.len()) =~= "(comment) @comment"@);
    assert(comments_query_text(Lang::JavaScript).subrange(0, 0int + "(comment) @comment"@.len()) =~= "(comment) @comment"@);
    assert(comments_query_text(Lang::TypeScript).subrange(0, 0int + "(comment) @comment"@.len()) =~= "(comment) @comment"@);
    assert(comments_query_text(Lang::Go).subrange(0, 0int + "(comment) @comment"@.len()) =~= "(comment) @comment"@);
    assert(comments_query_text(Lang::Java).subrange(13, 13int + "(line_comment) @comment"@.len()) =~= "(line_comment) @comment"@);
    assert(comments_query_text(Lang::Java).subrange(49, 49int + "(block_comment) @comment"@.len()) =~= "(block_comment) @comment"@);
    assert(comments_query_text(Lang::C).subrange(0, 0int + "(comment) @comment"@.len()) =~= "(comment) @comment"@);
    assert(comments_query_text(Lang::Cpp).subrange(0, 0int + "(comment) @comment"@.len()) =~= "(comment) @comment"@);
    reveal_strlit("");
}

/// The string query of each language captures, as `@string`, the
/// grammar's string-literal nodes: `string_literal` and `raw_string_literal`
/// for Rust, `string` for Python and JSON, `string` and `template_string`
/// for JavaScript and TypeScript, `interpreted_string_literal` and
/// `raw_string_literal` for Go, `string_literal` for Java, C and C++.
pub proof fn law_strings_query_patterns()
    ensures
        has_substr(strings_query_text(Lang::Rust), "(string_literal) @string"@),
        has_substr(strings_query_text(Lang::Rust), "(raw_string_literal) @string"@),
        has_substr(strings_query_text(Lang::Python), "(string) @string"@),
        has_substr(strings_query_text(Lang::JavaScript), "(string) @string"@),
        has_substr(strings_query_text(Lang::JavaScript), "(template_string) @string"@),
        has_substr(strings_query_text(Lang::TypeScript), "(string) @string"@),
        has_substr(strings_query_text(Lang::TypeScript), "(template_string) @string"@),
        has_substr(strings_query_text(Lang::Go), "(interpreted_string_literal) @string"@),
        has_substr(strings_query_text(Lang::Go), "(raw_string_literal) @string"@),
        has_substr(strings_query_text(Lang::Java), "(string_literal) @string"@),
        has_substr(strings_query_text(Lang::C), "(string_literal) @string"@),
        has_substr(strings_query_text(Lang::Cpp), "(string_literal) @string"@),
        has_substr(strings_query_text(Lang::Json), "(string) @string"@),
{
    reveal_strlit(r#"
            (string_literal) @string
            (raw_string_literal) @string
            "#);
    reveal_strlit("(string_literal) @string");
    assert(strings_query_text(Lang::Rust).subrange(13, 13int + "(string_literal) @string"@.len()) =~= "(string_literal) @string"@);
    reveal_strlit("(raw_string_literal) @string");
    assert(strings_query_text(Lang::Rust).subrange(50, 50int + "(raw_string_literal) @string"@.len()) =~= "(raw_string_literal) @string"@);
    reveal_strlit(r#"
            (string) @string
            "#);
    reveal_strlit("(string) @string");
    assert(strings_query_text(Lang::Python).subrange(13, 13int + "(string) @string"@.len()) =~= "(string) @string"@);
    reveal_strlit(r#"
            (string) @string
            (template_string) @string
            "#);
    assert(strings_query_text(Lang::JavaScript).subrange(13, 13int + "(string) @string"@.len()) =~= "(string) @string"@);
    reveal_strlit("(template_string) @string");
    assert(strings_query_text(Lang::JavaScript).subrange(42, 42int + "(template_string) @string"@.len()) =~= "(template_string) @string"@);
    assert(strings_query_text(Lang::TypeScript).subrange(13, 13int + "(string) @string"@.len()) =~= "(string) @string"@);
    assert(strings_query_text(Lang::TypeScript).subrange(42, 42int + "(template_string) @string"@.len()) =~= "(template_string) @string"@);
    reveal_strlit(r#"
            (interpreted_string_literal) @string
            (raw_string_literal) @string
            "#);
    reveal_strlit("(interpreted_string_literal) @string");
    assert(strings_query_text(Lang::Go).subrange(13, 13int + "(interpreted_string_literal) @string"@.len()) =~= "(interpreted_string_literal) @string"@);
    assert(strings_query_text(Lang::Go).subrange(62, 62int + "(raw_string_literal) @string"@.len()) =~= "(raw_string_literal) @string"@);
    reveal_strlit(r#"
            (string_literal) @string
            "#);
    assert(strings_query_text(Lang::Java).subrange(13, 13int + "(string_literal) @string"@.len()) =~= "(string_literal) @string"@);
    assert(strings_query_text(Lang::C).subrange(0, 0int + "(string_literal) @string"@.len()) =~= "(string_literal) @string"@);
    assert(strings_query_text(Lang::Cpp).subrange(0, 0int + "(string_literal) @string"@.len()) =~= "(string_literal) @string"@);
    assert(strings_query_text(Lang::Json).subrange(0, 0int + "(string) @string"@.len()) =~= "(string) @string"@);
}

/// The symbols query of each language has one pattern per kind of
/// definition: the whole definition node captured as `@<kind>.def` and its
/// identifier as `@<kind>.name`. Rust: functions, structs, enums, traits
/// (and impl blocks, which carry no name); Python: functions and classes;
/// JavaScript: functions, methods and classes; TypeScript: those and
/// interfaces and enums; Go: functions, methods, struct and interface
/// types; Java: methods, classes, interfaces and enums; C: functions,
/// structs and enums; C++: functions, classes, structs and enums. JSON has
/// no symbols query.
pub proof fn law_symbols_query_patterns()
    ensures
        has_substr(symbols_query_text(Lang::Rust), "(function_item name: (identifier) @function.name) @function.def"@),
        has_substr(symbols_query_text(Lang::Rust), "(struct_item name: (type_identifier) @struct.name) @struct.def"@),
        has_substr(symbols_query_text(Lang::Rust), "(enum_item name: (type_identifier) @enum.name) @enum.def"@),
        has_substr(symbols_query_text(Lang::Rust), "(trait_item name: (type_identifier) @trait.name) @trait.def"@),
        has_substr(symbols_query_text(Lang::Rust), "(impl_item) @impl.def"@),
        has_substr(symbols_query_text(Lang::Python), "(function_definition name: (identifier) @function.name) @function.def"@),
        has_substr(symbols_query_text(Lang::Python), "(class_definition name: (identifier) @class.name) @class.def"@),
        has_substr(symbols_query_text(Lang::JavaScript), "(function_declaration name: (identifier) @function.name) @function.def"@),
        has_substr(symbols_query_text(Lang::JavaScript), "(method_definition name: (property_identifier) @method.name) @method.def"@),
        has_substr(symbols_query_text(Lang::JavaScript), "(class_declaration name: (identifier) @class.name) @class.def"@),
        has_substr(symbols_query_text(Lang::TypeScript), "(function_declaration name: (identifier) @function.name) @function.def"@),
        has_substr(symbols_query_text(Lang::TypeScript), "(method_definition name: (property_identifier) @method.name) @method.def"@),
        has_substr(symbols_query_text(Lang::TypeScript), "(class_declaration name: (type_identifier) @class.name) @class.def"@),
        has_substr(symbols_query_text(Lang::TypeScript), "(interface_declaration name: (type_identifier) @interface.name) @interface.def"@),
        has_substr(symbols_query_text(Lang::TypeScript), "(enum_declaration name: (identifier) @enum.name) @enum.def"@),
        has_substr(symbols_query_text(Lang::Go), "(function_declaration name: (identifier) @function.name) @function.def"@),
        has_substr(symbols_query_text(Lang::Go), "(method_declaration name: (field_identifier) @method.name) @method.def"@),
        has_substr(symbols_query_text(Lang::Go), "(type_declaration (type_spec name: (type_identifier) @struct.name (struct_type))) @struct.def"@),
        has_substr(symbols_query_text(Lang::Go), "(type_declaration (type_spec name: (type_identifier) @interface.name (interface_type))) @interface.def"@),
        has_substr(symbols_query_text(Lang::Java), "(method_declaration name: (identifier) @method.name) @method.def"@),
        has_substr(symbols_query_text(Lang::Java), "(class_declaration name: (identifier) @class.name) @class.def"@),
        has_substr(symbols_query_text(Lang::Java), "(interface_declaration name: (identifier) @interface.name) @interface.def"@),
        has_substr(symbols_query_text(Lang::Java), "(enum_declaration name: (identifier) @enum.name) @enum.def"@),
        has_substr(symbols_query_text(Lang::C), "(function_definition declarator: (function_declarator declarator: (identifier) @function.name)) @function.def"@),
        has_substr(symbols_query_text(Lang::C), "(struct_specifier name: (type_identifier) @struct.name) @struct.def"@),
        has_substr(symbols_query_text(Lang::C), "(enum_specifier name: (type_identifier) @enum.name) @enum.def"@),
        has_substr(symbols_query_text(Lang::Cpp), "(function_definition declarator: (function_declarator declarator: (identifier) @function.name)) @function.def"@),
        has_substr(symbols_query_text(Lang::Cpp), "(class_specifier name: (type_identifier) @class.name) @class.def"@),
        has_substr(symbols_query_text(Lang::Cpp), "(struct_specifier name: (type_identifier) @struct.name) @struct.def"@),
        has_substr(symbols_query_text(Lang::Cpp), "(enum_specifier name: (type_identifier) @enum.name) @enum.def"@),
        symbols_query_text(Lang::Json).len() == 0,
{
    reveal_strlit(r#"
            (function_item name: (identifier) @function.name) @function.def
            (struct_item name: (type_identifier) @struct.name) @struct.def
            (enum_item name: (type_identifier) @enum.name) @enum.def
            (trait_item name: (type_identifier) @trait.name) @trait.def
            (impl_item) @impl.def
            "#);
    reveal_strlit("(function_item name: (identifier) @function.name) @function.def");
    assert(symbols_query_text(Lang::Rust).subrange(13, 13int + "(function_item name: (identifier) @function.name) @function.def"@.len()) =~= "(function_item name: (identifier) @function.name) @function.def"@);
    reveal_strlit("(struct_item name: (type_identifier) @struct.name) @struct.def");
    assert(symbols_query_text(Lang::Rust).subrange(89, 89int + "(struct_item name: (type_identifier) @struct.name) @struct.def"@.len()) =~= "(struct_item name: (type_identifier) @struct.name) @struct.def"@);
    reveal_strlit("(enum_item name: (type_identifier) @enum.name) @enum.def");
    assert(symbols_query_text(Lang::Rust).subrange(164, 164int + "(enum_item name: (type_identifier) @enum.name) @enum.def"@.len()) =~= "(enum_item name: (type_identifier) @enum.name) @enum.def"@);
    reveal_strlit("(trait_item name: (type_identifier) @trait.name) @trait.def");
    assert(symbols_query_text(Lang::Rust).subrange(233, 233int + "(trait_item name: (type_identifier) @trait.name) @trait.def"@.len()) =~= "(trait_item name: (type_identifier) @trait.name) @trait.def"@);
    reveal_strlit("(impl_item) @impl.def");
    assert(symbols_query_text(Lang::Rust).subrange(305, 305int + "(impl_item) @impl.def"@.len()) =~= "(impl_item) @impl.def"@);
    reveal_strlit(r#"
            (function_definition name: (identifier) @function.name) @function.def
            (class_definition name: (identifier) @class.name) @class.def
            "#);
    reveal_strlit("(function_definition name: (identifier) @function.name) @function.def");
    assert(symbols_query_text(Lang::Python).subrange(13, 13int + "(function_definition name: (identifier) @function.name) @function.def"@.len()) =~= "(function_definition name: (identifier) @function.name) @function.def"@);
    reveal_strlit("(class_definition name: (identifier) @class.name) @class.def");
    assert(symbols_query_text(Lang::Python).subrange(95, 95int + "(class_definition name: (identifier) @class.name) @class.def"@.len()) =~= "(class_definition name: (identifier) @class.name) @class.def"@);
    reveal_strlit(r#"
            (function_declaration name: (identifier) @function.name) @function.def
            (method_definition name: (property_identifier) @method.name) @method.def
            (class_declaration name: (identifier) @class.name) @class.def
            "#);
    reveal_strlit("(function_declaration name: (identifier) @function.name) @function.def");
    assert(symbols_query_text(Lang::JavaScript).subrange(13, 13int + "(function_declaration name: (identifier) @function.name) @function.def"@.len()) =~= "(function_declaration name: (identifier) @function.name) @function.def"@);
    reveal_strlit("(method_definition name: (property_identifier) @method.name) @method.def");
    assert(symbols_query_text(Lang::JavaScript).subrange(96, 96int + "(method_definition name: (property_identifier) @method.name) @method.def"@.len()) =~= "(method_definition name: (property_identifier) @method.name) @method.def"@);
    reveal_strlit("(class_declaration name: (identifier) @class.name) @class.def");
    assert(symbols_query_text(Lang::JavaScript).subrange(181, 181int + "(class_declaration name: (identifier) @class.name) @class.def"@.len()) =~= "(class_declaration name: (identifier) @class.name) @class.def"@);
    reveal_strlit(r#"
            (function_declaration name: (identifier) @function.name) @function.def
            (method_definition name: (property_identifier) @method.name) @method.def
            (class_declaration name: (type_identifier) @class.name) @class.def
            (interface_declaration name: (type_identifier) @interface.name) @interface.def
            (enum_declaration name: (identifier) @enum.name) @enum.def
            "#);
    assert(symbols_query_text(Lang::TypeScript).subrange(13, 13int + "(function_declaration name: (identifier) @function.name) @function.def"@.len()) =~= "(function_declaration name: (identifier) @function.name) @function.def"@);
    assert(symbols_query_text(Lang::TypeScript).subrange(96, 96int + "(method_definition name: (property_identifier) @method.name) @method.def"@.len()) =~= "(method_definition name: (property_identifier) @method.name) @method.def"@);
    reveal_strlit("(class_declaration name: (type_identifier) @class.name) @class.def");
    assert(symbols_query_text(Lang::TypeScript).subrange(181, 181int + "(class_declaration name: (type_identifier) @class.name) @class.def"@.len()) =~= "(class_declaration name: (type_identifier) @class.name) @class.def"@);
    reveal_strlit("(interface_declaration name: (type_identifier) @interface.name) @interface.def");
    assert(symbols_query_text(Lang::TypeScript).subrange(260, 260int + "(interface_declaration name: (type_identifier) @interface.name) @interface.def"@.len()) =~= "(interface_declaration name: (type_identifier) @interface.name) @interface.def"@);
    reveal_strlit("(enum_declaration name: (identifier) @enum.name) @enum.def");
    assert(symbols_query_text(Lang::TypeScript).subrange(351, 351int + "(enum_declaration name: (identifier) @enum.name) @enum.def"@.len()) =~= "(enum_declaration name: (identifier) @enum.name) @enum.def"@);
    reveal_strlit(r#"
            (function_declaration name: (identifier) @function.name) @function.def
            (method_declaration name: (field_identifier) @method.name) @method.def
            (type_declaration (type_spec name: (type_identifier) @struct.name (struct_type))) @struct.def
            (type_declaration (type_spec name: (type_identifier) @interface.name (interface_type))) @interface.def
            "#);
    assert(symbols_query_text(Lang::Go).subrange(13, 13int + "(function_declaration name: (identifier) @function.name) @function.def"@.len()) =~= "(function_declaration name: (identifier) @function.name) @function.def"@);
    reveal_strlit("(method_declaration name: (field_identifier) @method.name) @method.def");
    assert(symbols_query_text(Lang::Go).subrange(96, 96int + "(method_declaration name: (field_identifier) @method.name) @method.def"@.len()) =~= "(method_declaration name: (field_identifier) @method.name) @method.def"@);
    reveal_strlit("(type_declaration (type_spec name: (type_identifier) @struct.name (struct_type))) @struct.def");
    assert(symbols_query_text(Lang::Go).subrange(179, 179int + "(type_declaration (type_spec name: (type_identifier) @struct.name (struct_type))) @struct.def"@.len()) =~= "(type_declaration (type_spec name: (type_identifier) @struct.name (struct_type))) @struct.def"@);
    reveal_strlit("(type_declaration (type_spec name: (type_identifier) @interface.name (interface_type))) @interface.def");
    assert(symbols_query_text(Lang::Go).subrange(285, 285int + "(type_declaration (type_spec name: (type_identifier) @interface.name (interface_type))) @interface.def"@.len()) =~= "(type_declaration (type_spec name: (type_identifier) @interface.name (interface_type))) @interface.def"@);
    reveal_strlit(r#"
            (method_declaration name: (identifier) @method.name) @method.def
            (class_declaration name: (identifier) @class.name) @class.def
            (interface_declaration name: (identifier) @interface.name) @interface.def
            (enum_declaration name: (identifier) @enum.name) @enum.def
            "#);
    reveal_strlit("(method_declaration name: (identifier) @method.name) @method.def");
    assert(symbols_query_text(Lang::Java).subrange(13, 13int + "(method_declaration name: (identifier) @method.name) @method.def"@.len()) =~= "(method_declaration name: (identifier) @method.name) @method.def"@);
    assert(symbols_query_text(Lang::Java).subrange(90, 90int + "(class_declaration name: (identifier) @class.name) @class.def"@.len()) =~= "(class_declaration name: (identifier) @class.name) @class.def"@);
    reveal_strlit("(interface_declaration name: (identifier) @interface.name) @interface.def");
    assert(symbols_query_text(Lang::Java).subrange(164, 164int + "(interface_declaration name: (identifier) @interface.name) @interface.def"@.len()) =~= "(interface_declaration name: (identifier) @interface.name) @interface.def"@);
    assert(symbols_query_text(Lang::Java).subrange(250, 250int + "(enum_declaration name: (identifier) @enum.name) @enum.def"@.len()) =~= "(enum_declaration name: (identifier) @enum.name) @enum.def"@);
    reveal_strlit(r#"
            (function_definition declarator: (function_declarator declarator: (identifier) @function.name)) @function.def
            (struct_specifier name: (type_identifier) @struct.name) @struct.def
            (enum_specifier name: (type_identifier) @enum.name) @enum.def
            "#);
    reveal_strlit("(function_definition declarator: (function_declarator declarator: (identifier) @function.name)) @function.def");
    assert(symbols_query_text(Lang::C).subrange(13, 13int + "(function_definition declarator: (function_declarator declarator: (identifier) @function.name)) @function.def"@.len()) =~= "(function_definition declarator: (function_declarator declarator: (identifier) @function.name)) @function.def"@);
    reveal_strlit("(struct_specifier name: (type_identifier) @struct.name) @struct.def");
    assert(symbols_query_text(Lang::C).subrange(135, 135int + "(struct_specifier name: (type_identifier) @struct.name) @struct.def"@.len()) =~= "(struct_specifier name: (type_identifier) @struct.name) @struct.def"@);
    reveal_strlit("(enum_specifier name: (type_identifier) @enum.name) @enum.def");
    assert(symbols_query_text(Lang::C).subrange(215, 215int + "(enum_specifier name: (type_identifier) @enum.name) @enum.def"@.len()) =~= "(enum_specifier name: (type_identifier) @enum.name) @enum.def"@);
    reveal_strlit(r#"
            (function_definition declarator: (function_declarator declarator: (identifier) @function.name)) @function.def
            (class_specifier name: (type_identifier) @class.name) @class.def
            (struct_specifier name: (type_identifier) @struct.name) @struct.def
            (enum_specifier name: (type_identifier) @enum.name) @enum.def
            "#);
    assert(symbols_query_text(Lang::Cpp).subrange(13, 13int + "(function_definition declarator: (function_declarator declarator: (identifier) @function.name)) @function.def"@.len()) =~= "(function_definition declarator: (function_declarator declarator: (identifier) @function.name)) @function.def"@);
    reveal_strlit("(class_specifier name: (type_identifier) @class.name) @class.def");
    assert(symbols_query_text(Lang::Cpp).subrange(135, 135int + "(class_specifier name: (type_identifier) @class.name) @class.def"@.len()) =~= "(class_specifier name: (type_identifier) @class.name) @class.def"@);
    assert(symbols_query_text(Lang::Cpp).subrange(212, 212int + "(struct_specifier name: (type_identifier) @struct.name) @struct.def"@.len()) =~= "(struct_specifier name: (type_identifier) @struct.name) @struct.def"@);
    assert(symbols_query_text(Lang::Cpp).subrange(292, 292int + "(enum_specifier name: (type_identifier) @enum.name) @enum.def"@.len()) =~= "(enum_specifier name: (type_identifier) @enum.name) @enum.def"@);
    reveal_strlit("");
}

/// A file name whose part after its last `.` has no upper-case letter names
/// the language of that extension.
proof fn lemma_filename_extension(stem: Seq<char>, e: Seq<char>)
    requires
        !e.contains('.'),
        forall|k: int| 0 <= k < e.len() ==> !('A' <= #[trigger] e[k] && e[k] <= 'Z'),
    ensures
        lang_of_filename(stem + seq!['.'] + e) == lang_of_extension(e),
{
    let p = stem + seq!['.'] + e;
    assert(p =~= (stem + seq!['.']) + e);
    assert(p[stem.len() as int] == '.');
    lemma_after_last_dot_no_dot(stem + seq!['.'], e);
    assert((stem + seq!['.']).last() == '.');
    assert(after_last_dot(stem + seq!['.']) == Seq::<char>::empty());
    assert(Seq::<char>::empty() + e =~= e);
    assert(ascii_lower(e) =~= e);
}

/// The extension table: whatever comes before it, a file name ending in `.`
/// and one of these extensions names the language shown. (Only `c` and `h`
/// name C; `cpp`, `cc`, `cxx`, `hpp`, `hxx` and `hh` name C++.)
pub proof fn law_file_extension_table(stem: Seq<char>)
    ensures
        lang_of_filename(stem + seq!['.'] + "rs"@) == Some(Lang::Rust),
        lang_of_filename(stem + seq!['.'] + "py"@) == Some(Lang::Python),
        lang_of_filename(stem + seq!['.'] + "pyi"@) == Some(Lang::Python),
        lang_of_filename(stem + seq!['.'] + "js"@) == Some(Lang::JavaScript),
        lang_of_filename(stem + seq!['.'] + "mjs"@) == Some(Lang::JavaScript),
        lang_of_filename(stem + seq!['.'] + "cjs"@) == Some(Lang::JavaScript),
        lang_of_filename(stem + seq!['.'] + "jsx"@) == Some(Lang::JavaScript),
        lang_of_filename(stem + seq!['.'] + "ts"@) == Some(Lang::TypeScript),
        lang_of_filename(stem + seq!['.'] + "tsx"@) == Some(Lang::TypeScript),
        lang_of_filename(stem + seq!['.'] + "go"@) == Some(Lang::Go),
        lang_of_filename(stem + seq!['.'] + "java"@) == Some(Lang::Java),
        lang_of_filename(stem + seq!['.'] + "c"@) == Some(Lang::C),
        lang_of_filename(stem + seq!['.'] + "h"@) == Some(Lang::C),
        lang_of_filename(stem + seq!['.'] + "cpp"@) == Some(Lang::Cpp),
        lang_of_filename(stem + seq!['.'] + "cc"@) == Some(Lang::Cpp),
        lang_of_filename(stem + seq!['.'] + "cxx"@) == Some(Lang::Cpp),
        lang_of_filename(stem + seq!['.'] + "hpp"@) == Some(Lang::Cpp),
        lang_of_filename(stem + seq!['.'] + "hxx"@) == Some(Lang::Cpp),
        lang_of_filename(stem + seq!['.'] + "hh"@) == Some(Lang::Cpp),
        lang_of_filename(stem + seq!['.'] + "json"@) == Some(Lang::Json),
{
    assert(lang_of_filename(stem + seq!['.'] + "rs"@) == Some(Lang::Rust)) by {
        reveal_strlit("rs");


        lemma_filename_extension(stem, "rs"@);
    }
    assert(lang_of_filename(stem + seq!['.'] + "py"@) == Some(Lang::Python)) by {
        reveal_strlit("py");
        reveal_strlit("rs");
        assert("py"@[0] != "rs"@[0]);
        lemma_filename_extension(stem, "py"@);
    }
    assert(lang_of_filename(stem + seq!['.'] + "pyi"@) == Some(Lang::Python)) by {
        reveal_strlit("pyi");
        reveal_strlit("rs");
        reveal_strlit("py");
        assert("pyi"@.len() != "rs"@.len());
        assert("pyi"@.len() != "py"@.len());
        lemma_filename_extension(stem, "pyi"@);
    }
    assert(lang_of_filename(stem + seq!['.'] + "js"@) == Some(Lang::JavaScript)) by {
        reveal_strlit("js");
        reveal_strlit("rs");
        reveal_strlit("py");
        reveal_strlit("pyi");
        assert("js"@[0] != "rs"@[0]);
        assert("js"@[0] != "py"@[0]);
        assert("js"@.len() != "pyi"@.len());
        lemma_filename_extension(stem, "js"@);
    }
    assert(lang_of_filename(stem + seq!['.'] + "mjs"@) == Some(Lang::JavaScript)) by {
        reveal_strlit("mjs");
        reveal_strlit("rs");
        reveal_strlit("py");
        reveal_strlit("pyi");
        reveal_strlit("js");
        assert("mjs"@.len() != "rs"@.len());
        assert("mjs"@.len() != "py"@.len());
        assert("mjs"@[0] != "pyi"@[0]);
        assert("mjs"@.len() != "js"@.len());
        lemma_filename_extension(stem, "mjs"@);
    }
    assert(lang_of_filename(stem + seq!['.'] + "cjs"@) == Some(Lang::JavaScript)) by {
        reveal_strlit("cjs");
        reveal_strlit("rs");
        reveal_strlit("py");
        reveal_strlit("pyi");
        reveal_strlit("js");
        reveal_strlit("mjs");
        assert("cjs"@.len() != "rs"@.len());
        assert("cjs"@.len() != "py"@.len());
        assert("cjs"@[0] != "pyi"@[0]);
        assert("cjs"@.len() != "js"@.len());
        assert("cjs"@[0] != "mjs"@[0]);
        lemma_filename_extension(stem, "cjs"@);
    }
    assert(lang_of_filename(stem + seq!['.'] + "jsx"@) == Some(Lang::JavaScript)) by {
        reveal_strlit("jsx");
        reveal_strlit("rs");
        reveal_strlit("py");
        reveal_strlit("pyi");
        reveal_strlit("js");
        reveal_strlit("mjs");
        reveal_strlit("cjs");
        assert("jsx"@.len() != "rs"@.len());
        assert("jsx"@.len() != "py"@.len());
        assert("jsx"@[0] != "pyi"@[0]);
        assert("jsx"@.len() != "js"@.len());
        assert("jsx"@[0] != "mjs"@[0]);
        assert("jsx"@[0] != "cjs"@[0]);
        lemma_filename_extension(stem, "jsx"@);
    }
    assert(lang_of_filename(stem + seq!['.'] + "ts"@) == Some(Lang::TypeScript)) by {
        reveal_strlit("ts");
        reveal_strlit("rs");
        reveal_strlit("py");
        reveal_strlit("pyi");
        reveal_strlit("js");
        reveal_strlit("mjs");
        reveal_strlit("cjs");
        reveal_strlit("jsx");
        assert("ts"@[0] != "rs"@[0]);
        assert("ts"@[0] != "py"@[0]);
        assert("ts"@.len() != "pyi"@.len());
        assert("ts"@[0] != "js"@[0]);
        assert("ts"@.len() != "mjs"@.len());
        assert("ts"@.len() != "cjs"@.len());
        assert("ts"@.len() != "jsx"@.len());
        lemma_filename_extension(stem, "ts"@);
    }
    assert(lang_of_filename(stem + seq!['.'] + "tsx"@) == Some(Lang::TypeScript)) by {
        reveal_strlit("tsx");
        reveal_strlit("rs");
        reveal_strlit("py");
        reveal_strlit("pyi");
        reveal_strlit("js");
        reveal_strlit("mjs");
        reveal_strlit("cjs");
        reveal_strlit("jsx");
        reveal_strlit("ts");
        assert("tsx"@.len() != "rs"@.len());
        assert("tsx"@.len() != "py"@.len());
        assert("tsx"@[0] != "pyi"@[0]);
        assert("tsx"@.len() != "js"@.len());
        assert("tsx"@[0] != "mjs"@[0]);
        assert("tsx"@[0] != "cjs"@[0]);
        assert("tsx"@[0] != "jsx"@[0]);
        assert("tsx"@.len() != "ts"@.len());
        lemma_filename_extension(stem, "tsx"@);
    }
    assert(lang_of_filename(stem + seq!['.'] + "go"@) == Some(Lang::Go)) by {
        reveal_strlit("go");
        reveal_strlit("rs");
        reveal_strlit("py");
        reveal_strlit("pyi");
        reveal_strlit("js");
        reveal_strlit("mjs");
        reveal_strlit("cjs");
        reveal_strlit("jsx");
        reveal_strlit("ts");
        reveal_strlit("tsx");
        assert("go"@[0] != "rs"@[0]);
        assert("go"@[0] != "py"@[0]);
        assert("go"@.len() != "pyi"@.len());
        assert("go"@[0] != "js"@[0]);
        assert("go"@.len() != "mjs"@.len());
        assert("go"@.len() != "cjs"@.len());
        assert("go"@.len() != "jsx"@.len());
        assert("go"@[0] != "ts"@[0]);
        assert("go"@.len() != "tsx"@.len());
        lemma_filename_extension(stem, "go"@);
    }
    assert(lang_of_filename(stem + seq!['.'] + "java"@) == Some(Lang::Java)) by {
        reveal_strlit("java");
        reveal_strlit("rs");
        reveal_strlit("py");
        reveal_strlit("pyi");
        reveal_strlit("js");
        reveal_strlit("mjs");
        reveal_strlit("cjs");
        reveal_strlit("jsx");
        reveal_strlit("ts");
        reveal_strlit("tsx");
        reveal_strlit("go");
        assert("java"@.len() != "rs"@.len());
        assert("java"@.len() != "py"@.len());
        assert("java"@.len() != "pyi"@.len());
        assert("java"@.len() != "js"@.len());
        assert("java"@.len() != "mjs"@.len());
        assert("java"@.len() != "cjs"@.len());
        assert("java"@.len() != "jsx"@.len());
        assert("java"@.len() != "ts"@.len());
        assert("java"@.len() != "tsx"@.len());
        assert("java"@.len() != "go"@.len());
        lemma_filename_extension(stem, "java"@);
    }
    assert(lang_of_filename(stem + seq!['.'] + "c"@) == Some(Lang::C)) by {
        reveal_strlit("c");
        reveal_strlit("rs");
        reveal_strlit("py");
        reveal_strlit("pyi");
        reveal_strlit("js");
        reveal_strlit("mjs");
        reveal_strlit("cjs");
        reveal_strlit("jsx");
        reveal_strlit("ts");
        reveal_strlit("tsx");
        reveal_strlit("go");
        reveal_strlit("java");
        assert("c"@.len() != "rs"@.len());
        assert("c"@.len() != "py"@.len());
        assert("c"@.len() != "pyi"@.len());
        assert("c"@.len() != "js"@.len());
        assert("c"@.len() != "mjs"@.len());
        assert("c"@.len() != "cjs"@.len());
        assert("c"@.len() != "jsx"@.len());
        assert("c"@.len() != "ts"@.len());
        assert("c"@.len() != "tsx"@.len());
        assert("c"@.len() != "go"@.len());
        assert("c"@.len() != "java"@.len());
        lemma_filename_extension(stem, "c"@);
    }
    assert(lang_of_filename(stem + seq!['.'] + "h"@) == Some(Lang::C)) by {
        reveal_strlit("h");
        reveal_strlit("rs");
        reveal_strlit("py");
        reveal_strlit("pyi");
        reveal_strlit("js");
        reveal_strlit("mjs");
        reveal_strlit("cjs");
        reveal_strlit("jsx");
        reveal_strlit("ts");
        reveal_strlit("tsx");
        reveal_strlit("go");
        reveal_strlit("java");
        reveal_strlit("c");
        assert("h"@.len() != "rs"@.len());
        assert("h"@.len() != "py"@.len());
        assert("h"@.len() != "pyi"@.len());
        assert("h"@.len() != "js"@.len());
        assert("h"@.len() != "mjs"@.len());
        assert("h"@.len() != "cjs"@.len());
        assert("h"@.len() != "jsx"@.len());
        assert("h"@.len() != "ts"@.len());
        assert("h"@.len() != "tsx"@.len());
        assert("h"@.len() != "go"@.len());
        assert("h"@.len() != "java"@.len());
        assert("h"@[0] != "c"@[0]);
        lemma_filename_extension(stem, "h"@);
    }
    assert(lang_of_filename(stem + seq!['.'] + "cpp"@) == Some(Lang::Cpp)) by {
        reveal_strlit("cpp");
        reveal_strlit("rs");
        reveal_strlit("py");
        reveal_strlit("pyi");
        reveal_strlit("js");
        reveal_strlit("mjs");
        reveal_strlit("cjs");
        reveal_strlit("jsx");
        reveal_strlit("ts");
        reveal_strlit("tsx");
        reveal_strlit("go");
        reveal_strlit("java");
        reveal_strlit("c");
        reveal_strlit("h");
        assert("cpp"@.len() != "rs"@.len());
        assert("cpp"@.len() != "py"@.len());
        assert("cpp"@[0] != "pyi"@[0]);
        assert("cpp"@.len() != "js"@.len());
        assert("cpp"@[0] != "mjs"@[0]);
        assert("cpp"@[1] != "cjs"@[1]);
        assert("cpp"@[0] != "jsx"@[0]);
        assert("cpp"@.len() != "ts"@.len());
        assert("cpp"@[0] != "tsx"@[0]);
        assert("cpp"@.len() != "go"@.len());
        assert("cpp"@.len() != "java"@.len());
        assert("cpp"@.len() != "c"@.len());
        assert("cpp"@.len() != "h"@.len());
        lemma_filename_extension(stem, "cpp"@);
    }
    assert(lang_of_filename(stem + seq!['.'] + "cc"@) == Some(Lang::Cpp)) by {
        reveal_strlit("cc");
        reveal_strlit("rs");
        reveal_strlit("py");
        reveal_strlit("pyi");
        reveal_strlit("js");
        reveal_strlit("mjs");
        reveal_strlit("cjs");
        reveal_strlit("jsx");
        reveal_strlit("ts");
        reveal_strlit("tsx");
        reveal_strlit("go");
        reveal_strlit("java");
        reveal_strlit("c");
        reveal_strlit("h");
        reveal_strlit("cpp");
        assert("cc"@[0] != "rs"@[0]);
        assert("cc"@[0] != "py"@[0]);
        assert("cc"@.len() != "pyi"@.len());
        assert("cc"@[0] != "js"@[0]);
        assert("cc"@.len() != "mjs"@.len());
        assert("cc"@.len() != "cjs"@.len());
        assert("cc"@.len() != "jsx"@.len());
        assert("cc"@[0] != "ts"@[0]);
        assert("cc"@.len() != "tsx"@.len());
        assert("cc"@[0] != "go"@[0]);
        assert("cc"@.len() != "java"@.len());
        assert("cc"@.len() != "c"@.len());
        assert("cc"@.len() != "h"@.len());
        assert("cc"@.len() != "cpp"@.len());
        lemma_filename_extension(stem, "cc"@);
    }
    assert(lang_of_filename(stem + seq!['.'] + "cxx"@) == Some(Lang::Cpp)) by {
        reveal_strlit("cxx");
        reveal_strlit("rs");
        reveal_strlit("py");
        reveal_strlit("pyi");
        reveal_strlit("js");
        reveal_strlit("mjs");
        reveal_strlit("cjs");
        reveal_strlit("jsx");
        reveal_strlit("ts");
        reveal_strlit("tsx");
        reveal_strlit("go");
        reveal_strlit("java");
        reveal_strlit("c");
        reveal_strlit("h");
        reveal_strlit("cpp");
        reveal_strlit("cc");
        assert("cxx"@.len() != "rs"@.len());
        assert("cxx"@.len() != "py"@.len());
        assert("cxx"@[0] != "pyi"@[0]);
        assert("cxx"@.len() != "js"@.len());
        assert("cxx"@[0] != "mjs"@[0]);
        assert("cxx"@[1] != "cjs"@[1]);
        assert("cxx"@[0] != "jsx"@[0]);
        assert("cxx"@.len() != "ts"@.len());
        assert("cxx"@[0] != "tsx"@[0]);
        assert("cxx"@.len() != "go"@.len());
        assert("cxx"@.len() != "java"@.len());
        assert("cxx"@.len() != "c"@.len());
        assert("cxx"@.len() != "h"@.len());
        assert("cxx"@[1] != "cpp"@[1]);
        assert("cxx"@.len() != "cc"@.len());
        lemma_filename_extension(stem, "cxx"@);
    }
    assert(lang_of_filename(stem + seq!['.'] + "hpp"@) == Some(Lang::Cpp)) by {
        reveal_strlit("hpp");
        reveal_strlit("rs");
        reveal_strlit("py");
        reveal_strlit("pyi");
        reveal_strlit("js");
        reveal_strlit("mjs");
        reveal_strlit("cjs");
        reveal_strlit("jsx");
        reveal_strlit("ts");
        reveal_strlit("tsx");
        reveal_strlit("go");
        reveal_strlit("java");
        reveal_strlit("c");
        reveal_strlit("h");
        reveal_strlit("cpp");
        reveal_strlit("cc");
        reveal_strlit("cxx");
        assert("hpp"@.len() != "rs"@.len());
        assert("hpp"@.len() != "py"@.len());
        assert("hpp"@[0] != "pyi"@[0]);
        assert("hpp"@.len() != "js"@.len());
        assert("hpp"@[0] != "mjs"@[0]);
        assert("hpp"@[0] != "cjs"@[0]);
        assert("hpp"@[0] != "jsx"@[0]);
        assert("hpp"@.len() != "ts"@.len());
        assert("hpp"@[0] != "tsx"@[0]);
        assert("hpp"@.len() != "go"@.len());
        assert("hpp"@.len() != "java"@.len());
        assert("hpp"@.len() != "c"@.len());
        assert("hpp"@.len() != "h"@.len());
        assert("hpp"@[0] != "cpp"@[0]);
        assert("hpp"@.len() != "cc"@.len());
        assert("hpp"@[0] != "cxx"@[0]);
        lemma_filename_extension(stem, "hpp"@);
    }
    assert(lang_of_filename(stem + seq!['.'] + "hxx"@) == Some(Lang::Cpp)) by {
        reveal_strlit("hxx");
        reveal_strlit("rs");
        reveal_strlit("py");
        reveal_strlit("pyi");
        reveal_strlit("js");
        reveal_strlit("mjs");
        reveal_strlit("cjs");
        reveal_strlit("jsx");
        reveal_strlit("ts");
        reveal_strlit("tsx");
        reveal_strlit("go");
        reveal_strlit("java");
        reveal_strlit("c");
        reveal_strlit("h");
        reveal_strlit("cpp");
        reveal_strlit("cc");
        reveal_strlit("cxx");
        reveal_strlit("hpp");
        assert("hxx"@.len() != "rs"@.len());
        assert("hxx"@.len() != "py"@.len());
        assert("hxx"@[0] != "pyi"@[0]);
        assert("hxx"@.len() != "js"@.len());
        assert("hxx"@[0] != "mjs"@[0]);
        assert("hxx"@[0] != "cjs"@[0]);
        assert("hxx"@[0] != "jsx"@[0]);
        assert("hxx"@.len() != "ts"@.len());
        assert("hxx"@[0] != "tsx"@[0]);
        assert("hxx"@.len() != "go"@.len());
        assert("hxx"@.len() != "java"@.len());
        assert("hxx"@.len() != "c"@.len());
        assert("hxx"@.len() != "h"@.len());
        assert("hxx"@[0] != "cpp"@[0]);
        assert("hxx"@.len() != "cc"@.len());
        assert("hxx"@[0] != "cxx"@[0]);
        assert("hxx"@[1] != "hpp"@[1]);
        lemma_filename_extension(stem, "hxx"@);
    }
    assert(lang_of_filename(stem + seq!['.'] + "hh"@) == Some(Lang::Cpp)) by {
        reveal_strlit("hh");
        reveal_strlit("rs");
        reveal_strlit("py");
        reveal_strlit("pyi");
        reveal_strlit("js");
        reveal_strlit("mjs");
        reveal_strlit("cjs");
        reveal_strlit("jsx");
        reveal_strlit("ts");
        reveal_strlit("tsx");
        reveal_strlit("go");
        reveal_strlit("java");
        reveal_strlit("c");
        reveal_strlit("h");
        reveal_strlit("cpp");
        reveal_strlit("cc");
        reveal_strlit("cxx");
        reveal_strlit("hpp");
        reveal_strlit("hxx");
        assert("hh"@[0] != "rs"@[0]);
        assert("hh"@[0] != "py"@[0]);
        assert("hh"@.len() != "pyi"@.len());
        assert("hh"@[0] != "js"@[0]);
        assert("hh"@.len() != "mjs"@.len());
        assert("hh"@.len() != "cjs"@.len());
        assert("hh"@.len() != "jsx"@.len());
        assert("hh"@[0] != "ts"@[0]);
        assert("hh"@.len() != "tsx"@.len());
        assert("hh"@[0] != "go"@[0]);
        assert("hh"@.len() != "java"@.len());
        assert("hh"@.len() != "c"@.len());
        assert("hh"@.len() != "h"@.len());
        assert("hh"@.len() != "cpp"@.len());
        assert("hh"@[0] != "cc"@[0]);
        assert("hh"@.len() != "cxx"@.len());
        assert("hh"@.len() != "hpp"@.len());
        assert("hh"@.len() != "hxx"@.len());
        lemma_filename_extension(stem, "hh"@);
    }
    assert(lang_of_filename(stem + seq!['.'] + "json"@) == Some(Lang::Json)) by {
        reveal_strlit("json");
        reveal_strlit("rs");
        reveal_strlit("py");
        reveal_strlit("pyi");
        reveal_strlit("js");
        reveal_strlit("mjs");
        reveal_strlit("cjs");
        reveal_strlit("jsx");
        reveal_strlit("ts");
        reveal_strlit("tsx");
        reveal_strlit("go");
        reveal_strlit("java");
        reveal_strlit("c");
        reveal_strlit("h");
        reveal_strlit("cpp");
        reveal_strlit("cc");
        reveal_strlit("cxx");
        reveal_strlit("hpp");
        reveal_strlit("hxx");
        reveal_strlit("hh");
        assert("json"@.len() != "rs"@.len());
        assert("json"@.len() != "py"@.len());
        assert("json"@.len() != "pyi"@.len());
        assert("json"@.len() != "js"@.len());
        assert("json"@.len() != "mjs"@.len());
        assert("json"@.len() != "cjs"@.len());
        assert("json"@.len() != "jsx"@.len());
        assert("json"@.len() != "ts"@.len());
        assert("json"@.len() != "tsx"@.len());
        assert("json"@.len() != "go"@.len());
        assert("json"@[1] != "java"@[1]);
        assert("json"@.len() != "c"@.len());
        assert("json"@.len() != "h"@.len());
        assert("json"@.len() != "cpp"@.len());
        assert("json"@.len() != "cc"@.len());
        assert("json"@.len() != "cxx"@.len());
        assert("json"@.len() != "hpp"@.len());
        assert("json"@.len() != "hxx"@.len());
        assert("json"@.len() != "hh"@.len());
        lemma_filename_extension(stem, "json"@);
    }
}

/// The alias table: each of these names, and so any of them in any ASCII
/// case with white space around it, names the language shown.
pub proof fn law_language_alias_table()
    ensures
        lang_from_name("rust"@) == Some(Lang::Rust),
        lang_from_name("rs"@) == Some(Lang::Rust),
        lang_from_name("python"@) == Some(Lang::Python),
        lang_from_name("py"@) == Some(Lang::Python),
        lang_from_name("javascript"@) == Some(Lang::JavaScript),
        lang_from_name("js"@) == Some(Lang::JavaScript),
        lang_from_name("jsx"@) == Some(Lang::JavaScript),
        lang_from_name("mjs"@) == Some(Lang::JavaScript),
        lang_from_name("cjs"@) == Some(Lang::JavaScript),
        lang_from_name("typescript"@) == Some(Lang::TypeScript),
        lang_from_name("ts"@) == Some(Lang::TypeScript),
        lang_from_name("go"@) == Some(Lang::Go),
        lang_from_name("golang"@) == Some(Lang::Go),
        lang_from_name("java"@) == Some(Lang::Java),
        lang_from_name("c"@) == Some(Lang::C),
        lang_from_name("h"@) == Some(Lang::C),
        lang_from_name("cpp"@) == Some(Lang::Cpp),
        lang_from_name("c++"@) == Some(Lang::Cpp),
        lang_from_name("cxx"@) == Some(Lang::Cpp),
        lang_from_name("cc"@) == Some(Lang::Cpp),
        lang_from_name("hpp"@) == Some(Lang::Cpp),
        lang_from_name("hxx"@) == Some(Lang::Cpp),
        lang_from_name("json"@) == Some(Lang::Json),
{
    assert(lang_from_name("rust"@) == Some(Lang::Rust)) by {
        reveal_strlit("rust");


        lemma_normal_form("rust"@);
    }
    assert(lang_from_name("rs"@) == Some(Lang::Rust)) by {
        reveal_strlit("rs");
        reveal_strlit("rust");
        assert("rs"@.len() != "rust"@.len());
        lemma_normal_form("rs"@);
    }
    assert(lang_from_name("python"@) == Some(Lang::Python)) by {
        reveal_strlit("python");
        reveal_strlit("rust");
        reveal_strlit("rs");
        assert("python"@.len() != "rust"@.len());
        assert("python"@.len() != "rs"@.len());
        lemma_normal_form("python"@);
    }
    assert(lang_from_name("py"@) == Some(Lang::Python)) by {
        reveal_strlit("py");
        reveal_strlit("rust");
        reveal_strlit("rs");
        reveal_strlit("python");
        assert("py"@.len() != "rust"@.len());
        assert("py"@[0] != "rs"@[0]);
        assert("py"@.len() != "python"@.len());
        lemma_normal_form("py"@);
    }
    assert(lang_from_name("javascript"@) == Some(Lang::JavaScript)) by {
        reveal_strlit("javascript");
        reveal_strlit("rust");
        reveal_strlit("rs");
        reveal_strlit("python");
        reveal_strlit("py");
        assert("javascript"@.len() != "rust"@.len());
        assert("javascript"@.len() != "rs"@.len());
        assert("javascript"@.len() != "python"@.len());
        assert("javascript"@.len() != "py"@.len());
        lemma_normal_form("javascript"@);
    }
    assert(lang_from_name("js"@) == Some(Lang::JavaScript)) by {
        reveal_strlit("js");
        reveal_strlit("rust");
        reveal_strlit("rs");
        reveal_strlit("python");
        reveal_strlit("py");
        reveal_strlit("javascript");
        assert("js"@.len() != "rust"@.len());
        assert("js"@[0] != "rs"@[0]);
        assert("js"@.len() != "python"@.len());
        assert("js"@[0] != "py"@[0]);
        assert("js"@.len() != "javascript"@.len());
        lemma_normal_form("js"@);
    }
    assert(lang_from_name("jsx"@) == Some(Lang::JavaScript)) by {
        reveal_strlit("jsx");
        reveal_strlit("rust");
        reveal_strlit("rs");
        reveal_strlit("python");
        reveal_strlit("py");
        reveal_strlit("javascript");
        reveal_strlit("js");
        assert("jsx"@.len() != "rust"@.len());
        assert("jsx"@.len() != "rs"@.len());
        assert("jsx"@.len() != "python"@.len());
        assert("jsx"@.len() != "py"@.len());
        assert("jsx"@.len() != "javascript"@.len());
        assert("jsx"@.len() != "js"@.len());
        lemma_normal_form("jsx"@);
    }
    assert(lang_from_name("mjs"@) == Some(Lang::JavaScript)) by {
        reveal_strlit("mjs");
        reveal_strlit("rust");
        reveal_strlit("rs");
        reveal_strlit("python");
        reveal_strlit("py");
        reveal_strlit("javascript");
        reveal_strlit("js");
        reveal_strlit("jsx");
        assert("mjs"@.len() != "rust"@.len());
        assert("mjs"@.len() != "rs"@.len());
        assert("mjs"@.len() != "python"@.len());
        assert("mjs"@.len() != "py"@.len());
        assert("mjs"@.len() != "javascript"@.len());
        assert("mjs"@.len() != "js"@.len());
        assert("mjs"@[0] != "jsx"@[0]);
        lemma_normal_form("mjs"@);
    }
    assert(lang_from_name("cjs"@) == Some(Lang::JavaScript)) by {
        reveal_strlit("cjs");
        reveal_strlit("rust");
        reveal_strlit("rs");
        reveal_strlit("python");
        reveal_strlit("py");
        reveal_strlit("javascript");
        reveal_strlit("js");
        reveal_strlit("jsx");
        reveal_strlit("mjs");
        assert("cjs"@.len() != "rust"@.len());
        assert("cjs"@.len() != "rs"@.len());
        assert("cjs"@.len() != "python"@.len());
        assert("cjs"@.len() != "py"@.len());
        assert("cjs"@.len() != "javascript"@.len());
        assert("cjs"@.len() != "js"@.len());
        assert("cjs"@[0] != "jsx"@[0]);
        assert("cjs"@[0] != "mjs"@[0]);
        lemma_normal_form("cjs"@);
    }
    assert(lang_from_name("typescript"@) == Some(Lang::TypeScript)) by {
        reveal_strlit("typescript");
        reveal_strlit("rust");
        reveal_strlit("rs");
        reveal_strlit("python");
        reveal_strlit("py");
        reveal_strlit("javascript");
        reveal_strlit("js");
        reveal_strlit("jsx");
        reveal_strlit("mjs");
        reveal_strlit("cjs");
        assert("typescript"@.len() != "rust"@.len());
        assert("typescript"@.len() != "rs"@.len());
        assert("typescript"@.len() != "python"@.len());
        assert("typescript"@.len() != "py"@.len());
        assert("typescript"@[0] != "javascript"@[0]);
        assert("typescript"@.len() != "js"@.len());
        assert("typescript"@.len() != "jsx"@.len());
        assert("typescript"@.len() != "mjs"@.len());
        assert("typescript"@.len() != "cjs"@.len());
        lemma_normal_form("typescript"@);
    }
    assert(lang_from_name("ts"@) == Some(Lang::TypeScript)) by {
        reveal_strlit("ts");
        reveal_strlit("rust");
        reveal_strlit("rs");
        reveal_strlit("python");
        reveal_strlit("py");
        reveal_strlit("javascript");
        reveal_strlit("js");
        reveal_strlit("jsx");
        reveal_strlit("mjs");
        reveal_strlit("cjs");
        reveal_strlit("typescript");
        assert("ts"@.len() != "rust"@.len());
        assert("ts"@[0] != "rs"@[0]);
        assert("ts"@.len() != "python"@.len());
        assert("ts"@[0] != "py"@[0]);
        assert("ts"@.len() != "javascript"@.len());
        assert("ts"@[0] != "js"@[0]);
        assert("ts"@.len() != "jsx"@.len());
        assert("ts"@.len() != "mjs"@.len());
        assert("ts"@.len() != "cjs"@.len());
        assert("ts"@.len() != "typescript"@.len());
        lemma_normal_form("ts"@);
    }
    assert(lang_from_name("go"@) == Some(Lang::Go)) by {
        reveal_strlit("go");
        reveal_strlit("rust");
        reveal_strlit("rs");
        reveal_strlit("python");
        reveal_strlit("py");
        reveal_strlit("javascript");
        reveal_strlit("js");
        reveal_strlit("jsx");
        reveal_strlit("mjs");
        reveal_strlit("cjs");
        reveal_strlit("typescript");
        reveal_strlit("ts");
        assert("go"@.len() != "rust"@.len());
        assert("go"@[0] != "rs"@[0]);
        assert("go"@.len() != "python"@.len());
        assert("go"@[0] != "py"@[0]);
        assert("go"@.len() != "javascript"@.len());
        assert("go"@[0] != "js"@[0]);
        assert("go"@.len() != "jsx"@.len());
        assert("go"@.len() != "mjs"@.len());
        assert("go"@.len() != "cjs"@.len());
        assert("go"@.len() != "typescript"@.len());
        assert("go"@[0] != "ts"@[0]);
        lemma_normal_form("go"@);
    }
    assert(lang_from_name("golang"@) == Some(Lang::Go)) by {
        reveal_strlit("golang");
        reveal_strlit("rust");
        reveal_strlit("rs");
        reveal_strlit("python");
        reveal_strlit("py");
        reveal_strlit("javascript");
        reveal_strlit("js");
        reveal_strlit("jsx");
        reveal_strlit("mjs");
        reveal_strlit("cjs");
        reveal_strlit("typescript");
        reveal_strlit("ts");
        reveal_strlit("go");
        assert("golang"@.len() != "rust"@.len());
        assert("golang"@.len() != "rs"@.len());
        assert("golang"@[0] != "python"@[0]);
        assert("golang"@.len() != "py"@.len());
        assert("golang"@.len() != "javascript"@.len());
        assert("golang"@.len() != "js"@.len());
        assert("golang"@.len() != "jsx"@.len());
        assert("golang"@.len() != "mjs"@.len());
        assert("golang"@.len() != "cjs"@.len());
        assert("golang"@.len() != "typescript"@.len());
        assert("golang"@.len() != "ts"@.len());
        assert("golang"@.len() != "go"@.len());
        lemma_normal_form("golang"@);
    }
    assert(lang_from_name("java"@) == Some(Lang::Java)) by {
        reveal_strlit("java");
        reveal_strlit("rust");
        reveal_strlit("rs");
        reveal_strlit("python");
        reveal_strlit("py");
        reveal_strlit("javascript");
        reveal_strlit("js");
        reveal_strlit("jsx");
        reveal_strlit("mjs");
        reveal_strlit("cjs");
        reveal_strlit("typescript");
        reveal_strlit("ts");
        reveal_strlit("go");
        reveal_strlit("golang");
        assert("java"@[0] != "rust"@[0]);
        assert("java"@.len() != "rs"@.len());
        assert("java"@.len() != "python"@.len());
        assert("java"@.len() != "py"@.len());
        assert("java"@.len() != "javascript"@.len());
        assert("java"@.len() != "js"@.len());
        assert("java"@.len() != "jsx"@.len());
        assert("java"@.len() != "mjs"@.len());
        assert("java"@.len() != "cjs"@.len());
        assert("java"@.len() != "typescript"@.len());
        assert("java"@.len() != "ts"@.len());
        assert("java"@.len() != "go"@.len());
        assert("java"@.len() != "golang"@.len());
        lemma_normal_form("java"@);
    }
    assert(lang_from_name("c"@) == Some(Lang::C)) by {
        reveal_strlit("c");
        reveal_strlit("rust");
        reveal_strlit("rs");
        reveal_strlit("python");
        reveal_strlit("py");
        reveal_strlit("javascript");
        reveal_strlit("js");
        reveal_strlit("jsx");
        reveal_strlit("mjs");
        reveal_strlit("cjs");
        reveal_strlit("typescript");
        reveal_strlit("ts");
        reveal_strlit("go");
        reveal_strlit("golang");
        reveal_strlit("java");
        assert("c"@.len() != "rust"@.len());
        assert("c"@.len() != "rs"@.len());
        assert("c"@.len() != "python"@.len());
        assert("c"@.len() != "py"@.len());
        assert("c"@.len() != "javascript"@.len());
        assert("c"@.len() != "js"@.len());
        assert("c"@.len() != "jsx"@.len());
        assert("c"@.len() != "mjs"@.len());
        assert("c"@.len() != "cjs"@.len());
        assert("c"@.len() != "typescript"@.len());
        assert("c"@.len() != "ts"@.len());
        assert("c"@.len() != "go"@.len());
        assert("c"@.len() != "golang"@.len());
        assert("c"@.len() != "java"@.len());
        lemma_normal_form("c"@);
    }
    assert(lang_from_name("h"@) == Some(Lang::C)) by {
        reveal_strlit("h");
        reveal_strlit("rust");
        reveal_strlit("rs");
        reveal_strlit("python");
        reveal_strlit("py");
        reveal_strlit("javascript");
        reveal_strlit("js");
        reveal_strlit("jsx");
        reveal_strlit("mjs");
        reveal_strlit("cjs");
        reveal_strlit("typescript");
        reveal_strlit("ts");
        reveal_strlit("go");
        reveal_strlit("golang");
        reveal_strlit("java");
        reveal_strlit("c");
        assert("h"@.len() != "rust"@.len());
        assert("h"@.len() != "rs"@.len());
        assert("h"@.len() != "python"@.len());
        assert("h"@.len() != "py"@.len());
        assert("h"@.len() != "javascript"@.len());
        assert("h"@.len() != "js"@.len());
        assert("h"@.len() != "jsx"@.len());
        assert("h"@.len() != "mjs"@.len());
        assert("h"@.len() != "cjs"@.len());
        assert("h"@.len() != "typescript"@.len());
        assert("h"@.len() != "ts"@.len());
        assert("h"@.len() != "go"@.len());
        assert("h"@.len() != "golang"@.len());
        assert("h"@.len() != "java"@.len());
        assert("h"@[0] != "c"@[0]);
        lemma_normal_form("h"@);
    }
    assert(lang_from_name("cpp"@) == Some(Lang::Cpp)) by {
        reveal_strlit("cpp");
        reveal_strlit("rust");
        reveal_strlit("rs");
        reveal_strlit("python");
        reveal_strlit("py");
        reveal_strlit("javascript");
        reveal_strlit("js");
        reveal_strlit("jsx");
        reveal_strlit("mjs");
        reveal_strlit("cjs");
        reveal_strlit("typescript");
        reveal_strlit("ts");
        reveal_strlit("go");
        reveal_strlit("golang");
        reveal_strlit("java");
        reveal_strlit("c");
        reveal_strlit("h");
        assert("cpp"@.len() != "rust"@.len());
        assert("cpp"@.len() != "rs"@.len());
        assert("cpp"@.len() != "python"@.len());
        assert("cpp"@.len() != "py"@.len());
        assert("cpp"@.len() != "javascript"@.len());
        assert("cpp"@.len() != "js"@.len());
        assert("cpp"@[0] != "jsx"@[0]);
        assert("cpp"@[0] != "mjs"@[0]);
        assert("cpp"@[1] != "cjs"@[1]);
        assert("cpp"@.len() != "typescript"@.len());
        assert("cpp"@.len() != "ts"@.len());
        assert("cpp"@.len() != "go"@.len());
        assert("cpp"@.len() != "golang"@.len());
        assert("cpp"@.len() != "java"@.len());
        assert("cpp"@.len() != "c"@.len());
        assert("cpp"@.len() != "h"@.len());
        lemma_normal_form("cpp"@);
    }
    assert(lang_from_name("c++"@) == Some(Lang::Cpp)) by {
        reveal_strlit("c++");
        reveal_strlit("rust");
        reveal_strlit("rs");
        reveal_strlit("python");
        reveal_strlit("py");
        reveal_strlit("javascript");
        reveal_strlit("js");
        reveal_strlit("jsx");
        reveal_strlit("mjs");
        reveal_strlit("cjs");
        reveal_strlit("typescript");
        reveal_strlit("ts");
        reveal_strlit("go");
        reveal_strlit("golang");
        reveal_strlit("java");
        reveal_strlit("c");
        reveal_strlit("h");
        reveal_strlit("cpp");
        assert("c++"@.len() != "rust"@.len());
        assert("c++"@.len() != "rs"@.len());
        assert("c++"@.len() != "python"@.len());
        assert("c++"@.len() != "py"@.len());
        assert("c++"@.len() != "javascript"@.len());
        assert("c++"@.len() != "js"@.len());
        assert("c++"@[0] != "jsx"@[0]);
        assert("c++"@[0] != "mjs"@[0]);
        assert("c++"@[1] != "cjs"@[1]);
        assert("c++"@.len() != "typescript"@.len());
        assert("c++"@.len() != "ts"@.len());
        assert("c++"@.len() != "go"@.len());
        assert("c++"@.len() != "golang"@.len());
        assert("c++"@.len() != "java"@.len());
        assert("c++"@.len() != "c"@.len());
        assert("c++"@.len() != "h"@.len());
        assert("c++"@[1] != "cpp"@[1]);
        lemma_normal_form("c++"@);
    }
    assert(lang_from_name("cxx"@) == Some(Lang::Cpp)) by {
        reveal_strlit("cxx");
        reveal_strlit("rust");
        reveal_strlit("rs");
        reveal_strlit("python");
        reveal_strlit("py");
        reveal_strlit("javascript");
        reveal_strlit("js");
        reveal_strlit("jsx");
        reveal_strlit("mjs");
        reveal_strlit("cjs");
        reveal_strlit("typescript");
        reveal_strlit("ts");
        reveal_strlit("go");
        reveal_strlit("golang");
        reveal_strlit("java");
        reveal_strlit("c");
        reveal_strlit("h");
        reveal_strlit("cpp");
        reveal_strlit("c++");
        assert("cxx"@.len() != "rust"@.len());
        assert("cxx"@.len() != "rs"@.len());
        assert("cxx"@.len() != "python"@.len());
        assert("cxx"@.len() != "py"@.len());
        assert("cxx"@.len() != "javascript"@.len());
        assert("cxx"@.len() != "js"@.len());
        assert("cxx"@[0] != "jsx"@[0]);
        assert("cxx"@[0] != "mjs"@[0]);
        assert("cxx"@[1] != "cjs"@[1]);
        assert("cxx"@.len() != "typescript"@.len());
        assert("cxx"@.len() != "ts"@.len());
        assert("cxx"@.len() != "go"@.len());
        assert("cxx"@.len() != "golang"@.len());
        assert("cxx"@.len() != "java"@.len());
        assert("cxx"@.len() != "c"@.len());
        assert("cxx"@.len() != "h"@.len());
        assert("cxx"@[1] != "cpp"@[1]);
        assert("cxx"@[1] != "c++"@[1]);
        lemma_normal_form("cxx"@);
    }
    assert(lang_from_name("cc"@) == Some(Lang::Cpp)) by {
        reveal_strlit("cc");
        reveal_strlit("rust");
        reveal_strlit("rs");
        reveal_strlit("python");
        reveal_strlit("py");
        reveal_strlit("javascript");
        reveal_strlit("js");
        reveal_strlit("jsx");
        reveal_strlit("mjs");
        reveal_strlit("cjs");
        reveal_strlit("typescript");
        reveal_strlit("ts");
        reveal_strlit("go");
        reveal_strlit("golang");
        reveal_strlit("java");
        reveal_strlit("c");
        reveal_strlit("h");
        reveal_strlit("cpp");
        reveal_strlit("c++");
        reveal_strlit("cxx");
        assert("cc"@.len() != "rust"@.len());
        assert("cc"@[0] != "rs"@[0]);
        assert("cc"@.len() != "python"@.len());
        assert("cc"@[0] != "py"@[0]);
        assert("cc"@.len() != "javascript"@.len());
        assert("cc"@[0] != "js"@[0]);
        assert("cc"@.len() != "jsx"@.len());
        assert("cc"@.len() != "mjs"@.len());
        assert("cc"@.len() != "cjs"@.len());
        assert("cc"@.len() != "typescript"@.len());
        assert("cc"@[0] != "ts"@[0]);
        assert("cc"@[0] != "go"@[0]);
        assert("cc"@.len() != "golang"@.len());
        assert("cc"@.len() != "java"@.len());
        assert("cc"@.len() != "c"@.len());
        assert("cc"@.len() != "h"@.len());
        assert("cc"@.len() != "cpp"@.len());
        assert("cc"@.len() != "c++"@.len());
        assert("cc"@.len() != "cxx"@.len());
        lemma_normal_form("cc"@);
    }
    assert(lang_from_name("hpp"@) == Some(Lang::Cpp)) by {
        reveal_strlit("hpp");
        reveal_strlit("rust");
        reveal_strlit("rs");
        reveal_strlit("python");
        reveal_strlit("py");
        reveal_strlit("javascript");
        reveal_strlit("js");
        reveal_strlit("jsx");
        reveal_strlit("mjs");
        reveal_strlit("cjs");
        reveal_strlit("typescript");
        reveal_strlit("ts");
        reveal_strlit("go");
        reveal_strlit("golang");
        reveal_strlit("java");
        reveal_strlit("c");
        reveal_strlit("h");
        reveal_strlit("cpp");
        reveal_strlit("c++");
        reveal_strlit("cxx");
        reveal_strlit("cc");
        assert("hpp"@.len() != "rust"@.len());
        assert("hpp"@.len() != "rs"@.len());
        assert("hpp"@.len() != "python"@.len());
        assert("hpp"@.len() != "py"@.len());
        assert("hpp"@.len() != "javascript"@.len());
        assert("hpp"@.len() != "js"@.len());
        assert("hpp"@[0] != "jsx"@[0]);
        assert("hpp"@[0] != "mjs"@[0]);
        assert("hpp"@[0] != "cjs"@[0]);
        assert("hpp"@.len() != "typescript"@.len());
        assert("hpp"@.len() != "ts"@.len());
        assert("hpp"@.len() != "go"@.len());
        assert("hpp"@.len() != "golang"@.len());
        assert("hpp"@.len() != "java"@.len());
        assert("hpp"@.len() != "c"@.len());
        assert("hpp"@.len() != "h"@.len());
        assert("hpp"@[0] != "cpp"@[0]);
        assert("hpp"@[0] != "c++"@[0]);
        assert("hpp"@[0] != "cxx"@[0]);
        assert("hpp"@.len() != "cc"@.len());
        lemma_normal_form("hpp"@);
    }
    assert(lang_from_name("hxx"@) == Some(Lang::Cpp)) by {
        reveal_strlit("hxx");
        reveal_strlit("rust");
        reveal_strlit("rs");
        reveal_strlit("python");
        reveal_strlit("py");
        reveal_strlit("javascript");
        reveal_strlit("js");
        reveal_strlit("jsx");
        reveal_strlit("mjs");
        reveal_strlit("cjs");
        reveal_strlit("typescript");
        reveal_strlit("ts");
        reveal_strlit("go");
        reveal_strlit("golang");
        reveal_strlit("java");
        reveal_strlit("c");
        reveal_strlit("h");
        reveal_strlit("cpp");
        reveal_strlit("c++");
        reveal_strlit("cxx");
        reveal_strlit("cc");
        reveal_strlit("hpp");
        assert("hxx"@.len() != "rust"@.len());
        assert("hxx"@.len() != "rs"@.len());
        assert("hxx"@.len() != "python"@.len());
        assert("hxx"@.len() != "py"@.len());
        assert("hxx"@.len() != "javascript"@.len());
        assert("hxx"@.len() != "js"@.len());
        assert("hxx"@[0] != "jsx"@[0]);
        assert("hxx"@[0] != "mjs"@[0]);
        assert("hxx"@[0] != "cjs"@[0]);
        assert("hxx"@.len() != "typescript"@.len());
        assert("hxx"@.len() != "ts"@.len());
        assert("hxx"@.len() != "go"@.len());
        assert("hxx"@.len() != "golang"@.len());
        assert("hxx"@.len() != "java"@.len());
        assert("hxx"@.len() != "c"@.len());
        assert("hxx"@.len() != "h"@.len());
        assert("hxx"@[0] != "cpp"@[0]);
        assert("hxx"@[0] != "c++"@[0]);
        assert("hxx"@[0] != "cxx"@[0]);
        assert("hxx"@.len() != "cc"@.len());
        assert("hxx"@[1] != "hpp"@[1]);
        lemma_normal_form("hxx"@);
    }
    assert(lang_from_name("json"@) == Some(Lang::Json)) by {
        reveal_strlit("json");
        reveal_strlit("rust");
        reveal_strlit("rs");
        reveal_strlit("python");
        reveal_strlit("py");
        reveal_strlit("javascript");
        reveal_strlit("js");
        reveal_strlit("jsx");
        reveal_strlit("mjs");
        reveal_strlit("cjs");
        reveal_strlit("typescript");
        reveal_strlit("ts");
        reveal_strlit("go");
        reveal_strlit("golang");
        reveal_strlit("java");
        reveal_strlit("c");
        reveal_strlit("h");
        reveal_strlit("cpp");
        reveal_strlit("c++");
        reveal_strlit("cxx");
        reveal_strlit("cc");
        reveal_strlit("hpp");
        reveal_strlit("hxx");
        assert("json"@[0] != "rust"@[0]);
        assert("json"@.len() != "rs"@.len());
        assert("json"@.len() != "python"@.len());
        assert("json"@.len() != "py"@.len());
        assert("json"@.len() != "javascript"@.len());
        assert("json"@.len() != "js"@.len());
        assert("json"@.len() != "jsx"@.len());
        assert("json"@.len() != "mjs"@.len());
        assert("json"@.len() != "cjs"@.len());
        assert("json"@.len() != "typescript"@.len());
        assert("json"@.len() != "ts"@.len());
        assert("json"@.len() != "go"@.len());
        assert("json"@.len() != "golang"@.len());
        assert("json"@[1] != "java"@[1]);
        assert("json"@.len() != "c"@.len());
        assert("json"@.len() != "h"@.len());
        assert("json"@.len() != "cpp"@.len());
        assert("json"@.len() != "c++"@.len());
        assert("json"@.len() != "cxx"@.len());
        assert("json"@.len() != "cc"@.len());
        assert("json"@.len() != "hpp"@.len());
        assert("json"@.len() != "hxx"@.len());
        lemma_normal_form("json"@);
    }
}

/// The function count counts exactly the symbols whose kind is `function`
/// or `method`: one for each of them, none for any other kind.
pub proof fn law_function_count_counts_functions_and_methods(s: Seq<SymbolView>)
    ensures
        count_function_symbols(s) == s.filter(|x: SymbolView| x.kind == "function"@ || x.kind == "method"@).len(),
    decreases s.len(),
{
    reveal(Seq::filter);
    if s.len() > 0 {
        law_function_count_counts_functions_and_methods(s.drop_last());
    }
}

/// Pairing keeps every symbol it has made: the symbols made from a prefix of
/// the captures stand, in place, at the front of those made from a longer
/// prefix.
proof fn lemma_pairing_keeps(cv: Seq<CaptureView>, m: int, n: int)
    requires
        0 <= m <= n <= cv.len(),
    ensures
        pairing(cv.take(m)).0.len() <= pairing(cv.take(n)).0.len(),
        forall|k: int|
            0 <= k < pairing(cv.take(m)).0.len() ==> #[trigger] pairing(cv.take(n)).0[k] == pairing(
                cv.take(m),
            ).0[k],
    decreases n - m,
{
    if m < n {
        lemma_pairing_keeps(cv, m, n - 1);
        assert(cv.take(n).drop_last() =~= cv.take(n - 1));
        assert(cv.take(n).last() == cv[n - 1]);
    }
}

/// A definition capture directly followed by the name capture of the same
/// kind makes a symbol of that kind, named by the name's text and spanning
/// the lines of the definition (the whole definition node), not those of the
/// name.
pub proof fn law_paired_symbol_spans_its_definition(cv: Seq<CaptureView>, j: int, kind: Seq<char>)
    requires
        0 <= j,
        j + 1 < cv.len(),
        cv[j].capture == kind + ".def"@,
        cv[j + 1].capture == kind + ".name"@,
    ensures
        symbol_list(cv).contains(
            SymbolView {
                kind,
                name: cv[j + 1].text,
                start_line: cv[j].start_line,
                end_line: cv[j].end_line,
            },
        ),
{
    broadcast use vstd::seq_lib::group_seq_properties;
    reveal_strlit(".def");
    reveal_strlit(".name");
    let d = cv[j].capture;
    let nm = cv[j + 1].capture;
    let sym = SymbolView { kind, name: cv[j + 1].text, start_line: cv[j].start_line, end_line: cv[j].end_line };
    // The definition capture sets the pending definition.
    assert(d.subrange(d.len() - 4, d.len() as int) =~= ".def"@);
    assert(ends_with(d, ".def"@));
    assert(drop_suffix(d, ".def"@.len()) =~= kind);
    assert(cv.take(j + 1).drop_last() =~= cv.take(j));
    assert(cv.take(j + 1).last() == cv[j]);
    let st = pairing(cv.take(j + 1));
    assert(st.1 == Some((kind, cv[j].start_line, cv[j].end_line)));
    // The name capture (which does not end in `.def`) takes it.
    assert(nm.subrange(nm.len() - 5, nm.len() as int) =~= ".name"@);
    assert(ends_with(nm, ".name"@));
    assert(!ends_with(nm, ".def"@)) by {
        assert(nm[nm.len() - 1] == 'e');
        assert(".def"@[3] == 'f');
        assert(nm.subrange(nm.len() - 4, nm.len() as int)[3] == nm[nm.len() - 1]);
    }
    assert(drop_suffix(nm, ".name"@.len()) =~= kind);
    assert(cv.take(j + 2).drop_last() =~= cv.take(j + 1));
    assert(cv.take(j + 2).last() == cv[j + 1]);
    let made = pairing(cv.take(j + 2)).0;
    assert(made == st.0.push(sym));
    let at = made.len() - 1;
    // Later captures only add symbols after it.
    lemma_pairing_keeps(cv, j + 2, cv.len() as int);
    assert(cv.take(cv.len() as int) =~= cv);
    let all = pairing(cv).0;
    assert(all[at] == made[at]);
    assert(all.contains(sym));
    // Sorting by lines keeps every symbol.
    lemma_sort_by_lines(all);
    assert(all.to_multiset().count(sym) > 0);
    assert(sort_by_lines(all).to_multiset().count(sym) > 0);
}

/// With no comment span, no line is touched by a comment.
proof fn lemma_untouched_by_comments(spans: Seq<LineSpan>, j: int, k: int)
    requires
        forall|i: int| 0 <= i < spans.len() ==> !(#[trigger] spans[i]).is_comment,
        j <= spans.len(),
    ensures
        !touched(spans, j, k, true),
    decreases j,
{
    if j > 0 {
        lemma_untouched_by_comments(spans, j - 1, k);
    }
}

/// With only comment spans, no line is touched by anything else; a line
/// some span covers is touched by a comment.
proof fn lemma_touched_by_comments(spans: Seq<LineSpan>, j: int, k: int)
    requires
        forall|i: int| 0 <= i < spans.len() ==> (#[trigger] spans[i]).is_comment,
        j <= spans.len(),
    ensures
        !touched(spans, j, k, false),
        (exists|i: int| 0 <= i < j && #[trigger] spans[i].start <= k <= spans[i].end) ==> touched(
            spans,
            j,
            k,
            true,
        ),
    decreases j,
{
    if j > 0 {
        lemma_touched_by_comments(spans, j - 1, k);
        if exists|i: int| 0 <= i < j && #[trigger] spans[i].start <= k <= spans[i].end {
            let i = choose|i: int| 0 <= i < j && #[trigger] spans[i].start <= k <= spans[i].end;
            if i < j - 1 {
                assert(exists|i2: int| 0 <= i2 < j - 1 && #[trigger] spans[i2].start <= k <= spans[i2].end);
            }
        }
    }
}

/// Without comments every non-blank line is code: where no span is a
/// comment, the lines of code are exactly the lines that are not all white
/// space.
pub proof fn law_without_comments_every_nonblank_line_is_code(source: Seq<char>, spans: Seq<LineSpan>)
    requires
        forall|i: int| 0 <= i < spans.len() ==> !(#[trigger] spans[i]).is_comment,
    ensures
        loc_of(source, spans) == lines(source).filter(|l: Seq<char>| !crate::text::all_ws(l)).len(),
{
    lemma_count_without_comments(lines(source), spans, lines(source).len() as int);
    assert(lines(source).take(lines(source).len() as int) =~= lines(source));
}

proof fn lemma_count_without_comments(ls: Seq<Seq<char>>, spans: Seq<LineSpan>, i: int)
    requires
        forall|j: int| 0 <= j < spans.len() ==> !(#[trigger] spans[j]).is_comment,
        0 <= i <= ls.len(),
    ensures
        count_code(blank_flags(ls), spans, i) == ls.take(i).filter(|l: Seq<char>| !crate::text::all_ws(l)).len(),
    decreases i,
{
    reveal(Seq::filter);
    if i > 0 {
        lemma_count_without_comments(ls, spans, i - 1);
        lemma_untouched_by_comments(spans, spans.len() as int, i - 1);
        assert(ls.take(i).drop_last() =~= ls.take(i - 1));
        assert(ls.take(i).last() == ls[i - 1]);
        assert(blank_flags(ls)[i - 1] == crate::text::all_ws(ls[i - 1]));
    }
}

/// Line `k` lies within one of the spans.
pub open spec fn line_covered(spans: Seq<LineSpan>, k: int) -> bool {
    exists|i: int| 0 <= i < spans.len() && #[trigger] spans[i].start <= k <= spans[i].end
}

/// Comments covering every line leave no code: where every span is a
/// comment and each line lies within some span, there are no lines of code.
pub proof fn law_comments_everywhere_leave_no_code(source: Seq<char>, spans: Seq<LineSpan>)
    requires
        forall|i: int| 0 <= i < spans.len() ==> (#[trigger] spans[i]).is_comment,
        forall|k: int| 0 <= k < lines(source).len() ==> #[trigger] line_covered(spans, k),
    ensures
        loc_of(source, spans) == 0,
{
    lemma_no_code_lines(blank_flags(lines(source)), spans, lines(source).len() as int, lines(source).len() as int);
}

proof fn lemma_no_code_lines(blank: Seq<bool>, spans: Seq<LineSpan>, n: int, i: int)
    requires
        forall|j: int| 0 <= j < spans.len() ==> (#[trigger] spans[j]).is_comment,
        forall|k: int| 0 <= k < n ==> #[trigger] line_covered(spans, k),
        0 <= i <= n,
    ensures
        count_code(blank, spans, i) == 0,
    decreases i,
{
    if i > 0 {
        lemma_no_code_lines(blank, spans, n, i - 1);
        assert(line_covered(spans, i - 1));
        lemma_touched_by_comments(spans, spans.len() as int, i - 1);
    }
}

/// The symbols come ordered by start line, and by end line among those
/// that start on the same line; they are the paired symbols, none lost or
/// added.
pub proof fn law_symbols_ordered_by_start_then_end_line(cv: Seq<CaptureView>)
    ensures
        forall|i: int, j: int|
            0 <= i < j < symbol_list(cv).len() ==> (#[trigger] symbol_list(cv)[i]).start_line
                < (#[trigger] symbol_list(cv)[j]).start_line || (symbol_list(cv)[i].start_line
                == symbol_list(cv)[j].start_line && symbol_list(cv)[i].end_line
                <= symbol_list(cv)[j].end_line),
        symbol_list(cv).to_multiset() == pairing(cv).0.to_multiset(),
{
    lemma_sort_by_lines(pairing(cv).0);
}

} // verus!
