//! Structural extraction over tree-sitter queries: arbitrary query captures,
//! imports, comments, string literals, and symbols (functions, classes, ...).

use vstd::prelude::*;
use vstd::slice::slice_subrange;
use vstd::string::{StringExecFns, StringSliceAdditionalSpecFns};
use vstd::utf8::{
    decode_utf8, decode_utf8_split, encode_utf8, encode_utf8_decode_utf8, encode_utf8_valid_utf8,
    is_char_boundary, is_char_boundary_iff_not_is_continuation_byte, length_of_first_scalar,
    pop_first_scalar, valid_first_scalar, valid_utf8, valid_utf8_split,
};

use crate::lang::{AnalyzeError, ErrorView, Lang};
use crate::parsing::{byte_len, has_substr, parse, MAX_SOURCE_BYTES};
use crate::text::string_from;
use crate::ts::{
    CompiledQuery, Grammar, RawCapture, capture_within, ts_capture_names,
    ts_query_capture_names, ts_query_matches, ts_query_new, ts_query_run,
};

verus! {

/// A captured tree-sitter query node.
#[derive(Debug, Clone)]
pub struct Capture {
    pub capture: String,
    pub text: String,
    /// 1-based start line.
    pub start_line: i32,
    /// 1-based end line.
    pub end_line: i32,
}

/// The spec-level value of a [`Capture`].
pub struct CaptureView {
    pub capture: Seq<char>,
    pub text: Seq<char>,
    pub start_line: i32,
    pub end_line: i32,
}

impl View for Capture {
    type V = CaptureView;

    open spec fn view(&self) -> CaptureView {
        CaptureView {
            capture: self.capture@,
            text: self.text@,
            start_line: self.start_line,
            end_line: self.end_line,
        }
    }
}

/// The views of a sequence of captures.
pub open spec fn capture_views(v: Seq<Capture>) -> Seq<CaptureView> {
    v.map_values(|c: Capture| c@)
}

/// `std::str::from_utf8`: the text the bytes encode, where they are valid
/// UTF-8. Claims `Some` exactly for valid UTF-8, holding its decoding.
#[verifier::external_body]
fn utf8_str(b: &[u8]) -> (r: Option<&str>)
    ensures
        r is Some <==> valid_utf8(b@),
        r matches Some(s) ==> s@ == decode_utf8(b@),
{
    std::str::from_utf8(b).ok()
}

/// The text of the byte range `start..end` of `bytes` (`Node::utf8_text`,
/// with invalid UTF-8 read as the empty text).
pub open spec fn node_text(bytes: Seq<u8>, start: int, end: int) -> Seq<char> {
    let b = bytes.subrange(start, end);
    if valid_utf8(b) {
        decode_utf8(b)
    } else {
        Seq::empty()
    }
}

/// A raw capture with its capture name (empty for an index out of range),
/// its text in the source bytes, and its 1-based lines.
pub open spec fn capture_of(names: Seq<Seq<char>>, bytes: Seq<u8>, c: RawCapture) -> CaptureView {
    CaptureView {
        capture: if (c.index as int) < names.len() {
            names[c.index as int]
        } else {
            Seq::empty()
        },
        text: node_text(bytes, c.start_byte as int, c.end_byte as int),
        start_line: (c.start_row + 1) as i32,
        end_line: (c.end_row + 1) as i32,
    }
}

/// Raw captures with their names, texts and lines.
pub open spec fn captures_of(names: Seq<Seq<char>>, bytes: Seq<u8>, raws: Seq<RawCapture>) -> Seq<CaptureView> {
    raws.map_values(|c: RawCapture| capture_of(names, bytes, c))
}

/// Every capture of `query` run over the tree parsed from `source`, both
/// with the grammar of `lang`: the captures of each match in order, the
/// matches in the order tree-sitter yields them.
pub open spec fn query_captures(lang: Lang, source: Seq<char>, query: Seq<char>) -> Seq<CaptureView> {
    captures_of(
        ts_capture_names(lang, query),
        encode_utf8(source),
        ts_query_matches(lang, source, lang, query).flatten(),
    )
}

/// The message of an invalid query.
pub open spec fn invalid_query_message(m: Seq<char>) -> Seq<char> {
    "invalid tree-sitter query: "@ + m
}

/// The error running `query` over `source` gives, if any: `TooLarge` for
/// an oversized source; otherwise `Parse` (with the message prefixed) for a
/// query the grammar refuses, whatever the source, the empty one included;
/// otherwise none.
pub open spec fn query_error(lang: Lang, source: &str, query: Seq<char>) -> Option<ErrorView> {
    if byte_len(source) > MAX_SOURCE_BYTES {
        Some(ErrorView::TooLarge(byte_len(source)))
    } else if ts_query_new(lang, query) is Err {
        Some(ErrorView::Parse(invalid_query_message(ts_query_new(lang, query)->Err_0)))
    } else {
        None
    }
}

/// What running `query` over `source` gives: `TooLarge` for an oversized
/// source; otherwise a `Parse` error (with the message prefixed) for a query
/// the grammar refuses, whatever the source, the empty one included; and
/// otherwise no captures for an empty source and the query's captures for
/// any other.
pub open spec fn query_outcome(
    lang: Lang,
    source: &str,
    query: Seq<char>,
    r: Result<Vec<Capture>, AnalyzeError>,
) -> bool {
    if byte_len(source) > MAX_SOURCE_BYTES {
        r matches Err(AnalyzeError::TooLarge(n)) && n == byte_len(source)
    } else if ts_query_new(lang, query) is Err {
        r matches Err(AnalyzeError::Parse(x)) && x@ == invalid_query_message(
            ts_query_new(lang, query)->Err_0,
        )
    } else if source@.len() == 0 {
        r matches Ok(v) && v@.len() == 0
    } else {
        r matches Ok(v) && capture_views(v@) == query_captures(lang, source@, query)
    }
}

/// Every capture's line span is 1-based and starts no later than it ends.
pub open spec fn capture_lines_ok(v: Seq<CaptureView>) -> bool {
    forall|k: int| 0 <= k < v.len() ==> 1 <= #[trigger] v[k].start_line <= v[k].end_line
}

/// Every capture text is a contiguous piece of the source.
pub open spec fn captures_in_source(v: Seq<CaptureView>, source: Seq<char>) -> bool {
    forall|k: int| 0 <= k < v.len() ==> has_substr(source, #[trigger] v[k].text)
}

/// A valid UTF-8 prefix of valid UTF-8 bytes ends at a character boundary.
proof fn lemma_valid_prefix_boundary(c: Seq<u8>, k: int)
    requires
        valid_utf8(c),
        0 <= k <= c.len(),
        valid_utf8(c.subrange(0, k)),
    ensures
        is_char_boundary(c, k),
    decreases k,
{
    if k > 0 {
        let x = c.subrange(0, k);
        assert(x[0] == c[0]);
        assert(x.len() > 0);
        assert(valid_first_scalar(x));
        let l = length_of_first_scalar(c);
        assert(length_of_first_scalar(x) == l);
        assert(1 <= l <= k);
        let c2 = pop_first_scalar(c);
        assert(c2.subrange(0, k - l) =~= pop_first_scalar(x));
        lemma_valid_prefix_boundary(c2, k - l);
    }
}

/// The text of a byte range of the UTF-8 encoding of `s` (empty where the
/// range is no valid UTF-8) is a contiguous piece of `s`.
pub proof fn lemma_node_text_in_source(s: Seq<char>, a: int, b: int)
    requires
        0 <= a <= b <= encode_utf8(s).len(),
    ensures
        has_substr(s, node_text(encode_utf8(s), a, b)),
{
    let bytes = encode_utf8(s);
    let x = bytes.subrange(a, b);
    let t = node_text(bytes, a, b);
    if !valid_utf8(x) || a == b {
        if valid_utf8(x) {
            assert(x.len() == 0);
            assert(decode_utf8(x) == Seq::<char>::empty());
        }
        assert(t.len() == 0);
        assert(s.subrange(0, 0) =~= t);
    } else {
        encode_utf8_valid_utf8(s);
        encode_utf8_decode_utf8(s);
        assert(x[0] == bytes[a]);
        assert(valid_first_scalar(x));
        is_char_boundary_iff_not_is_continuation_byte(bytes, a);
        decode_utf8_split(bytes, a);
        valid_utf8_split(bytes, a);
        let c = bytes.subrange(a, bytes.len() as int);
        assert(c.subrange(0, b - a) =~= x);
        lemma_valid_prefix_boundary(c, b - a);
        decode_utf8_split(c, b - a);
        let p = decode_utf8(bytes.subrange(0, a));
        let rest = decode_utf8(c.subrange(b - a, c.len() as int));
        assert(s =~= p + t + rest);
        assert(s.subrange(p.len() as int, (p.len() + t.len()) as int) =~= t);
    }
}

/// The captures of raw query matches, in order: each capture with its
/// capture name (empty for an index out of range), its text in the source
/// and its 1-based lines. Every text is a contiguous piece of the source.
pub fn captures_from_matches(names: &[&str], source: &str, matches: &Vec<Vec<RawCapture>>) -> (r: Vec<Capture>)
    requires
        byte_len(source) < i32::MAX,
        forall|a: int, b: int|
            0 <= a < matches@.len() && 0 <= b < matches@[a]@.len() ==> capture_within(
                #[trigger] matches@[a]@[b],
                source.spec_bytes().len(),
            ),
    ensures
        capture_views(r@) == captures_of(
            names@.map_values(|s: &str| s@),
            encode_utf8(source@),
            matches@.map_values(|m: Vec<RawCapture>| m@).flatten(),
        ),
        capture_lines_ok(capture_views(r@)),
        captures_in_source(capture_views(r@), source@),
{
    let bytes = source.as_bytes();
    let ghost spec_names = names@.map_values(|s: &str| s@);
    let ghost enc = encode_utf8(source@);
    let ghost ms = matches@.map_values(|m: Vec<RawCapture>| m@);
    let mut out: Vec<Capture> = Vec::new();
    for i in 0..matches.len()
        invariant
            ms == matches@.map_values(|m: Vec<RawCapture>| m@),
            names@.map_values(|s: &str| s@) == spec_names,
            bytes@ == enc,
            enc == encode_utf8(source@),
            byte_len(source) < i32::MAX,
            forall|a: int, b: int|
                0 <= a < matches@.len() && 0 <= b < matches@[a]@.len() ==> capture_within(
                    #[trigger] matches@[a]@[b],
                    source.spec_bytes().len(),
                ),
            capture_views(out@) == captures_of(spec_names, enc, ms.take(i as int).flatten()),
            capture_lines_ok(capture_views(out@)),
            captures_in_source(capture_views(out@), source@),
    {
        let m = &matches[i];
        let ghost done = ms.take(i as int).flatten();
        assert(m@ == ms[i as int]);
        for j in 0..m.len()
            invariant
                i < matches@.len(),
                m@ == matches@[i as int]@,
                names@.map_values(|s: &str| s@) == spec_names,
                bytes@ == enc,
                enc == encode_utf8(source@),
                byte_len(source) < i32::MAX,
                forall|a: int, b: int|
                    0 <= a < matches@.len() && 0 <= b < matches@[a]@.len() ==> capture_within(
                        #[trigger] matches@[a]@[b],
                        source.spec_bytes().len(),
                    ),
                capture_views(out@) == captures_of(spec_names, enc, done + m@.take(j as int)),
                capture_lines_ok(capture_views(out@)),
                captures_in_source(capture_views(out@), source@),
        {
            let c = m[j];
            assert(capture_within(matches@[i as int]@[j as int], source.spec_bytes().len()));
            let idx = c.index as usize;
            let capture = if idx < names.len() {
                let n = string_from(names[idx]);
                assert(n@ == spec_names[idx as int]);
                n
            } else {
                String::new()
            };
            let sub = slice_subrange(bytes, c.start_byte, c.end_byte);
            let text = match utf8_str(sub) {
                Some(s) => string_from(s),
                None => String::new(),
            };
            let start_line = (c.start_row + 1) as i32;
            let end_line = (c.end_row + 1) as i32;
            let cap = Capture { capture, text, start_line, end_line };
            assert(cap@ == capture_of(spec_names, enc, c));
            let ghost before = out@;
            out.push(cap);
            proof {
                assert(capture_views(out@) =~= capture_views(before).push(cap@));
                assert(done + m@.take(j + 1) =~= (done + m@.take(j as int)).push(c));
                assert(captures_of(spec_names, enc, (done + m@.take(j as int)).push(c)) =~= captures_of(
                    spec_names,
                    enc,
                    done + m@.take(j as int),
                ).push(capture_of(spec_names, enc, c)));
                let cv = capture_views(out@);
                assert forall|k: int| 0 <= k < cv.len() implies 1 <= #[trigger] cv[k].start_line
                    <= cv[k].end_line by {
                    if k < cv.len() - 1 {
                        assert(cv[k] == capture_views(before)[k]);
                    }
                }
                lemma_node_text_in_source(source@, c.start_byte as int, c.end_byte as int);
                assert forall|k: int| 0 <= k < cv.len() implies has_substr(source@, #[trigger] cv[k].text) by {
                    if k < cv.len() - 1 {
                        assert(cv[k] == capture_views(before)[k]);
                    }
                }
            }
        }
        proof {
            assert(m@.take(m@.len() as int) =~= m@);
            assert(ms.take(i + 1) =~= ms.take(i as int).push(ms[i as int]));
            ms.take(i as int).lemma_flatten_push(ms[i as int]);
        }
    }
    proof {
        assert(ms.take(matches@.len() as int) =~= ms);
    }
    out
}

/// Run an arbitrary tree-sitter `query` against `source`, returning every
/// captured node in document order. A malformed query is a caller error.
pub fn run_query(lang: Lang, source: &str, query: &str) -> (r: Result<Vec<Capture>, AnalyzeError>)
    ensures
        query_outcome(lang, source, query@, r),
        r matches Ok(v) ==> capture_lines_ok(capture_views(v@)),
        r matches Ok(v) ==> captures_in_source(capture_views(v@), source@),
        query@.len() == 0 && byte_len(source) <= MAX_SOURCE_BYTES ==> ts_query_new(lang, query@) is Ok,
        query@.len() == 0 ==> (r matches Ok(v) ==> v@.len() == 0),
{
    // An oversized source is refused first; then the query is compiled, so
    // a malformed query is an error whatever the source, the empty one
    // included.
    let n = source.as_bytes().len();
    if n > MAX_SOURCE_BYTES {
        return Err(AnalyzeError::TooLarge(n));
    }
    let grammar = Grammar::of(lang);
    let q = match CompiledQuery::compile(&grammar, query) {
        Ok(q) => q,
        Err(m) => {
            let mut msg = string_from("invalid tree-sitter query: ");
            msg.append(m.as_str());
            return Err(AnalyzeError::Parse(msg));
        },
    };
    if source.is_empty() {
        return Ok(Vec::new());
    }
    let tree = match parse(lang, source) {
        Ok(t) => t,
        Err(e) => {
            return Err(e);
        },
    };
    let names = ts_query_capture_names(&q);
    let matches = ts_query_run(&tree, &q, source);
    let out = captures_from_matches(names, source, &matches);
    proof {
        if query@.len() == 0 {
            assert(matches@.len() == 0);
            assert(matches@.map_values(|m: Vec<RawCapture>| m@).flatten() =~= Seq::<RawCapture>::empty());
        }
    }
    Ok(out)
}

/// The texts of a sequence of captures.
pub open spec fn capture_texts_of(v: Seq<CaptureView>) -> Seq<Seq<char>> {
    v.map_values(|c: CaptureView| c.text)
}

/// The views of a sequence of strings.
pub open spec fn string_views(v: Seq<String>) -> Seq<Seq<char>> {
    v.map_values(|s: String| s@)
}

/// Every text is a contiguous piece of the source.
pub open spec fn texts_in_source(v: Seq<Seq<char>>, source: Seq<char>) -> bool {
    forall|k: int| 0 <= k < v.len() ==> has_substr(source, #[trigger] v[k])
}

/// The texts of captures that lie in the source lie in the source.
proof fn lemma_texts_in_source(v: Seq<CaptureView>, source: Seq<char>)
    requires
        captures_in_source(v, source),
    ensures
        texts_in_source(capture_texts_of(v), source),
{
    assert forall|k: int| 0 <= k < capture_texts_of(v).len() implies has_substr(
        source,
        #[trigger] capture_texts_of(v)[k],
    ) by {
        assert(capture_texts_of(v)[k] == v[k].text);
    }
}

/// The texts of a sequence of captures, in order.
fn texts_of(caps: &Vec<Capture>) -> (r: Vec<String>)
    ensures
        string_views(r@) == capture_texts_of(capture_views(caps@)),
{
    let mut r: Vec<String> = Vec::new();
    for i in 0..caps.len()
        invariant
            string_views(r@) == capture_texts_of(capture_views(caps@)).take(i as int),
    {
        let t = caps[i].text.clone();
        let ghost before = r@;
        r.push(t);
        assert(string_views(r@) =~= string_views(before).push(t@));
        assert(string_views(r@) =~= capture_texts_of(capture_views(caps@)).take(i + 1));
    }
    assert(capture_texts_of(capture_views(caps@)).take(caps@.len() as int) =~= capture_texts_of(
        capture_views(caps@),
    ));
    r
}

/// What `query_texts` gives: as [`query_outcome`], with the captures'
/// texts in place of the captures.
pub open spec fn query_texts_outcome(
    lang: Lang,
    source: &str,
    query: Seq<char>,
    r: Result<Vec<String>, AnalyzeError>,
) -> bool {
    if byte_len(source) > MAX_SOURCE_BYTES {
        r matches Err(AnalyzeError::TooLarge(n)) && n == byte_len(source)
    } else if ts_query_new(lang, query) is Err {
        r matches Err(AnalyzeError::Parse(x)) && x@ == invalid_query_message(
            ts_query_new(lang, query)->Err_0,
        )
    } else if source@.len() == 0 {
        r matches Ok(v) && v@.len() == 0
    } else {
        r matches Ok(v) && string_views(v@) == capture_texts_of(query_captures(lang, source@, query))
    }
}

/// Just the captured node texts of a query, for the scalar `ts_query`.
pub fn query_texts(lang: Lang, source: &str, query: &str) -> (r: Result<Vec<String>, AnalyzeError>)
    ensures
        query_texts_outcome(lang, source, query@, r),
        r matches Ok(v) ==> texts_in_source(string_views(v@), source@),
{
    match run_query(lang, source, query) {
        Ok(caps) => {
            let r = texts_of(&caps);
            proof {
                lemma_texts_in_source(capture_views(caps@), source@);
            }
            proof {
                if source@.len() == 0 {
                    assert(string_views(r@) =~= Seq::<Seq<char>>::empty());
                }
            }
            Ok(r)
        },
        Err(e) => Err(e),
    }
}

/// Whether running `query` over `source` fails (or is never run: empty
/// query, empty source).
pub open spec fn extraction_fails(lang: Lang, source: &str, query: Seq<char>) -> bool {
    query.len() == 0 || source@.len() == 0 || byte_len(source) > MAX_SOURCE_BYTES
        || ts_query_new(lang, query) is Err
}

/// The texts a built-in extraction query yields: nothing where the run
/// fails or is not made; otherwise the capture texts.
pub open spec fn extraction_ok(lang: Lang, source: &str, query: Seq<char>, r: Seq<Seq<char>>) -> bool {
    if extraction_fails(lang, source, query) {
        r.len() == 0
    } else {
        r == capture_texts_of(query_captures(lang, source@, query))
    }
}

/// Run a query that is allowed to be *empty* for languages we don't have one
/// for, mapping every captured node to its text; a failed run yields nothing.
pub fn capture_texts(lang: Lang, source: &str, query: &str) -> (r: Vec<String>)
    ensures
        extraction_ok(lang, source, query@, string_views(r@)),
        texts_in_source(string_views(r@), source@),
{
    if query.is_empty() {
        return Vec::new();
    }
    match run_query(lang, source, query) {
        Ok(caps) => {
            let r = texts_of(&caps);
            proof {
                if source@.len() == 0 {
                    assert(string_views(r@) =~= Seq::<Seq<char>>::empty());
                }
                lemma_texts_in_source(capture_views(caps@), source@);
            }
            r
        },
        Err(_) => Vec::new(),
    }
}

// ---------------------------------------------------------------------------
// Per-language tree-sitter queries.
//
// Each `@<kind>.def` capture is the whole definition node (its line span is the
// symbol's span); the sibling `@<kind>.name` capture is the identifier. Kinds
// are normalized to: function, method, class, struct, enum, interface, trait.
// ---------------------------------------------------------------------------

pub const RUST_SYMBOLS_QUERY: &'static str = r#"
            (function_item name: (identifier) @function.name) @function.def
            (struct_item name: (type_identifier) @struct.name) @struct.def
            (enum_item name: (type_identifier) @enum.name) @enum.def
            (trait_item name: (type_identifier) @trait.name) @trait.def
            (impl_item) @impl.def
            "#;

pub const PYTHON_SYMBOLS_QUERY: &'static str = r#"
            (function_definition name: (identifier) @function.name) @function.def
            (class_definition name: (identifier) @class.name) @class.def
            "#;

pub const JAVASCRIPT_SYMBOLS_QUERY: &'static str = r#"
            (function_declaration name: (identifier) @function.name) @function.def
            (method_definition name: (property_identifier) @method.name) @method.def
            (class_declaration name: (identifier) @class.name) @class.def
            "#;

pub const TYPESCRIPT_SYMBOLS_QUERY: &'static str = r#"
            (function_declaration name: (identifier) @function.name) @function.def
            (method_definition name: (property_identifier) @method.name) @method.def
            (class_declaration name: (type_identifier) @class.name) @class.def
            (interface_declaration name: (type_identifier) @interface.name) @interface.def
            (enum_declaration name: (identifier) @enum.name) @enum.def
            "#;

pub const GO_SYMBOLS_QUERY: &'static str = r#"
            (function_declaration name: (identifier) @function.name) @function.def
            (method_declaration name: (field_identifier) @method.name) @method.def
            (type_declaration (type_spec name: (type_identifier) @struct.name (struct_type))) @struct.def
            (type_declaration (type_spec name: (type_identifier) @interface.name (interface_type))) @interface.def
            "#;

pub const JAVA_SYMBOLS_QUERY: &'static str = r#"
            (method_declaration name: (identifier) @method.name) @method.def
            (class_declaration name: (identifier) @class.name) @class.def
            (interface_declaration name: (identifier) @interface.name) @interface.def
            (enum_declaration name: (identifier) @enum.name) @enum.def
            "#;

pub const C_SYMBOLS_QUERY: &'static str = r#"
            (function_definition declarator: (function_declarator declarator: (identifier) @function.name)) @function.def
            (struct_specifier name: (type_identifier) @struct.name) @struct.def
            (enum_specifier name: (type_identifier) @enum.name) @enum.def
            "#;

pub const CPP_SYMBOLS_QUERY: &'static str = r#"
            (function_definition declarator: (function_declarator declarator: (identifier) @function.name)) @function.def
            (class_specifier name: (type_identifier) @class.name) @class.def
            (struct_specifier name: (type_identifier) @struct.name) @struct.def
            (enum_specifier name: (type_identifier) @enum.name) @enum.def
            "#;

pub const RUST_IMPORTS_QUERY: &'static str = "(use_declaration) @import";

pub const PYTHON_IMPORTS_QUERY: &'static str = r#"
            (import_statement) @import
            (import_from_statement) @import
            "#;

pub const ECMASCRIPT_IMPORTS_QUERY: &'static str = r#"
            (import_statement) @import
            "#;

pub const GO_IMPORTS_QUERY: &'static str = r#"
            (import_declaration) @import
            "#;

pub const JAVA_IMPORTS_QUERY: &'static str = "(import_declaration) @import";

pub const C_FAMILY_IMPORTS_QUERY: &'static str = "(preproc_include) @import";

// tree-sitter-rust / -java split comments into line_comment + block_comment
// (there is no unified `comment` node).
pub const SPLIT_COMMENTS_QUERY: &'static str = r#"
            (line_comment) @comment
            (block_comment) @comment
            "#;

// Python, JS/TS, Go, C and C++ all expose a single `comment` node.
pub const COMMENT_NODE_QUERY: &'static str = "(comment) @comment";

pub const RUST_STRINGS_QUERY: &'static str = r#"
            (string_literal) @string
            (raw_string_literal) @string
            "#;

pub const PYTHON_STRINGS_QUERY: &'static str = r#"
            (string) @string
            "#;

pub const ECMASCRIPT_STRINGS_QUERY: &'static str = r#"
            (string) @string
            (template_string) @string
            "#;

pub const GO_STRINGS_QUERY: &'static str = r#"
            (interpreted_string_literal) @string
            (raw_string_literal) @string
            "#;

pub const JAVA_STRINGS_QUERY: &'static str = r#"
            (string_literal) @string
            "#;

pub const C_FAMILY_STRINGS_QUERY: &'static str = "(string_literal) @string";

pub const JSON_STRINGS_QUERY: &'static str = "(string) @string";

/// The symbols query of each language (none for JSON).
pub open spec fn symbols_query_text(lang: Lang) -> Seq<char> {
    match lang {
        Lang::Rust => RUST_SYMBOLS_QUERY@,
        Lang::Python => PYTHON_SYMBOLS_QUERY@,
        Lang::JavaScript => JAVASCRIPT_SYMBOLS_QUERY@,
        Lang::TypeScript => TYPESCRIPT_SYMBOLS_QUERY@,
        Lang::Go => GO_SYMBOLS_QUERY@,
        Lang::Java => JAVA_SYMBOLS_QUERY@,
        Lang::C => C_SYMBOLS_QUERY@,
        Lang::Cpp => CPP_SYMBOLS_QUERY@,
        Lang::Json => ""@,
    }
}

/// The imports query of each language (none for JSON).
pub open spec fn imports_query_text(lang: Lang) -> Seq<char> {
    match lang {
        Lang::Rust => RUST_IMPORTS_QUERY@,
        Lang::Python => PYTHON_IMPORTS_QUERY@,
        Lang::JavaScript | Lang::TypeScript => ECMASCRIPT_IMPORTS_QUERY@,
        Lang::Go => GO_IMPORTS_QUERY@,
        Lang::Java => JAVA_IMPORTS_QUERY@,
        Lang::C | Lang::Cpp => C_FAMILY_IMPORTS_QUERY@,
        Lang::Json => ""@,
    }
}

/// The comments query of each language (JSON has no comment node).
pub open spec fn comments_query_text(lang: Lang) -> Seq<char> {
    match lang {
        Lang::Rust | Lang::Java => SPLIT_COMMENTS_QUERY@,
        Lang::Json => ""@,
        _ => COMMENT_NODE_QUERY@,
    }
}

/// The string-literal query of each language.
pub open spec fn strings_query_text(lang: Lang) -> Seq<char> {
    match lang {
        Lang::Rust => RUST_STRINGS_QUERY@,
        Lang::Python => PYTHON_STRINGS_QUERY@,
        Lang::JavaScript | Lang::TypeScript => ECMASCRIPT_STRINGS_QUERY@,
        Lang::Go => GO_STRINGS_QUERY@,
        Lang::Java => JAVA_STRINGS_QUERY@,
        Lang::C | Lang::Cpp => C_FAMILY_STRINGS_QUERY@,
        Lang::Json => JSON_STRINGS_QUERY@,
    }
}

/// The symbols query for `lang`.
pub fn symbols_query(lang: Lang) -> (r: &'static str)
    ensures
        r@ == symbols_query_text(lang),
{
    match lang {
        Lang::Rust => RUST_SYMBOLS_QUERY,
        Lang::Python => PYTHON_SYMBOLS_QUERY,
        Lang::JavaScript => JAVASCRIPT_SYMBOLS_QUERY,
        Lang::TypeScript => TYPESCRIPT_SYMBOLS_QUERY,
        Lang::Go => GO_SYMBOLS_QUERY,
        Lang::Java => JAVA_SYMBOLS_QUERY,
        Lang::C => C_SYMBOLS_QUERY,
        Lang::Cpp => CPP_SYMBOLS_QUERY,
        Lang::Json => "",
    }
}

/// The imports query for `lang`.
pub fn imports_query(lang: Lang) -> (r: &'static str)
    ensures
        r@ == imports_query_text(lang),
{
    match lang {
        Lang::Rust => RUST_IMPORTS_QUERY,
        Lang::Python => PYTHON_IMPORTS_QUERY,
        Lang::JavaScript | Lang::TypeScript => ECMASCRIPT_IMPORTS_QUERY,
        Lang::Go => GO_IMPORTS_QUERY,
        Lang::Java => JAVA_IMPORTS_QUERY,
        Lang::C | Lang::Cpp => C_FAMILY_IMPORTS_QUERY,
        Lang::Json => "",
    }
}

/// The comments query for `lang`.
pub fn comments_query(lang: Lang) -> (r: &'static str)
    ensures
        r@ == comments_query_text(lang),
{
    match lang {
        Lang::Rust | Lang::Java => SPLIT_COMMENTS_QUERY,
        Lang::Json => "",
        _ => COMMENT_NODE_QUERY,
    }
}

/// The string-literal query for `lang`.
pub fn strings_query(lang: Lang) -> (r: &'static str)
    ensures
        r@ == strings_query_text(lang),
{
    match lang {
        Lang::Rust => RUST_STRINGS_QUERY,
        Lang::Python => PYTHON_STRINGS_QUERY,
        Lang::JavaScript | Lang::TypeScript => ECMASCRIPT_STRINGS_QUERY,
        Lang::Go => GO_STRINGS_QUERY,
        Lang::Java => JAVA_STRINGS_QUERY,
        Lang::C | Lang::Cpp => C_FAMILY_STRINGS_QUERY,
        Lang::Json => JSON_STRINGS_QUERY,
    }
}

/// Extract import / use / require statements as their source text.
pub fn extract_imports(lang: Lang, source: &str) -> (r: Vec<String>)
    ensures
        extraction_ok(lang, source, imports_query_text(lang), string_views(r@)),
        texts_in_source(string_views(r@), source@),
{
    capture_texts(lang, source, imports_query(lang))
}

/// Extract comment texts (the raw comment node source).
pub fn extract_comments(lang: Lang, source: &str) -> (r: Vec<String>)
    ensures
        extraction_ok(lang, source, comments_query_text(lang), string_views(r@)),
        texts_in_source(string_views(r@), source@),
{
    capture_texts(lang, source, comments_query(lang))
}

/// Extract string-literal texts (including quotes, as written in source).
pub fn extract_strings(lang: Lang, source: &str) -> (r: Vec<String>)
    ensures
        extraction_ok(lang, source, strings_query_text(lang), string_views(r@)),
        texts_in_source(string_views(r@), source@),
{
    capture_texts(lang, source, strings_query(lang))
}

} // verus!
