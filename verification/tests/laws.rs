//! The library's laws and edge cases on concrete values.

use code_worker::extract::{
    captures_from_matches, extract_comments, extract_imports, extract_strings, imports_query, query_texts, run_query,
};
use code_worker::functions::{SupportedLanguages, Symbols, TsNodes};
use code_worker::lang::{language_of_filename, resolve, AnalyzeError, Lang, SUPPORTED};
use code_worker::meta::{example_queries_tag, json_escape, keywords_json, object_tags};
use code_worker::parsing::{count_code_lines, count_lines, loc, LineSpan, MAX_SOURCE_BYTES};
use code_worker::ts::RawCapture;
use code_worker::symbols::{count_functions, symbols};

const ALL: [Lang; 9] = [
    Lang::Rust,
    Lang::Python,
    Lang::JavaScript,
    Lang::TypeScript,
    Lang::Go,
    Lang::Java,
    Lang::C,
    Lang::Cpp,
    Lang::Json,
];

const RUST_SRC: &str = "use std::fmt;\n\n/// doc\nfn a() {}\n\nstruct S;\n\nimpl S {\n    fn m(&self) {}\n}\n\nfn b() { /* c */ }\n";

#[test]
fn name_roundtrip_for_every_language() {
    for l in ALL {
        assert_eq!(Lang::from_name(l.name()), Some(l));
        assert!(matches!(resolve(l.name()), Ok(x) if x == l));
    }
}

#[test]
fn supported_lists_the_canonical_ids() {
    let names: Vec<&str> = ALL.iter().map(|l| l.name()).collect();
    assert_eq!(SUPPORTED.to_vec(), names);
    assert_eq!(SupportedLanguages.rows(), SUPPORTED.to_vec());
}

#[test]
fn names_are_trimmed_and_case_folded() {
    assert_eq!(Lang::from_name("  Py \t"), Some(Lang::Python));
    assert_eq!(Lang::from_name("C++"), Some(Lang::Cpp));
    assert_eq!(Lang::from_name("GoLang"), Some(Lang::Go));
    assert_eq!(Lang::from_name("\u{3000}json\n"), Some(Lang::Json));
    assert_eq!(Lang::from_name("ty pescript"), None);
    assert_eq!(Lang::from_name(""), None);
}

#[test]
fn inferred_language_resolves() {
    for f in ["a.rs", "b.PYI", "c.cjs", "d.tsx", "e.go", "F.Java", "g.h", "h.hh", "i.json"] {
        let name = language_of_filename(f).unwrap();
        assert!(Lang::from_name(name).is_some(), "{f}");
    }
}

#[test]
fn file_extension_edges() {
    assert_eq!(language_of_filename("archive.tar.gz"), None);
    assert_eq!(language_of_filename(".rs"), Some("rust"));
    assert_eq!(language_of_filename("MAIN.RS"), Some("rust"));
    assert_eq!(language_of_filename("x."), None);
    assert_eq!(language_of_filename("dir.d/noext"), None);
    assert_eq!(language_of_filename(""), None);
}

#[test]
fn trailing_newline_adds_no_line() {
    assert_eq!(count_lines("a\nb\n"), 2);
    assert_eq!(count_lines("a\nb"), 2);
    assert_eq!(count_lines("\n"), 1);
    assert_eq!(count_lines("\n\n"), 2);
    assert_eq!(count_lines("a\r\nb\r\n"), 2);
    assert_eq!(count_lines("x"), 1);
}

#[test]
fn loc_at_most_count_lines() {
    for (lang, src) in [
        (Lang::Rust, RUST_SRC),
        (Lang::Python, "# only a comment\n"),
        (Lang::Go, "package main\n\n// x\n"),
        (Lang::Json, "{\n  \"a\": 1\n}\n"),
    ] {
        let code = loc(lang, src).unwrap();
        assert!(code >= 0 && code <= count_lines(src), "{src}");
    }
}

#[test]
fn loc_counts_code_lines_only() {
    // A trailing comment does not make a code line comment-only.
    assert_eq!(loc(Lang::Rust, "fn a() {} // c\n").unwrap(), 1);
    // A block comment over several lines removes them all.
    assert_eq!(loc(Lang::Rust, "/* a\n b\n*/\nfn x() {}\n").unwrap(), 1);
    // Blank lines (white space only) are not code.
    assert_eq!(loc(Lang::Python, "x = 1\n   \n\t\ny = 2\n").unwrap(), 2);
    assert_eq!(loc(Lang::Python, "# only a comment\n").unwrap(), 0);
    assert_eq!(loc(Lang::Rust, RUST_SRC).unwrap(), 7);
}

#[test]
fn oversized_source_is_refused() {
    let big = "a".repeat(MAX_SOURCE_BYTES + 1);
    assert!(matches!(loc(Lang::Rust, &big), Err(AnalyzeError::TooLarge(n)) if n == MAX_SOURCE_BYTES + 1));
    assert!(matches!(symbols(Lang::Rust, &big), Err(AnalyzeError::TooLarge(_))));
    assert!(matches!(run_query(Lang::Rust, &big, "(identifier) @x"), Err(AnalyzeError::TooLarge(_))));
    // The size is looked at before the query.
    assert!(matches!(run_query(Lang::Rust, &big, "(x) @x"), Err(AnalyzeError::TooLarge(_))));
    assert!(extract_imports(Lang::Rust, &big).is_empty());
    assert_eq!(count_functions(Lang::Rust, &big), 0);
}

#[test]
fn error_messages() {
    assert_eq!(
        AnalyzeError::UnknownLanguage("cobol".to_string()).message(),
        "unknown language 'cobol'; supported: rust, python, javascript, typescript, go, java, c, cpp, json"
    );
    assert_eq!(
        AnalyzeError::TooLarge(16777217).message(),
        "source is 16777217 bytes, exceeds the 16777216-byte limit"
    );
    assert_eq!(AnalyzeError::TooLarge(0).message(), "source is 0 bytes, exceeds the 16777216-byte limit");
    assert_eq!(AnalyzeError::Parse("boom".to_string()).message(), "parse error: boom");
}

#[test]
fn bad_query_message_is_prefixed() {
    match run_query(Lang::Rust, "fn a() {}", "(this is not valid") {
        Err(AnalyzeError::Parse(m)) => assert!(m.starts_with("invalid tree-sitter query: "), "{m}"),
        other => panic!("expected a parse error, got {other:?}"),
    }
    // An unknown node type is refused too.
    assert!(run_query(Lang::Rust, "fn a() {}", "(no_such_node) @x").is_err());
}

#[test]
fn empty_source_gives_nothing() {
    assert!(run_query(Lang::Rust, "", "(function_item) @f").unwrap().is_empty());
    assert!(query_texts(Lang::Go, "", "(identifier) @x").unwrap().is_empty());
    assert!(extract_comments(Lang::Python, "").is_empty());
    assert!(extract_strings(Lang::Json, "").is_empty());
    assert_eq!(loc(Lang::Java, "").unwrap(), 0);
    assert_eq!(count_functions(Lang::C, ""), 0);
}

#[test]
fn symbols_are_sorted_by_lines() {
    let s = symbols(Lang::Rust, RUST_SRC).unwrap();
    for w in s.windows(2) {
        assert!((w[0].start_line, w[0].end_line) <= (w[1].start_line, w[1].end_line));
    }
    let kinds: Vec<(&str, &str, i32, i32)> = s
        .iter()
        .map(|x| (x.kind.as_str(), x.name.as_str(), x.start_line, x.end_line))
        .collect();
    assert_eq!(
        kinds,
        vec![
            ("function", "a", 4, 4),
            ("struct", "S", 6, 6),
            ("function", "m", 9, 9),
            ("function", "b", 12, 12),
        ]
    );
}

#[test]
fn function_count_at_most_symbols() {
    for (lang, src) in [(Lang::Rust, RUST_SRC), (Lang::Python, "class A:\n    def f(self): pass\n")] {
        let n = count_functions(lang, src);
        let syms = symbols(lang, src).unwrap();
        assert!(n as usize <= syms.len());
    }
    assert_eq!(count_functions(Lang::Rust, RUST_SRC), 3);
}

#[test]
fn query_texts_are_capture_texts() {
    let q = "(identifier) @id";
    let caps = run_query(Lang::Rust, RUST_SRC, q).unwrap();
    let texts = query_texts(Lang::Rust, RUST_SRC, q).unwrap();
    let from_caps: Vec<String> = caps.iter().map(|c| c.text.clone()).collect();
    assert_eq!(texts, from_caps);
    assert!(caps.iter().all(|c| c.capture == "id"));
}

#[test]
fn extraction_is_query_texts() {
    let via_query = query_texts(Lang::Rust, RUST_SRC, imports_query(Lang::Rust)).unwrap();
    assert_eq!(extract_imports(Lang::Rust, RUST_SRC), via_query);
    assert_eq!(via_query, vec!["use std::fmt;"]);
}

#[test]
fn json_has_no_comments_or_functions() {
    let src = "{\"a\": \"b\", \"c\": [1, 2]}";
    assert!(extract_comments(Lang::Json, src).is_empty());
    assert!(extract_imports(Lang::Json, src).is_empty());
    assert_eq!(count_functions(Lang::Json, src), 0);
    assert_eq!(extract_strings(Lang::Json, src), vec!["\"a\"", "\"b\"", "\"c\""]);
}

#[test]
fn capture_lines_are_one_based() {
    let caps = run_query(Lang::Rust, "\n\nfn a() {\n}\n", "(function_item) @f").unwrap();
    assert_eq!(caps.len(), 1);
    assert_eq!(caps[0].capture, "f");
    assert_eq!((caps[0].start_line, caps[0].end_line), (3, 4));
    assert_eq!(caps[0].text, "fn a() {\n}");
}

#[test]
fn capture_text_is_unicode() {
    let texts = query_texts(Lang::Python, "s = \"héllo ✓\"\n", "(string) @s").unwrap();
    assert_eq!(texts, vec!["\"héllo ✓\""]);
}

#[test]
fn json_escape_formula() {
    assert_eq!(json_escape("a\"b\\c\nd\re\tf"), "a\\\"b\\\\c\\nd\\re\\tf");
    assert_eq!(json_escape("\u{1}\u{1f} é"), "\\u0001\\u001f é");
    assert_eq!(json_escape(""), "");
}

#[test]
fn json_escape_has_no_control_chars() {
    let all: String = (0u32..0x80).filter_map(char::from_u32).collect();
    assert!(json_escape(&all).chars().all(|c| (c as u32) >= 0x20));
}

#[test]
fn keywords_json_formula() {
    assert_eq!(keywords_json("a, b"), "[\"a\",\"b\"]");
    assert_eq!(keywords_json(" , x\"y ,, z\\ "), "[\"x\\\"y\",\"z\\\\\"]");
    assert_eq!(keywords_json(""), "[]");
    assert_eq!(keywords_json(" , ,"), "[]");
    // Control characters are JSON-escaped, not copied raw.
    assert_eq!(keywords_json("a\nb, c\u{1}d"), "[\"a\\nb\",\"c\\u0001d\"]");
}

#[test]
fn example_queries_tag_formula() {
    let (k, v) = example_queries_tag(&[("List \"all\"", "SELECT 1\n"), ("two", "SELECT 2")]);
    assert_eq!(k, "vgi.example_queries");
    assert_eq!(
        v,
        "[{\"description\":\"List \\\"all\\\"\",\"sql\":\"SELECT 1\\n\"},{\"description\":\"two\",\"sql\":\"SELECT 2\"}]"
    );
    assert_eq!(example_queries_tag(&[]).1, "[]");
}

#[test]
fn object_tags_formula() {
    let tags = object_tags("T", "llm", "md", "a, b", "Cat", "scalar/x.rs");
    let expect = vec![
        ("vgi.title", "T"),
        ("vgi.doc_llm", "llm"),
        ("vgi.doc_md", "md"),
        ("vgi.keywords", "[\"a\",\"b\"]"),
        ("vgi.category", "Cat"),
    ];
    let got: Vec<(&str, &str)> = tags.iter().map(|(a, b)| (a.as_str(), b.as_str())).collect();
    assert_eq!(got, expect);
}

#[test]
fn table_functions_rows() {
    assert!(Symbols.rows(None, Some("rust")).unwrap().is_empty());
    assert!(Symbols.rows(Some("fn a() {}"), None).unwrap().is_empty());
    assert!(Symbols.rows(Some("fn a() {}"), Some("cobol")).is_err());
    assert_eq!(Symbols.rows(Some("fn a() {}"), Some("rust")).unwrap()[0].name, "a");
    assert!(Symbols.validate(Some("cobol")).is_err());
    assert!(Symbols.validate(None).is_ok());

    let q = "(function_item name: (identifier) @n)";
    let rows = TsNodes.rows(Some("fn a() {}\nfn b() {}\n"), Some("rust"), Some(q)).unwrap();
    let names: Vec<&str> = rows.iter().map(|c| c.text.as_str()).collect();
    assert_eq!(names, vec!["a", "b"]);
    assert!(TsNodes.rows(None, Some("rust"), Some(q)).unwrap().is_empty());
    assert!(TsNodes.validate(Some("fn a() {}"), Some("rust"), Some("(bad")).is_err());
    assert!(TsNodes.validate(None, Some("cobol"), None).is_err());
    assert!(TsNodes.validate(None, Some("rust"), None).is_ok());
    assert!(TsNodes.validate(None, None, None).is_ok());
}

#[test]
fn malformed_source_is_never_an_error() {
    for (lang, bad) in [
        (Lang::Rust, "fn (((( {{{ struct"),
        (Lang::Python, "def :\n  class\n\t)))"),
        (Lang::Json, "{\"a\": [1, 2,,, }"),
        (Lang::C, "#include <\nint main( {"),
    ] {
        assert!(run_query(lang, bad, "(ERROR) @e").is_ok());
        assert!(loc(lang, bad).is_ok());
        assert!(symbols(lang, bad).is_ok());
    }
    // A bad query fails the same way whatever the (non-empty) source says.
    let a = run_query(Lang::Go, "package main", "(nope) @x").unwrap_err();
    let b = run_query(Lang::Go, "}}}} not go at all", "(nope) @x").unwrap_err();
    assert_eq!(a.message(), b.message());
}

#[test]
fn names_and_extensions_ignore_case() {
    for name in ["rust", "RUST", "  Rust\n", "C++", "c++", "JSX", "Hpp"] {
        assert_eq!(Lang::from_name(name), Lang::from_name(&name.to_ascii_lowercase()));
        assert_eq!(Lang::from_name(name), Lang::from_name(name.trim()));
        assert!(Lang::from_name(name).is_some());
    }
    for f in ["Main.RS", "lib.Py", "X.TSX", "a.b.CPP", "NOEXT", "weird.Txt"] {
        assert_eq!(language_of_filename(f), language_of_filename(&f.to_ascii_lowercase()));
    }
}

#[test]
fn no_lines_only_when_empty() {
    assert_eq!(count_lines(""), 0);
    assert_eq!(count_lines("\n"), 1);
    assert_eq!(count_lines(" "), 1);
    assert_eq!(count_lines("\r\n\r\n"), 2);
    assert_eq!(count_lines("a\rb"), 1);
}

#[test]
fn symbol_spans_are_one_based_and_ordered() {
    let src = "\n\nstruct P {\n    x: i32,\n}\n\nimpl P {\n    fn get(&self) -> i32 {\n        self.x\n    }\n}\n";
    let syms = symbols(Lang::Rust, src).unwrap();
    assert!(!syms.is_empty());
    for s in &syms {
        assert!(1 <= s.start_line && s.start_line <= s.end_line, "{s:?}");
    }
    let rows = Symbols.rows(Some(src), Some("rs")).unwrap();
    assert_eq!(rows, syms);
    let caps = TsNodes.rows(Some(src), Some("rust"), Some("(_) @n")).unwrap();
    for c in &caps {
        assert!(1 <= c.start_line && c.start_line <= c.end_line);
    }
}

#[test]
fn malformed_query_is_an_error_even_on_empty_source() {
    for lang in ALL {
        match run_query(lang, "", "(this is not valid") {
            Err(AnalyzeError::Parse(m)) => assert!(m.starts_with("invalid tree-sitter query: "), "{m}"),
            other => panic!("expected a parse error, got {other:?}"),
        }
        assert!(query_texts(lang, "", "(this is not valid").is_err());
    }
    assert!(TsNodes.validate(Some(""), Some("rust"), Some("(bad")).is_err());
    assert!(TsNodes.rows(Some(""), Some("rust"), Some("(bad")).is_err());
    assert!(TsNodes.rows(Some(""), Some("rust"), Some("(function_item) @f")).unwrap().is_empty());
}

#[test]
fn every_bundled_grammar_parses_and_json_counts_no_functions() {
    for lang in ALL {
        assert!(loc(lang, "@@@ not code at all {{{").is_ok());
        assert!(run_query(lang, "x", "").unwrap().is_empty());
    }
    assert_eq!(count_functions(Lang::Json, "{\"fn\": \"def f(): pass\"}"), 0);
    assert!(symbols(Lang::Json, "[1, 2, 3]").unwrap().is_empty());
}

#[test]
fn padded_upper_case_ids_resolve() {
    for lang in ALL {
        let padded = format!(" {}\t", lang.name().to_ascii_uppercase());
        assert_eq!(Lang::from_name(&padded), Some(lang));
    }
}

#[test]
fn directory_prefix_changes_nothing() {
    for (dir, file) in [("src", "main.rs"), ("a.b", "noext"), ("x.py", "Makefile"), ("", "lib.Go"), ("d.rs", ".json")] {
        let path = format!("{dir}/{file}");
        assert_eq!(language_of_filename(&path), language_of_filename(file), "{path}");
    }
}

#[test]
fn line_count_formula() {
    for s in ["", "a", "a\n", "a\nb", "\n\n", "x\r\ny\r\n", "\nlast"] {
        let newlines = s.matches('\n').count();
        let extra = if !s.is_empty() && !s.ends_with('\n') { 1 } else { 0 };
        assert_eq!(count_lines(s) as usize, newlines + extra, "{s:?}");
    }
}

#[test]
fn json_escape_keeps_plain_text() {
    for s in ["", "plain text", "unicode \u{e9}\u{1F600}", "tab-free; /slashes/ ok"] {
        assert_eq!(json_escape(s), s);
    }
}

/// Reads a JSON string body (no surrounding quotes) the way a JSON parser does.
fn json_unescape(s: &str) -> String {
    let mut out = String::new();
    let mut it = s.chars();
    while let Some(c) = it.next() {
        if c != '\\' {
            assert!(c as u32 >= 0x20 && c != '"', "raw {c:?} in a JSON string");
            out.push(c);
            continue;
        }
        match it.next().unwrap() {
            '"' => out.push('"'),
            '\\' => out.push('\\'),
            '/' => out.push('/'),
            'n' => out.push('\n'),
            'r' => out.push('\r'),
            't' => out.push('\t'),
            'b' => out.push('\u{8}'),
            'f' => out.push('\u{c}'),
            'u' => {
                let hex: String = (0..4).map(|_| it.next().unwrap()).collect();
                out.push(char::from_u32(u32::from_str_radix(&hex, 16).unwrap()).unwrap());
            }
            e => panic!("bad escape {e:?}"),
        }
    }
    out
}

#[test]
fn json_escape_reads_back() {
    for s in ["", "plain", "q\"b\\s", "nl\ncr\rtab\t", "ctl\u{1}\u{1f}\u{8}", "uni \u{e9}\u{1F600}"] {
        assert_eq!(json_unescape(&json_escape(s)), s);
    }
}

#[test]
fn keywords_json_reads_back() {
    let k = " a , b\"c ,, d\\e\nf , ";
    let j = keywords_json(k);
    assert!(j.starts_with("[\"") && j.ends_with("\"]"));
    let inner = &j[2..j.len() - 2];
    let items: Vec<String> = inner.split("\",\"").map(json_unescape).collect();
    assert_eq!(items, vec!["a", "b\"c", "d\\e\nf"]);
}

#[test]
fn example_queries_read_back() {
    let ex = [("first \"one\"", "SELECT 1;\n"), ("second", "SELECT 'a\\b'")];
    let (k, v) = example_queries_tag(&ex);
    assert_eq!(k, "vgi.example_queries");
    let mut rest = v.strip_prefix('[').unwrap().strip_suffix(']').unwrap();
    let mut got = Vec::new();
    while !rest.is_empty() {
        rest = rest.strip_prefix("{\"description\":\"").unwrap();
        let (d, r) = rest.split_once("\",\"sql\":\"").unwrap();
        let (q, r) = r.split_once("\"}").unwrap();
        got.push((json_unescape(d), json_unescape(q)));
        rest = r.strip_prefix(',').unwrap_or(r);
    }
    let want: Vec<(String, String)> = ex.iter().map(|(d, s)| (d.to_string(), s.to_string())).collect();
    assert_eq!(got, want);
}

#[test]
fn loc_walk_reaches_deep_nodes() {
    // Deep nesting: every level must be walked for the comment line to count.
    let src = "fn a() {\n  if x {\n    if y {\n      if z {\n        // deep\n        w();\n      }\n    }\n  }\n}\n";
    assert_eq!(loc(Lang::Rust, src).unwrap(), 9);
}

#[test]
fn count_code_lines_formula() {
    let src = "a\n// c\n\n  b // t\n/* x\n y */\n";
    let spans = vec![
        LineSpan { start: 0, end: 0, is_comment: false },
        LineSpan { start: 1, end: 1, is_comment: true },
        LineSpan { start: 3, end: 3, is_comment: false },
        LineSpan { start: 3, end: 3, is_comment: true },
        LineSpan { start: 4, end: 5, is_comment: true },
        // A span past the last line is ignored.
        LineSpan { start: 40, end: 50, is_comment: false },
    ];
    // Lines: code, comment-only, blank, code with a trailing comment, and two comment-only.
    assert_eq!(count_code_lines(src, &spans), 2);
    assert_eq!(count_code_lines(src, &vec![]), 5);
    assert_eq!(count_code_lines("", &spans), 0);
}

#[test]
fn captures_from_matches_formula() {
    let src = "é = \"x\"\nnext";
    let raw = |index: u32, start_byte: usize, end_byte: usize, start_row: usize, end_row: usize| RawCapture {
        index,
        start_byte,
        end_byte,
        start_row,
        end_row,
    };
    let matches = vec![
        vec![raw(0, 0, 2, 0, 0), raw(1, 5, 8, 0, 0)],
        vec![],
        // Index out of range, and a byte range cutting a character: empty name, empty text.
        vec![raw(7, 1, 3, 0, 1), raw(0, 9, 13, 1, 1)],
    ];
    let caps = captures_from_matches(&["lhs", "str"], src, &matches);
    let got: Vec<(&str, &str, i32, i32)> =
        caps.iter().map(|c| (c.capture.as_str(), c.text.as_str(), c.start_line, c.end_line)).collect();
    assert_eq!(
        got,
        vec![("lhs", "é", 1, 1), ("str", "\"x\"", 1, 1), ("", "", 1, 2), ("lhs", "next", 2, 2)]
    );
    for c in &caps {
        assert!(src.contains(&c.text));
    }
}

#[test]
fn capture_texts_are_source_substrings() {
    let src = "use a::b;\n// ünïcødé comment\nfn f() { let s = \"日本\"; }\n";
    for c in run_query(Lang::Rust, src, "(_) @n").unwrap() {
        assert!(src.contains(&c.text), "{:?}", c.text);
    }
    for t in extract_imports(Lang::Rust, src).iter().chain(extract_comments(Lang::Rust, src).iter()).chain(extract_strings(Lang::Rust, src).iter()) {
        assert!(src.contains(t.as_str()));
    }
    for s in symbols(Lang::Rust, src).unwrap() {
        assert!(src.contains(&s.name));
    }
}
