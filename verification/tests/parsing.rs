//! Tests of the analysis functions on small documents in several languages.

use code_worker::extract::{extract_comments, extract_imports, extract_strings, query_texts, run_query};
use code_worker::lang::{language_of_filename, resolve, AnalyzeError, Lang, SUPPORTED};
use code_worker::parsing::{count_lines, loc, parse};
use code_worker::symbols::{count_functions, symbols};

const RUST_SRC: &str = r#"// a leading comment
use std::collections::HashMap;
use std::fmt;

/// Doc comment
fn add(a: i32, b: i32) -> i32 {
    a + b // inline
}

struct Point {
    x: i32,
    y: i32,
}

enum Color {
    Red,
    Green,
}
"#;

const PY_SRC: &str = r#"import os
from sys import argv

# a comment
def greet(name):
    return "hello " + name

class Greeter:
    def __init__(self):
        self.x = 1
"#;

const JS_SRC: &str = r#"import { foo } from "bar";

// comment
function add(a, b) {
  return a + b;
}

class Widget {
  render() {
    return `tpl`;
  }
}
"#;

const GO_SRC: &str = "package main\n\nimport \"fmt\"\n\n// doc\nfunc Add(a int, b int) int {\n\treturn a + b\n}\n\ntype Point struct {\n\tX int\n}\n";

#[test]
fn language_resolution_and_inference() {
    assert_eq!(Lang::from_name("RUST"), Some(Lang::Rust));
    assert_eq!(Lang::from_name("py"), Some(Lang::Python));
    assert_eq!(Lang::from_name("nope"), None);
    assert_eq!(language_of_filename("x.py"), Some("python"));
    assert_eq!(language_of_filename("a/b/main.rs"), Some("rust"));
    assert_eq!(language_of_filename("App.tsx"), Some("typescript"));
    assert_eq!(language_of_filename("Makefile"), None);
    assert_eq!(language_of_filename("noext"), None);
    assert_eq!(language_of_filename("x.unknownext"), None);
}

#[test]
fn rust_symbols_names_and_lines() {
    let s = symbols(Lang::Rust, RUST_SRC).unwrap();
    let names: Vec<_> = s
        .iter()
        .map(|x| (x.kind.as_str(), x.name.as_str()))
        .collect();
    assert!(names.contains(&("function", "add")));
    assert!(names.contains(&("struct", "Point")));
    assert!(names.contains(&("enum", "Color")));
    let add = s.iter().find(|x| x.name == "add").unwrap();
    assert_eq!(add.start_line, 6, "fn add starts on line 6 (1-based)");
}

#[test]
fn python_symbols_and_functions() {
    let s = symbols(Lang::Python, PY_SRC).unwrap();
    assert!(s.iter().any(|x| x.kind == "class" && x.name == "Greeter"));
    assert!(s.iter().any(|x| x.kind == "function" && x.name == "greet"));
    // greet + __init__ are both function_definition nodes.
    assert_eq!(count_functions(Lang::Python, PY_SRC), 2);
}

#[test]
fn js_symbols_and_method() {
    let s = symbols(Lang::JavaScript, JS_SRC).unwrap();
    assert!(s.iter().any(|x| x.kind == "function" && x.name == "add"));
    assert!(s.iter().any(|x| x.kind == "class" && x.name == "Widget"));
    assert!(s.iter().any(|x| x.kind == "method" && x.name == "render"));
}

#[test]
fn go_symbols() {
    let s = symbols(Lang::Go, GO_SRC).unwrap();
    assert!(s.iter().any(|x| x.kind == "function" && x.name == "Add"));
    assert!(s.iter().any(|x| x.kind == "struct" && x.name == "Point"));
}

#[test]
fn imports_extracted() {
    let imps = extract_imports(Lang::Rust, RUST_SRC);
    assert_eq!(imps.len(), 2);
    assert!(imps[0].contains("HashMap"));
    let py = extract_imports(Lang::Python, PY_SRC);
    assert_eq!(py.len(), 2);
    let js = extract_imports(Lang::JavaScript, JS_SRC);
    assert_eq!(js.len(), 1);
    assert!(js[0].contains("bar"));
    let go = extract_imports(Lang::Go, GO_SRC);
    assert_eq!(go.len(), 1);
}

#[test]
fn comments_and_strings() {
    let comments = extract_comments(Lang::Rust, RUST_SRC);
    assert!(comments.iter().any(|c| c.contains("leading comment")));
    assert!(comments.iter().any(|c| c.contains("inline")));
    let strings = extract_strings(Lang::Python, PY_SRC);
    assert!(strings.iter().any(|s| s.contains("hello")));
}

#[test]
fn ts_query_capture() {
    // Capture every function name in the Rust source.
    let texts = query_texts(
        Lang::Rust,
        RUST_SRC,
        "(function_item name: (identifier) @n)",
    )
    .unwrap();
    assert_eq!(texts, vec!["add"]);
}

#[test]
fn loc_vs_count_lines() {
    // count_lines counts every physical line; loc drops blank + comment-only.
    let total = count_lines(RUST_SRC);
    let code = loc(Lang::Rust, RUST_SRC).unwrap();
    assert!(total > code, "loc ({code}) must be < total lines ({total})");
    // The two pure comment lines + blank lines are excluded.
    assert!(code > 0);
}

#[test]
fn empty_and_garbage_are_graceful() {
    assert_eq!(count_lines(""), 0);
    assert_eq!(loc(Lang::Rust, "").unwrap(), 0);
    assert!(symbols(Lang::Rust, "").unwrap().is_empty());
    assert!(extract_imports(Lang::Rust, "").is_empty());
    // Garbage source: tree-sitter recovers, we just get few/no symbols, no panic.
    let garbage = "fn fn fn ;;; {{{ not valid rust @@@@";
    let _ = symbols(Lang::Rust, garbage).unwrap();
    let _ = extract_imports(Lang::Rust, garbage);
    assert_eq!(count_functions(Lang::Rust, garbage), 0);
}

#[test]
fn bad_query_is_an_error() {
    assert!(run_query(Lang::Rust, RUST_SRC, "(this is not valid").is_err());
}

#[test]
fn parsing_unknown_language_errors() {
    assert!(matches!(
        resolve("cobol"),
        Err(AnalyzeError::UnknownLanguage(_))
    ));
}

#[test]
fn all_supported_languages_parse() {
    // Every advertised language must have a working grammar.
    for name in SUPPORTED {
        let lang = Lang::from_name(name).unwrap();
        // A trivial source parses without panic.
        let _ = parse(lang, "x").unwrap();
    }
}
