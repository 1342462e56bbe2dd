//! Tests of the SQL functions' per-row values and table rows.

use code_worker::functions::{
    CountFunctions, CountLines, ExtractList, LanguageOf, Loc, TsQuery, ValueType,
};

const COUNTS_RUST: &str = "fn a() {}\n// c\nfn b() {}\n";

#[test]
fn count_lines_binds_int_and_counts() {
    assert_eq!(CountLines.result_type(), ValueType::Int32);
    let out: Vec<Option<i32>> = [Some(COUNTS_RUST), Some(""), None]
        .iter()
        .map(|s| CountLines.eval(*s))
        .collect();
    assert_eq!(out[0], Some(3));
    assert_eq!(out[1], Some(0));
    assert!(out[2].is_none());
}

#[test]
fn loc_excludes_comments() {
    let out = Loc.eval(Some(COUNTS_RUST), Some("rust")).unwrap();
    // 2 fn lines are code; the `// c` comment line is excluded.
    assert_eq!(out, Some(2));
}

#[test]
fn count_functions_counts_two() {
    let out = CountFunctions.eval(Some(COUNTS_RUST), Some("rust")).unwrap();
    assert_eq!(out, Some(2));
}

#[test]
fn counts_unknown_language_errors() {
    let err = Loc.eval(Some(COUNTS_RUST), Some("cobol"));
    assert!(err.is_err(), "unknown language must be a clear error");
}

#[test]
fn binds_varchar() {
    assert_eq!(LanguageOf.result_type(), ValueType::Varchar);
}

#[test]
fn infers_known_and_nulls_unknown() {
    let out: Vec<Option<&str>> = [Some("x.py"), Some("main.rs"), Some("Makefile"), None]
        .iter()
        .map(|f| LanguageOf.eval(*f))
        .collect();
    assert_eq!(out[0], Some("python"));
    assert_eq!(out[1], Some("rust"));
    assert!(out[2].is_none(), "no known extension → NULL");
    assert!(out[3].is_none(), "NULL in → NULL out");
}

const LISTS_RUST: &str = "use std::fmt;\nuse std::io;\n// hi\nfn a() { let s = \"x\"; }\n";

fn run(f: &ExtractList, src: &str, lang: &str) -> Option<Vec<String>> {
    f.eval(Some(src), Some(lang)).unwrap()
}

#[test]
fn bind_matches_built_list_type() {
    assert_eq!(ExtractList::imports().result_type(), ValueType::VarcharList);
}

#[test]
fn imports_listed() {
    let row = run(&ExtractList::imports(), LISTS_RUST, "rust").unwrap();
    assert_eq!(row.len(), 2);
    assert!(row[0].contains("fmt"));
}

#[test]
fn comments_and_strings_listed() {
    let c = run(&ExtractList::comments(), LISTS_RUST, "rust").unwrap();
    assert!(c[0].contains("hi"));

    let s = run(&ExtractList::strings(), LISTS_RUST, "rust").unwrap();
    assert_eq!(s[0], "\"x\"");
}

#[test]
fn null_source_yields_null_list() {
    let out = ExtractList::imports().eval(None, Some("rust")).unwrap();
    assert!(out.is_none());
}

#[test]
fn empty_source_is_empty_list_not_null() {
    let out = run(&ExtractList::imports(), "", "rust");
    assert!(out.is_some());
    assert_eq!(out.unwrap().len(), 0);
}

#[test]
fn lists_unknown_language_errors() {
    let err = ExtractList::imports().eval(Some(LISTS_RUST), Some("cobol"));
    assert!(err.is_err());
}

const QUERY_RUST: &str = "fn alpha() {}\nfn beta() {}\n";
const Q: &str = "(function_item name: (identifier) @n)";

#[test]
fn binds_list() {
    assert_eq!(TsQuery.result_type(), ValueType::VarcharList);
}

#[test]
fn captures_function_names() {
    let out = TsQuery.eval(Some(QUERY_RUST), Some("rust"), Some(Q)).unwrap();
    let got = out.unwrap();
    assert_eq!(got, vec!["alpha", "beta"]);
}

#[test]
fn bad_query_errors() {
    let bad = "(this is not valid";
    let err = TsQuery.eval(Some(QUERY_RUST), Some("rust"), Some(bad));
    assert!(err.is_err());
}

#[test]
fn null_args_yield_null() {
    let out = TsQuery.eval(None, Some("rust"), Some(Q)).unwrap();
    assert!(out.is_none());
}
