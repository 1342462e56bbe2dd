//! The worker's SQL functions, row by row: each scalar function's value for
//! one row of arguments (NULL in gives NULL out; an unknown language is an
//! error) and each table function's rows for its constant arguments (NULL in
//! gives no rows).

use vstd::prelude::*;

use crate::extract::{
    Capture, capture_lines_ok, captures_in_source, capture_views, comments_query_text, extract_comments, extract_imports, extract_strings,
    extraction_ok, imports_query_text, query_error, query_outcome, query_texts, query_texts_outcome, run_query,
    string_views, strings_query_text,
};
use crate::lang::{AnalyzeError, Lang, SUPPORTED, lang_from_name, lang_name, lang_of_filename, language_of_filename, resolve};
use crate::parsing::{count_lines, loc, loc_outcome};
use crate::symbols::{Symbol, count_functions, count_function_symbols, symbols, symbols_or_none, symbols_outcome, sorted_by_lines, symbol_lines_ok, symbol_views, names_in_source};
use crate::text::lines;

verus! {

/// The SQL type of a scalar function's result.
#[derive(Clone, Copy, Debug, PartialEq, Eq, Structural)]
pub enum ValueType {
    /// `INTEGER`
    Int32,
    /// `VARCHAR`
    Varchar,
    /// `VARCHAR[]`
    VarcharList,
}

/// An argument that names an unknown language gives the `UnknownLanguage`
/// error carrying the name.
pub open spec fn unknown_language_error<T>(language: &str, r: Result<T, AnalyzeError>) -> bool {
    r matches Err(AnalyzeError::UnknownLanguage(s)) && s@ == language@
}

// ---------------------------------------------------------------------------
// Scalar functions
// ---------------------------------------------------------------------------

/// `count_lines(source) -> INT`.
pub struct CountLines;

impl CountLines {
    /// The result type (`INTEGER`).
    pub fn result_type(&self) -> (r: ValueType)
        ensures
            r == ValueType::Int32,
    {
        ValueType::Int32
    }

    /// The value for one row: NULL for a NULL source, else its line count.
    pub fn eval(&self, source: Option<&str>) -> (r: Option<i32>)
        ensures
            match source {
                None => r is None,
                Some(s) => r == Some(lines(s@).len() as i32),
            },
    {
        match source {
            None => None,
            Some(src) => Some(count_lines(src)),
        }
    }
}

/// `loc(source, language) -> INT`.
pub struct Loc;

impl Loc {
    /// The result type (`INTEGER`).
    pub fn result_type(&self) -> (r: ValueType)
        ensures
            r == ValueType::Int32,
    {
        ValueType::Int32
    }

    /// The value for one row: NULL where the source or the language is NULL;
    /// an error for an unknown language; else the lines of code.
    pub fn eval(&self, source: Option<&str>, language: Option<&str>) -> (r: Result<Option<i32>, AnalyzeError>)
        ensures
            match (source, language) {
                (Some(s), Some(l)) => match lang_from_name(l@) {
                    None => unknown_language_error(l, r),
                    Some(lang) => match r {
                        Ok(Some(n)) => loc_outcome(lang, s, Ok(n)),
                        Ok(None) => false,
                        Err(e) => loc_outcome(lang, s, Err(e)),
                    },
                },
                _ => r matches Ok(None),
            },
    {
        match (source, language) {
            (Some(src), Some(lang_name)) => {
                let lang = match resolve(lang_name) {
                    Ok(l) => l,
                    Err(e) => {
                        return Err(e);
                    },
                };
                match loc(lang, src) {
                    Ok(n) => Ok(Some(n)),
                    Err(e) => Err(e),
                }
            },
            _ => Ok(None),
        }
    }
}

/// `count_functions(source, language) -> INT`.
pub struct CountFunctions;

impl CountFunctions {
    /// The result type (`INTEGER`).
    pub fn result_type(&self) -> (r: ValueType)
        ensures
            r == ValueType::Int32,
    {
        ValueType::Int32
    }

    /// The value for one row: NULL where the source or the language is NULL;
    /// an error for an unknown language; else the function count.
    pub fn eval(&self, source: Option<&str>, language: Option<&str>) -> (r: Result<Option<i32>, AnalyzeError>)
        ensures
            match (source, language) {
                (Some(s), Some(l)) => match lang_from_name(l@) {
                    None => unknown_language_error(l, r),
                    Some(lang) => r matches Ok(Some(n)) && n == count_function_symbols(
                        symbols_or_none(lang, s),
                    ) as i32,
                },
                _ => r matches Ok(None),
            },
    {
        match (source, language) {
            (Some(src), Some(lang_name)) => {
                let lang = match resolve(lang_name) {
                    Ok(l) => l,
                    Err(e) => {
                        return Err(e);
                    },
                };
                Ok(Some(count_functions(lang, src)))
            },
            _ => Ok(None),
        }
    }
}

/// `language_of(filename) -> VARCHAR`.
pub struct LanguageOf;

impl LanguageOf {
    /// The result type (`VARCHAR`).
    pub fn result_type(&self) -> (r: ValueType)
        ensures
            r == ValueType::Varchar,
    {
        ValueType::Varchar
    }

    /// The value for one row: NULL for a NULL filename or an unknown
    /// extension, else the language id.
    pub fn eval(&self, filename: Option<&str>) -> (r: Option<&'static str>)
        ensures
            match filename {
                None => r is None,
                Some(f) => match lang_of_filename(f@) {
                    None => r is None,
                    Some(l) => r matches Some(n) && n@ == lang_name(l),
                },
            },
    {
        match filename {
            None => None,
            Some(name) => language_of_filename(name),
        }
    }
}

/// Which extraction an [`ExtractList`] performs.
#[derive(Clone, Copy, Debug, PartialEq, Eq, Structural)]
pub enum Kind {
    Imports,
    Comments,
    Strings,
}

/// The query an extraction runs for a language.
pub open spec fn kind_query_text(kind: Kind, lang: Lang) -> Seq<char> {
    match kind {
        Kind::Imports => imports_query_text(lang),
        Kind::Comments => comments_query_text(lang),
        Kind::Strings => strings_query_text(lang),
    }
}

impl Kind {
    /// The extraction's texts for a source.
    pub fn run(self, lang: Lang, source: &str) -> (r: Vec<String>)
        ensures
            extraction_ok(lang, source, kind_query_text(self, lang), string_views(r@)),
    {
        match self {
            Kind::Imports => extract_imports(lang, source),
            Kind::Comments => extract_comments(lang, source),
            Kind::Strings => extract_strings(lang, source),
        }
    }
}

/// `extract_imports`, `extract_comments`, `extract_strings`: each
/// `(source, language) -> VARCHAR[]`, differing only in the extraction and
/// the function's catalog texts.
pub struct ExtractList {
    pub kind: Kind,
    pub name: &'static str,
    pub desc: &'static str,
    pub example_sql: &'static str,
    pub example_desc: &'static str,
    pub title: &'static str,
    pub llm_desc: &'static str,
    pub md_desc: &'static str,
    pub keywords: &'static str,
}

pub const IMPORTS_DESC: &'static str = "Import / use / require statements in the source, as a VARCHAR[]";
pub const IMPORTS_EXAMPLE_SQL: &'static str = "SELECT UNNEST(code.main.extract_imports('import os\nimport sys\n', 'python'));";
pub const IMPORTS_EXAMPLE_DESC: &'static str = "Extract each import statement from Python source, one per row.";
pub const IMPORTS_TITLE: &'static str = "Extract Import Statements";
pub const IMPORTS_LLM_DESC: &'static str = "Extract the import / use / require statements from a source string for a given \
                 language, returned as a VARCHAR[] of the statement texts. NULL source or \
                 language \u{2192} NULL list; an empty source \u{2192} empty list; an unknown \
                 language is a clear error. Use it to discover a file's dependencies.";
pub const IMPORTS_MD_DESC: &'static str = "Import/use/require statements as a `VARCHAR[]`, e.g. \
                 `extract_imports(src, 'python')`.";
pub const IMPORTS_KEYWORDS: &'static str = "imports, extract imports, dependencies, use statements, require, include, \
                 import list, modules";

pub const COMMENTS_DESC: &'static str = "Comment texts in the source, as a VARCHAR[]";
pub const COMMENTS_EXAMPLE_SQL: &'static str = "SELECT code.main.extract_comments('// header\nfn a() {}\n', 'rust');";
pub const COMMENTS_EXAMPLE_DESC: &'static str = "Collect the comment texts from Rust source as a VARCHAR[].";
pub const COMMENTS_TITLE: &'static str = "Extract Comment Texts";
pub const COMMENTS_LLM_DESC: &'static str = "Extract the comment texts (line and block comments) from a source string for a \
                 given language, returned as a VARCHAR[]. NULL source or language \u{2192} NULL \
                 list; empty source \u{2192} empty list; an unknown language is a clear error. \
                 Use it to mine documentation, TODOs, or license headers.";
pub const COMMENTS_MD_DESC: &'static str = "Comment texts as a `VARCHAR[]`, e.g. `extract_comments(src, 'rust')`.";
pub const COMMENTS_KEYWORDS: &'static str = "comments, extract comments, docstrings, todo, fixme, documentation, \
                 license header, annotations";

pub const STRINGS_DESC: &'static str = "String-literal texts in the source, as a VARCHAR[]";
pub const STRINGS_EXAMPLE_SQL: &'static str = "SELECT code.main.extract_strings('let s = \"hello\";\n', 'rust');";
pub const STRINGS_EXAMPLE_DESC: &'static str = "Collect the string-literal texts from Rust source as a VARCHAR[].";
pub const STRINGS_TITLE: &'static str = "Extract String Literals";
pub const STRINGS_LLM_DESC: &'static str = "Extract the string-literal texts from a source string for a given language, \
                 returned as a VARCHAR[] (the literals including their quotes). NULL source or \
                 language \u{2192} NULL list; empty source \u{2192} empty list; an unknown \
                 language is a clear error. Use it to find hard-coded strings, secrets, or URLs.";
pub const STRINGS_MD_DESC: &'static str = "String-literal texts as a `VARCHAR[]`, e.g. `extract_strings(src, 'rust')`.";
pub const STRINGS_KEYWORDS: &'static str = "strings, extract strings, string literals, hardcoded strings, secrets, urls, \
                 text literals";

impl ExtractList {
    /// `extract_imports(source, language)`.
    pub fn imports() -> (r: Self)
        ensures
            r.kind == Kind::Imports,
            r.name@ == "extract_imports"@,
            r.desc == IMPORTS_DESC,
            r.example_sql == IMPORTS_EXAMPLE_SQL,
            r.example_desc == IMPORTS_EXAMPLE_DESC,
            r.title == IMPORTS_TITLE,
            r.llm_desc == IMPORTS_LLM_DESC,
            r.md_desc == IMPORTS_MD_DESC,
            r.keywords == IMPORTS_KEYWORDS,
    {
        ExtractList {
            kind: Kind::Imports,
            name: "extract_imports",
            desc: IMPORTS_DESC,
            example_sql: IMPORTS_EXAMPLE_SQL,
            example_desc: IMPORTS_EXAMPLE_DESC,
            title: IMPORTS_TITLE,
            llm_desc: IMPORTS_LLM_DESC,
            md_desc: IMPORTS_MD_DESC,
            keywords: IMPORTS_KEYWORDS,
        }
    }

    /// `extract_comments(source, language)`.
    pub fn comments() -> (r: Self)
        ensures
            r.kind == Kind::Comments,
            r.name@ == "extract_comments"@,
            r.desc == COMMENTS_DESC,
            r.example_sql == COMMENTS_EXAMPLE_SQL,
            r.example_desc == COMMENTS_EXAMPLE_DESC,
            r.title == COMMENTS_TITLE,
            r.llm_desc == COMMENTS_LLM_DESC,
            r.md_desc == COMMENTS_MD_DESC,
            r.keywords == COMMENTS_KEYWORDS,
    {
        ExtractList {
            kind: Kind::Comments,
            name: "extract_comments",
            desc: COMMENTS_DESC,
            example_sql: COMMENTS_EXAMPLE_SQL,
            example_desc: COMMENTS_EXAMPLE_DESC,
            title: COMMENTS_TITLE,
            llm_desc: COMMENTS_LLM_DESC,
            md_desc: COMMENTS_MD_DESC,
            keywords: COMMENTS_KEYWORDS,
        }
    }

    /// `extract_strings(source, language)`.
    pub fn strings() -> (r: Self)
        ensures
            r.kind == Kind::Strings,
            r.name@ == "extract_strings"@,
            r.desc == STRINGS_DESC,
            r.example_sql == STRINGS_EXAMPLE_SQL,
            r.example_desc == STRINGS_EXAMPLE_DESC,
            r.title == STRINGS_TITLE,
            r.llm_desc == STRINGS_LLM_DESC,
            r.md_desc == STRINGS_MD_DESC,
            r.keywords == STRINGS_KEYWORDS,
    {
        ExtractList {
            kind: Kind::Strings,
            name: "extract_strings",
            desc: STRINGS_DESC,
            example_sql: STRINGS_EXAMPLE_SQL,
            example_desc: STRINGS_EXAMPLE_DESC,
            title: STRINGS_TITLE,
            llm_desc: STRINGS_LLM_DESC,
            md_desc: STRINGS_MD_DESC,
            keywords: STRINGS_KEYWORDS,
        }
    }

    /// The result type (`VARCHAR[]`).
    pub fn result_type(&self) -> (r: ValueType)
        ensures
            r == ValueType::VarcharList,
    {
        ValueType::VarcharList
    }

    /// The value for one row: NULL where the source or the language is NULL;
    /// an error for an unknown language; else the extracted texts.
    pub fn eval(&self, source: Option<&str>, language: Option<&str>) -> (r: Result<Option<Vec<String>>, AnalyzeError>)
        ensures
            match (source, language) {
                (Some(s), Some(l)) => match lang_from_name(l@) {
                    None => unknown_language_error(l, r),
                    Some(lang) => r matches Ok(Some(v)) && extraction_ok(
                        lang,
                        s,
                        kind_query_text(self.kind, lang),
                        string_views(v@),
                    ),
                },
                _ => r matches Ok(None),
            },
    {
        match (source, language) {
            (Some(src), Some(lang_name)) => {
                let lang = match resolve(lang_name) {
                    Ok(l) => l,
                    Err(e) => {
                        return Err(e);
                    },
                };
                Ok(Some(self.kind.run(lang, src)))
            },
            _ => Ok(None),
        }
    }
}

/// `ts_query(source, language, query) -> VARCHAR[]`.
pub struct TsQuery;

impl TsQuery {
    /// The result type (`VARCHAR[]`).
    pub fn result_type(&self) -> (r: ValueType)
        ensures
            r == ValueType::VarcharList,
    {
        ValueType::VarcharList
    }

    /// The value for one row: NULL where any argument is NULL; an error for
    /// an unknown language or a malformed query; else the captured texts.
    pub fn eval(&self, source: Option<&str>, language: Option<&str>, query: Option<&str>) -> (r: Result<
        Option<Vec<String>>,
        AnalyzeError,
    >)
        ensures
            match (source, language, query) {
                (Some(s), Some(l), Some(q)) => match lang_from_name(l@) {
                    None => unknown_language_error(l, r),
                    Some(lang) => match r {
                        Ok(Some(v)) => query_texts_outcome(lang, s, q@, Ok(v)),
                        Ok(None) => false,
                        Err(e) => query_texts_outcome(lang, s, q@, Err(e)),
                    },
                },
                _ => r matches Ok(None),
            },
    {
        match (source, language, query) {
            (Some(src), Some(lang_name), Some(q)) => {
                let lang = match resolve(lang_name) {
                    Ok(l) => l,
                    Err(e) => {
                        return Err(e);
                    },
                };
                match query_texts(lang, src, q) {
                    Ok(v) => Ok(Some(v)),
                    Err(e) => Err(e),
                }
            },
            _ => Ok(None),
        }
    }
}

// ---------------------------------------------------------------------------
// Table functions
// ---------------------------------------------------------------------------

/// `supported_languages() -> (language VARCHAR)`.
pub struct SupportedLanguages;

impl SupportedLanguages {
    /// The rows: every supported language id, in the stable order.
    pub fn rows(&self) -> (r: Vec<&'static str>)
        ensures
            r@ == SUPPORTED@,
    {
        let mut v: Vec<&'static str> = Vec::new();
        for i in 0..SUPPORTED.len()
            invariant
                v@ == SUPPORTED@.take(i as int),
        {
            v.push(SUPPORTED[i]);
            assert(v@ =~= SUPPORTED@.take(i + 1));
        }
        assert(SUPPORTED@.take(SUPPORTED@.len() as int) =~= SUPPORTED@);
        v
    }
}

/// `symbols(source, language) -> (kind, name, start_line, end_line)`.
pub struct Symbols;

impl Symbols {
    /// Bind-time check: a given language must be known.
    pub fn validate(&self, language: Option<&str>) -> (r: Result<(), AnalyzeError>)
        ensures
            match language {
                None => r is Ok,
                Some(l) => match lang_from_name(l@) {
                    None => unknown_language_error(l, r),
                    Some(_) => r is Ok,
                },
            },
    {
        match language {
            Some(lang) => match resolve(lang) {
                Ok(_) => Ok(()),
                Err(e) => Err(e),
            },
            None => Ok(()),
        }
    }

    /// The rows: no rows where the source or the language is NULL; an
    /// error for an unknown language; else the source's symbols in line
    /// order.
    pub fn rows(&self, source: Option<&str>, language: Option<&str>) -> (r: Result<Vec<Symbol>, AnalyzeError>)
        ensures
            match (source, language) {
                (Some(s), Some(l)) => match lang_from_name(l@) {
                    None => unknown_language_error(l, r),
                    Some(lang) => symbols_outcome(lang, s, r),
                },
                _ => r matches Ok(v) && v@.len() == 0,
            },
            r matches Ok(v) ==> sorted_by_lines(symbol_views(v@)),
            r matches Ok(v) ==> symbol_lines_ok(symbol_views(v@)),
            source matches Some(s) ==> (r matches Ok(v) ==> names_in_source(symbol_views(v@), s@)),
    {
        match (source, language) {
            (Some(src), Some(lang_name)) => {
                let lang = match resolve(lang_name) {
                    Ok(l) => l,
                    Err(e) => {
                        return Err(e);
                    },
                };
                symbols(lang, src)
            },
            _ => Ok(Vec::new()),
        }
    }
}

/// `ts_nodes(source, language, query) -> (seq, capture, text, start_line,
/// end_line)`.
pub struct TsNodes;

impl TsNodes {
    /// Bind-time check: with all three arguments given, the language must be
    /// known and the query must run; with only the language given, it must
    /// be known.
    pub fn validate(&self, source: Option<&str>, language: Option<&str>, query: Option<&str>) -> (r: Result<(), AnalyzeError>)
        ensures
            match (source, language, query) {
                (Some(s), Some(l), Some(q)) => match lang_from_name(l@) {
                    None => unknown_language_error(l, r),
                    Some(lang) => match query_error(lang, s, q@) {
                        None => r is Ok,
                        Some(ev) => r matches Err(e) && e@ == ev,
                    },
                },
                (_, Some(l), _) => match lang_from_name(l@) {
                    None => unknown_language_error(l, r),
                    Some(_) => r is Ok,
                },
                _ => r is Ok,
            },
    {
        match (source, language, query) {
            (Some(src), Some(lang_name), Some(q)) => {
                let lang = match resolve(lang_name) {
                    Ok(l) => l,
                    Err(e) => {
                        return Err(e);
                    },
                };
                match run_query(lang, src, q) {
                    Ok(_) => Ok(()),
                    Err(e) => Err(e),
                }
            },
            (_, Some(lang_name), _) => match resolve(lang_name) {
                Ok(_) => Ok(()),
                Err(e) => Err(e),
            },
            _ => Ok(()),
        }
    }

    /// The rows: no rows where any argument is NULL; an error for an unknown
    /// language or a malformed query; else every capture in document order.
    pub fn rows(&self, source: Option<&str>, language: Option<&str>, query: Option<&str>) -> (r: Result<Vec<Capture>, AnalyzeError>)
        ensures
            match (source, language, query) {
                (Some(s), Some(l), Some(q)) => match lang_from_name(l@) {
                    None => unknown_language_error(l, r),
                    Some(lang) => query_outcome(lang, s, q@, r),
                },
                _ => r matches Ok(v) && v@.len() == 0,
            },
            r matches Ok(v) ==> capture_lines_ok(capture_views(v@)),
            source matches Some(s) ==> (r matches Ok(v) ==> captures_in_source(capture_views(v@), s@)),
    {
        match (source, language, query) {
            (Some(src), Some(lang_name), Some(q)) => {
                let lang = match resolve(lang_name) {
                    Ok(l) => l,
                    Err(e) => {
                        return Err(e);
                    },
                };
                run_query(lang, src, q)
            },
            _ => Ok(Vec::new()),
        }
    }
}

} // verus!
