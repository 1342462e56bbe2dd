//! The language registry: language ids and their aliases, inference from a
//! file name, and the analysis error type.

use vstd::prelude::*;

use crate::parsing::MAX_SOURCE_BYTES;
use crate::meta::{extend_chars, extend_str, join_strs, join_with, str_views};
use crate::text::{ascii_lower, ascii_lower_chars, chars_of, eq_str, string_from, string_of, trim, trim_chars};

verus! {

/// A supported source language.
#[derive(Clone, Copy, Debug, PartialEq, Eq, Structural)]
pub enum Lang {
    Rust,
    Python,
    JavaScript,
    TypeScript,
    Go,
    Java,
    C,
    Cpp,
    Json,
}

/// The canonical language identifier strings, in a stable order.
pub const SUPPORTED: [&'static str; 9] = ["rust", "python", "javascript", "typescript", "go", "java", "c", "cpp", "json"];

/// The canonical identifier of each language.
pub open spec fn lang_name(l: Lang) -> Seq<char> {
    match l {
        Lang::Rust => "rust"@,
        Lang::Python => "python"@,
        Lang::JavaScript => "javascript"@,
        Lang::TypeScript => "typescript"@,
        Lang::Go => "go"@,
        Lang::Java => "java"@,
        Lang::C => "c"@,
        Lang::Cpp => "cpp"@,
        Lang::Json => "json"@,
    }
}

/// The language an (already normalized) identifier or alias names.
pub open spec fn lang_of_id(s: Seq<char>) -> Option<Lang> {
    if s == "rust"@ || s == "rs"@ {
        Some(Lang::Rust)
    } else if s == "python"@ || s == "py"@ {
        Some(Lang::Python)
    } else if s == "javascript"@ || s == "js"@ || s == "jsx"@ || s == "mjs"@ || s == "cjs"@ {
        Some(Lang::JavaScript)
    } else if s == "typescript"@ || s == "ts"@ {
        Some(Lang::TypeScript)
    } else if s == "go"@ || s == "golang"@ {
        Some(Lang::Go)
    } else if s == "java"@ {
        Some(Lang::Java)
    } else if s == "c"@ || s == "h"@ {
        Some(Lang::C)
    } else if s == "cpp"@ || s == "c++"@ || s == "cxx"@ || s == "cc"@ || s == "hpp"@ || s == "hxx"@ {
        Some(Lang::Cpp)
    } else if s == "json"@ {
        Some(Lang::Json)
    } else {
        None
    }
}

/// The language a name denotes: the name is trimmed of white space and
/// ASCII-lower-cased, then looked up among the ids and aliases.
pub open spec fn lang_from_name(name: Seq<char>) -> Option<Lang> {
    lang_of_id(ascii_lower(trim(name)))
}

impl Lang {
    /// Parse a language identifier (case-insensitive, common aliases accepted).
    /// Returns `None` for an unknown language.
    pub fn from_name(name: &str) -> (r: Option<Lang>)
        ensures
            r == lang_from_name(name@),
    {
        let chars = chars_of(name);
        let trimmed = trim_chars(chars.as_slice());
        let v = ascii_lower_chars(trimmed.as_slice());
        let s = v.as_slice();
        if eq_str(s, "rust") || eq_str(s, "rs") {
            Some(Lang::Rust)
        } else if eq_str(s, "python") || eq_str(s, "py") {
            Some(Lang::Python)
        } else if eq_str(s, "javascript") || eq_str(s, "js") || eq_str(s, "jsx") || eq_str(s, "mjs")
            || eq_str(s, "cjs") {
            Some(Lang::JavaScript)
        } else if eq_str(s, "typescript") || eq_str(s, "ts") {
            Some(Lang::TypeScript)
        } else if eq_str(s, "go") || eq_str(s, "golang") {
            Some(Lang::Go)
        } else if eq_str(s, "java") {
            Some(Lang::Java)
        } else if eq_str(s, "c") || eq_str(s, "h") {
            Some(Lang::C)
        } else if eq_str(s, "cpp") || eq_str(s, "c++") || eq_str(s, "cxx") || eq_str(s, "cc")
            || eq_str(s, "hpp") || eq_str(s, "hxx") {
            Some(Lang::Cpp)
        } else if eq_str(s, "json") {
            Some(Lang::Json)
        } else {
            None
        }
    }

    /// The canonical identifier string for this language.
    pub fn name(self) -> (r: &'static str)
        ensures
            r@ == lang_name(self),
    {
        match self {
            Lang::Rust => "rust",
            Lang::Python => "python",
            Lang::JavaScript => "javascript",
            Lang::TypeScript => "typescript",
            Lang::Go => "go",
            Lang::Java => "java",
            Lang::C => "c",
            Lang::Cpp => "cpp",
            Lang::Json => "json",
        }
    }
}

/// An error from a language-analysis call. The only *hard* error is an unknown
/// language or oversized input; parsing itself is always best-effort.
#[derive(Debug)]
pub enum AnalyzeError {
    UnknownLanguage(String),
    TooLarge(usize),
    Parse(String),
}

/// The decimal digit `d` (below 10).
pub open spec fn digit_char(d: nat) -> char {
    (48 + d) as char
}

/// The decimal representation of `n`.
pub open spec fn decimal(n: nat) -> Seq<char>
    decreases n,
{
    if n < 10 {
        seq![digit_char(n)]
    } else {
        decimal(n / 10).push(digit_char(n % 10))
    }
}

/// Append the decimal representation of `n` to `out`.
pub fn push_decimal(out: &mut Vec<char>, n: usize)
    ensures
        final(out)@ == old(out)@ + decimal(n as nat),
    decreases n,
{
    if n >= 10 {
        push_decimal(out, n / 10);
    }
    let d = (n % 10) as u8;
    out.push((48 + d) as char);
    assert(final(out)@ =~= old(out)@ + decimal(n as nat)) by {
        if n < 10 {
            assert(decimal(n as nat) == seq![digit_char(n as nat)]);
        }
    }
}

/// The supported language ids, comma separated.
pub open spec fn supported_list() -> Seq<char> {
    join_with(str_views(SUPPORTED@), ", "@)
}

/// The message of an analysis error.
pub open spec fn error_message(e: AnalyzeError) -> Seq<char> {
    match e {
        AnalyzeError::UnknownLanguage(s) => "unknown language '"@ + s@ + "'; supported: "@
            + supported_list(),
        AnalyzeError::TooLarge(n) => "source is "@ + decimal(n as nat) + " bytes, exceeds the "@
            + decimal(MAX_SOURCE_BYTES as nat) + "-byte limit"@,
        AnalyzeError::Parse(s) => "parse error: "@ + s@,
    }
}

impl AnalyzeError {
    /// The error's message: which language is unknown (and which are
    /// supported), how far over the size limit the source is, or what the
    /// parser reported.
    pub fn message(&self) -> (r: String)
        ensures
            r@ == error_message(*self),
    {
        let mut out: Vec<char> = Vec::new();
        match self {
            AnalyzeError::UnknownLanguage(s) => {
                extend_str(&mut out, "unknown language '");
                extend_str(&mut out, s.as_str());
                extend_str(&mut out, "'; supported: ");
                let list = join_strs(&SUPPORTED, ", ");
                extend_chars(&mut out, list.as_slice());
            },
            AnalyzeError::TooLarge(n) => {
                extend_str(&mut out, "source is ");
                push_decimal(&mut out, *n);
                extend_str(&mut out, " bytes, exceeds the ");
                push_decimal(&mut out, MAX_SOURCE_BYTES);
                extend_str(&mut out, "-byte limit");
            },
            AnalyzeError::Parse(s) => {
                extend_str(&mut out, "parse error: ");
                extend_str(&mut out, s.as_str());
            },
        }
        assert(out@ =~= error_message(*self));
        string_of(&out)
    }
}

/// The spec-level value of an [`AnalyzeError`].
pub enum ErrorView {
    UnknownLanguage(Seq<char>),
    TooLarge(nat),
    Parse(Seq<char>),
}

impl View for AnalyzeError {
    type V = ErrorView;

    open spec fn view(&self) -> ErrorView {
        match self {
            AnalyzeError::UnknownLanguage(s) => ErrorView::UnknownLanguage(s@),
            AnalyzeError::TooLarge(n) => ErrorView::TooLarge(*n as nat),
            AnalyzeError::Parse(s) => ErrorView::Parse(s@),
        }
    }
}

/// Resolve a language name or return [`AnalyzeError::UnknownLanguage`]
/// carrying the name as given.
pub fn resolve(language: &str) -> (r: Result<Lang, AnalyzeError>)
    ensures
        match lang_from_name(language@) {
            Some(l) => r matches Ok(x) && x == l,
            None => r matches Err(AnalyzeError::UnknownLanguage(s)) && s@ == language@,
        },
{
    match Lang::from_name(language) {
        Some(l) => Ok(l),
        None => Err(AnalyzeError::UnknownLanguage(string_from(language))),
    }
}

/// The text after the last `.` of `s`, or all of `s` where it has no `.`.
pub open spec fn after_last_dot(s: Seq<char>) -> Seq<char>
    decreases s.len(),
{
    if s.len() == 0 {
        s
    } else if s.last() == '.' {
        Seq::empty()
    } else {
        after_last_dot(s.drop_last()).push(s.last())
    }
}

/// The language an (already lower-cased) file extension denotes.
pub open spec fn lang_of_extension(e: Seq<char>) -> Option<Lang> {
    if e == "rs"@ {
        Some(Lang::Rust)
    } else if e == "py"@ || e == "pyi"@ {
        Some(Lang::Python)
    } else if e == "js"@ || e == "mjs"@ || e == "cjs"@ || e == "jsx"@ {
        Some(Lang::JavaScript)
    } else if e == "ts"@ || e == "tsx"@ {
        Some(Lang::TypeScript)
    } else if e == "go"@ {
        Some(Lang::Go)
    } else if e == "java"@ {
        Some(Lang::Java)
    } else if e == "c"@ || e == "h"@ {
        Some(Lang::C)
    } else if e == "cpp"@ || e == "cc"@ || e == "cxx"@ || e == "hpp"@ || e == "hxx"@ || e == "hh"@ {
        Some(Lang::Cpp)
    } else if e == "json"@ {
        Some(Lang::Json)
    } else {
        None
    }
}

/// The language a file name denotes: none without a `.`; otherwise the one
/// its extension (the text after the last `.`, ASCII-lower-cased) denotes.
pub open spec fn lang_of_filename(f: Seq<char>) -> Option<Lang> {
    if !f.contains('.') {
        None
    } else {
        lang_of_extension(ascii_lower(after_last_dot(f)))
    }
}

/// Where position `i` and everything after it holds no `.`, the text after
/// the last `.` is that of the first `i` characters followed by the rest.
proof fn lemma_after_last_dot_split(s: Seq<char>, i: int)
    requires
        0 <= i <= s.len(),
        forall|k: int| i <= k < s.len() ==> s[k] != '.',
    ensures
        after_last_dot(s) == after_last_dot(s.subrange(0, i)) + s.subrange(i, s.len() as int),
    decreases s.len() - i,
{
    if i < s.len() {
        lemma_after_last_dot_split(s, i + 1);
        let p = s.subrange(0, i + 1);
        assert(p.drop_last() =~= s.subrange(0, i));
        assert(p.last() == s[i]);
        assert(after_last_dot(p) == after_last_dot(s.subrange(0, i)).push(s[i]));
        assert(after_last_dot(s.subrange(0, i)) + s.subrange(i, s.len() as int) =~= after_last_dot(
            s.subrange(0, i),
        ).push(s[i]) + s.subrange(i + 1, s.len() as int));
    } else {
        assert(s.subrange(0, i) =~= s);
        assert(after_last_dot(s) + s.subrange(i, s.len() as int) =~= after_last_dot(s));
    }
}

/// Infer a language from a filename's extension. Returns `None` if unknown.
pub fn language_of_filename(filename: &str) -> (r: Option<&'static str>)
    ensures
        match lang_of_filename(filename@) {
            None => r is None,
            Some(l) => r matches Some(n) && n@ == lang_name(l),
        },
{
    let v = chars_of(filename);
    let n = v.len();
    // Find the last '.'.
    let mut j: usize = n;
    while j > 0 && v[j - 1] != '.'
        invariant
            j <= n,
            n == v@.len(),
            forall|k: int| j <= k < n ==> v@[k] != '.',
        decreases j,
    {
        j = j - 1;
    }
    if j == 0 {
        assert(!filename@.contains('.'));
        return None;
    }
    let mut ext: Vec<char> = Vec::new();
    for k in j..n
        invariant
            n == v@.len(),
            0 < j <= n,
            ext@ == v@.subrange(j as int, k as int),
    {
        ext.push(v[k]);
        assert(ext@ =~= v@.subrange(j as int, k + 1));
    }
    proof {
        assert(filename@.contains('.')) by {
            assert(v@[j - 1] == '.');
        }
        lemma_after_last_dot_split(v@, j as int);
        let p = v@.subrange(0, j as int);
        assert(p.last() == '.');
        assert(after_last_dot(p) == Seq::<char>::empty());
        assert(after_last_dot(v@) =~= ext@);
    }
    let e = ascii_lower_chars(ext.as_slice());
    let s = e.as_slice();
    let lang = if eq_str(s, "rs") {
        Lang::Rust
    } else if eq_str(s, "py") || eq_str(s, "pyi") {
        Lang::Python
    } else if eq_str(s, "js") || eq_str(s, "mjs") || eq_str(s, "cjs") || eq_str(s, "jsx") {
        Lang::JavaScript
    } else if eq_str(s, "ts") || eq_str(s, "tsx") {
        Lang::TypeScript
    } else if eq_str(s, "go") {
        Lang::Go
    } else if eq_str(s, "java") {
        Lang::Java
    } else if eq_str(s, "c") || eq_str(s, "h") {
        Lang::C
    } else if eq_str(s, "cpp") || eq_str(s, "cc") || eq_str(s, "cxx") || eq_str(s, "hpp") || eq_str(
        s,
        "hxx",
    ) || eq_str(s, "hh") {
        Lang::Cpp
    } else if eq_str(s, "json") {
        Lang::Json
    } else {
        return None;
    };
    Some(lang.name())
}

} // verus!
