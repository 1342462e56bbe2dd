//! The tree-sitter boundary: grammars, parsing, query compilation, query
//! execution and node inspection.
//!
//! Every call into the `tree_sitter` crate (and the grammar crates) stands in
//! a trusted wrapper of this module. The values that tree-sitter builds
//! (grammar, parser, tree, compiled query, node) are held in structs of this
//! module together with the plain inputs they were built from (the language,
//! the source text, the query text, the child path of a node). Each such
//! struct is built only inside the trusted wrapper that makes the
//! tree-sitter call producing its value, and that wrapper's contract states
//! the recorded inputs; verified code never writes their fields. The
//! wrappers that read a tree-sitter value name their results as functions of
//! those inputs.

use streaming_iterator::StreamingIterator;
use vstd::prelude::*;
use vstd::string::StringSliceAdditionalSpecFns;

use crate::lang::Lang;

verus! {

#[verifier::external_type_specification]
#[verifier::external_body]
pub struct ExLanguage(tree_sitter::Language);

#[verifier::external_type_specification]
#[verifier::external_body]
pub struct ExParser(tree_sitter::Parser);

#[verifier::external_type_specification]
#[verifier::external_body]
pub struct ExTree(tree_sitter::Tree);

#[verifier::external_type_specification]
#[verifier::external_body]
pub struct ExQuery(tree_sitter::Query);

#[verifier::external_type_specification]
#[verifier::external_body]
pub struct ExNode<'tree>(tree_sitter::Node<'tree>);

// ---------------------------------------------------------------------------
// Grammars
// ---------------------------------------------------------------------------

/// A tree-sitter grammar together with the language it is the grammar of.
/// Only the grammar wrappers below build one.
pub struct Grammar {
    lang: Lang,
    language: tree_sitter::Language,
}

impl Grammar {
    /// The language whose grammar this is.
    pub closed spec fn lang(&self) -> Lang {
        self.lang
    }
}

/// `tree_sitter_rust::LANGUAGE`, converted into a `tree_sitter::Language` and held as the
/// grammar of `Lang::Rust`.
#[verifier::external_body]
fn rust_grammar() -> (g: Grammar)
    ensures
        g.lang() == Lang::Rust,
{
    Grammar { lang: Lang::Rust, language: tree_sitter_rust::LANGUAGE.into() }
}

/// `tree_sitter_python::LANGUAGE`, converted into a `tree_sitter::Language` and held as the
/// grammar of `Lang::Python`.
#[verifier::external_body]
fn python_grammar() -> (g: Grammar)
    ensures
        g.lang() == Lang::Python,
{
    Grammar { lang: Lang::Python, language: tree_sitter_python::LANGUAGE.into() }
}

/// `tree_sitter_javascript::LANGUAGE`, converted into a `tree_sitter::Language` and held as the
/// grammar of `Lang::JavaScript`.
#[verifier::external_body]
fn javascript_grammar() -> (g: Grammar)
    ensures
        g.lang() == Lang::JavaScript,
{
    Grammar { lang: Lang::JavaScript, language: tree_sitter_javascript::LANGUAGE.into() }
}

/// `tree_sitter_typescript::LANGUAGE_TYPESCRIPT`, converted into a `tree_sitter::Language` and held as the
/// grammar of `Lang::TypeScript`.
#[verifier::external_body]
fn typescript_grammar() -> (g: Grammar)
    ensures
        g.lang() == Lang::TypeScript,
{
    Grammar { lang: Lang::TypeScript, language: tree_sitter_typescript::LANGUAGE_TYPESCRIPT.into() }
}

/// `tree_sitter_go::LANGUAGE`, converted into a `tree_sitter::Language` and held as the
/// grammar of `Lang::Go`.
#[verifier::external_body]
fn go_grammar() -> (g: Grammar)
    ensures
        g.lang() == Lang::Go,
{
    Grammar { lang: Lang::Go, language: tree_sitter_go::LANGUAGE.into() }
}

/// `tree_sitter_java::LANGUAGE`, converted into a `tree_sitter::Language` and held as the
/// grammar of `Lang::Java`.
#[verifier::external_body]
fn java_grammar() -> (g: Grammar)
    ensures
        g.lang() == Lang::Java,
{
    Grammar { lang: Lang::Java, language: tree_sitter_java::LANGUAGE.into() }
}

/// `tree_sitter_c::LANGUAGE`, converted into a `tree_sitter::Language` and held as the
/// grammar of `Lang::C`.
#[verifier::external_body]
fn c_grammar() -> (g: Grammar)
    ensures
        g.lang() == Lang::C,
{
    Grammar { lang: Lang::C, language: tree_sitter_c::LANGUAGE.into() }
}

/// `tree_sitter_cpp::LANGUAGE`, converted into a `tree_sitter::Language` and held as the
/// grammar of `Lang::Cpp`.
#[verifier::external_body]
fn cpp_grammar() -> (g: Grammar)
    ensures
        g.lang() == Lang::Cpp,
{
    Grammar { lang: Lang::Cpp, language: tree_sitter_cpp::LANGUAGE.into() }
}

/// `tree_sitter_json::LANGUAGE`, converted into a `tree_sitter::Language` and held as the
/// grammar of `Lang::Json`.
#[verifier::external_body]
fn json_grammar() -> (g: Grammar)
    ensures
        g.lang() == Lang::Json,
{
    Grammar { lang: Lang::Json, language: tree_sitter_json::LANGUAGE.into() }
}

impl Grammar {
    /// The grammar of `lang`.
    pub fn of(lang: Lang) -> (g: Grammar)
        ensures
            g.lang() == lang,
    {
        match lang {
            Lang::Rust => rust_grammar(),
            Lang::Python => python_grammar(),
            Lang::JavaScript => javascript_grammar(),
            Lang::TypeScript => typescript_grammar(),
            Lang::Go => go_grammar(),
            Lang::Java => java_grammar(),
            Lang::C => c_grammar(),
            Lang::Cpp => cpp_grammar(),
            Lang::Json => json_grammar(),
        }
    }
}

impl Lang {
    /// The tree-sitter grammar for this language.
    pub fn grammar(self) -> (r: Grammar)
        ensures
            r.lang() == self,
    {
        Grammar::of(self)
    }
}

// ---------------------------------------------------------------------------
// Parsing
// ---------------------------------------------------------------------------

/// `tree_sitter::Parser::new`: a parser with no language assigned.
#[verifier::external_body]
fn ts_new_parser() -> tree_sitter::Parser {
    tree_sitter::Parser::new()
}

/// A parser that has been assigned the grammar of a language. Only
/// `ts_set_language` builds one.
struct ReadyParser {
    parser: tree_sitter::Parser,
    lang: Lang,
}

impl ReadyParser {
    /// The language whose grammar the parser was assigned.
    closed spec fn lang(&self) -> Lang {
        self.lang
    }
}

/// `tree_sitter::Parser::set_language` with the grammar `g`, its
/// `LanguageError` rendered with `to_string`; on success the parser is held
/// as a parser for `g`'s language. Claims success: a `Grammar` holds one of
/// the nine bundled grammars, and `set_language` fails only for an ABI
/// version outside `MIN_COMPATIBLE_LANGUAGE_VERSION..=LANGUAGE_VERSION` (13
/// to 15 in this tree-sitter) or a grammar without a lex function (or, with
/// the `wasm` feature, a wasm grammar). Each bundled grammar's `parser.c`
/// sets its ABI version to 14 or 15 and its lex function.
#[verifier::external_body]
fn ts_set_language(parser: tree_sitter::Parser, g: &Grammar) -> (r: Result<ReadyParser, String>)
    ensures
        r is Ok,
        r matches Ok(ready) ==> ready.lang() == g.lang(),
{
    let mut parser = parser;
    match parser.set_language(&g.language) {
        Ok(()) => Ok(ReadyParser { parser, lang: g.lang }),
        Err(e) => Err(e.to_string()),
    }
}

/// A syntax tree together with the language and the text it was parsed from.
/// Only `ts_parse` builds one.
pub struct SyntaxTree {
    lang: Lang,
    source: Ghost<Seq<char>>,
    tree: tree_sitter::Tree,
}

impl SyntaxTree {
    /// The language whose grammar parsed the tree.
    pub closed spec fn lang(&self) -> Lang {
        self.lang
    }

    /// The text the tree was parsed from.
    pub closed spec fn source(&self) -> Seq<char> {
        self.source@
    }
}

/// `tree_sitter::Parser::parse` of a whole text with no previous tree, the
/// tree held with the parser's language and the text. Its documentation
/// gives `None` only for a parser with no language assigned (no
/// cancellation or timeout is set here), so a tree is claimed to come back.
#[verifier::external_body]
fn ts_parse(p: &mut ReadyParser, source: &str) -> (r: Option<SyntaxTree>)
    ensures
        r is Some,
        r matches Some(t) ==> t.lang() == old(p).lang() && t.source() == source@,
{
    match p.parser.parse(source, None) {
        Some(tree) => Some(SyntaxTree { lang: p.lang, source: Ghost(source@), tree }),
        None => None,
    }
}

impl SyntaxTree {
    /// Parse `source` with grammar `g`. tree-sitter recovers from syntax
    /// errors and every bundled grammar can be assigned to a parser, so a
    /// tree always comes back.
    pub fn parse(g: &Grammar, source: &str) -> (r: Result<SyntaxTree, String>)
        ensures
            r matches Ok(t) && t.lang() == g.lang() && t.source() == source@,
    {
        let parser = ts_new_parser();
        let mut ready = match ts_set_language(parser, g) {
            Ok(p) => p,
            Err(e) => {
                return Err(e);
            },
        };
        Ok(ts_parse(&mut ready, source).unwrap())
    }
}

// ---------------------------------------------------------------------------
// Queries
// ---------------------------------------------------------------------------

/// What `tree_sitter::Query::new` gives for the grammar of `lang` and the
/// query text `query`: `Ok(())` for a query it accepts, or the rendered
/// `QueryError` message.
pub uninterp spec fn ts_query_new(lang: Lang, query: Seq<char>) -> Result<(), Seq<char>>;

/// The capture names (`tree_sitter::Query::capture_names`) of the query
/// compiled from `query` with the grammar of `lang`, in capture-index order.
pub uninterp spec fn ts_capture_names(lang: Lang, query: Seq<char>) -> Seq<Seq<char>>;

/// A compiled tree-sitter query together with the language and the text it
/// was compiled from. Only `ts_compile` builds one.
pub struct CompiledQuery {
    lang: Lang,
    text: Ghost<Seq<char>>,
    query: tree_sitter::Query,
}

impl CompiledQuery {
    /// The language whose grammar compiled the query.
    pub closed spec fn lang(&self) -> Lang {
        self.lang
    }

    /// The query text.
    pub closed spec fn text(&self) -> Seq<char> {
        self.text@
    }
}

/// `tree_sitter::Query::new`, its `QueryError` rendered with `to_string`;
/// the compiled query is held with the grammar's language and the text.
/// Claims that the outcome is the named function of the grammar's language
/// and the query text.
///
/// It also claims that an empty query text compiles: with no pattern to
/// parse, `ts_query_new` checks only the grammar's ABI version (14 or 15 for
/// every bundled grammar) and finds nothing invalid.
#[verifier::external_body]
fn ts_compile(g: &Grammar, query: &str) -> (r: Result<CompiledQuery, String>)
    ensures
        query@.len() == 0 ==> r is Ok,
        match r {
            Ok(q) => ts_query_new(g.lang(), query@) is Ok && q.lang() == g.lang() && q.text() == query@,
            Err(m) => ts_query_new(g.lang(), query@) == Err::<(), Seq<char>>(m@),
        },
{
    match tree_sitter::Query::new(&g.language, query) {
        Ok(q) => Ok(CompiledQuery { lang: g.lang, text: Ghost(query@), query: q }),
        Err(e) => Err(e.to_string()),
    }
}

impl CompiledQuery {
    /// Compile `query` with grammar `g`.
    pub fn compile(g: &Grammar, query: &str) -> (r: Result<CompiledQuery, String>)
        ensures
            query@.len() == 0 ==> r is Ok,
            match r {
                Ok(q) => ts_query_new(g.lang(), query@) is Ok && q.lang() == g.lang() && q.text() == query@,
                Err(m) => ts_query_new(g.lang(), query@) == Err::<(), Seq<char>>(m@),
            },
    {
        ts_compile(g, query)
    }
}

/// `tree_sitter::Query::capture_names`. Claims that the names are the named
/// function of the query's language and text.
#[verifier::external_body]
pub(crate) fn ts_query_capture_names<'a>(q: &'a CompiledQuery) -> (r: &'a [&'a str])
    ensures
        r@.map_values(|s: &str| s@) == ts_capture_names(q.lang(), q.text()),
{
    q.query.capture_names()
}

/// One capture of a query match: the capture's index into the query's
/// capture names, and the captured node's byte range and (0-based) rows.
#[derive(Clone, Copy, Debug, PartialEq, Eq, Structural)]
pub struct RawCapture {
    pub index: u32,
    pub start_byte: usize,
    pub end_byte: usize,
    pub start_row: usize,
    pub end_row: usize,
}

/// The captured node of `c` lies within a text of `n` UTF-8 bytes: its byte
/// range is ordered and ends by `n`, and its rows (which count the line
/// breaks before a position) are ordered and at most `n`.
pub open spec fn capture_within(c: RawCapture, n: nat) -> bool {
    &&& c.start_byte <= c.end_byte
    &&& c.end_byte <= n
    &&& c.start_row <= c.end_row
    &&& c.end_row <= n
}

/// The matches, in the order `QueryCursor::matches` yields them, each as its
/// captures in order, of the query compiled from `query` with the grammar of
/// `query_lang`, run over the root of the tree parsed from `source` with the
/// grammar of `tree_lang`.
pub uninterp spec fn ts_query_matches(
    tree_lang: Lang,
    source: Seq<char>,
    query_lang: Lang,
    query: Seq<char>,
) -> Seq<Seq<RawCapture>>;

/// `tree_sitter::QueryCursor::matches` over the tree's root node with the
/// source bytes as text provider, each match's captures copied into plain
/// records. Claims that the matches are the named function of the tree's
/// language and text and of the query's language and text, and that each
/// captured node lies within the text. A query compiled from empty text has
/// no patterns, so it has no matches.
#[verifier::external_body]
pub(crate) fn ts_query_run(t: &SyntaxTree, q: &CompiledQuery, source: &str) -> (r: Vec<Vec<RawCapture>>)
    requires
        source@ == t.source(),
    ensures
        q.text().len() == 0 ==> r@.len() == 0,
        r@.map_values(|m: Vec<RawCapture>| m@) == ts_query_matches(t.lang(), t.source(), q.lang(), q.text()),
        forall|i: int, j: int|
            0 <= i < r@.len() && 0 <= j < r@[i]@.len() ==> capture_within(
                #[trigger] r@[i]@[j],
                source.spec_bytes().len(),
            ),
{
    let mut cursor = tree_sitter::QueryCursor::new();
    let matches = cursor.matches(&q.query, t.tree.root_node(), source.as_bytes());
    matches.map_deref(|m| m.captures().iter().map(|c| RawCapture {
        index: c.index,
        start_byte: c.node.start_byte(),
        end_byte: c.node.end_byte(),
        start_row: c.node.start_position().row,
        end_row: c.node.end_position().row,
    }).collect::<Vec<RawCapture>>()).collect()
}

// ---------------------------------------------------------------------------
// Nodes
// ---------------------------------------------------------------------------
//
// A node is identified by its child path from the root of the tree parsed
// from `source` with the grammar of `lang`: child `path[0]` of the root,
// then child `path[1]` of that node, and so on. Each name below is what one
// `tree_sitter::Node` method gives for the node at a path.

/// `Node::kind` of the node at `path`.
pub uninterp spec fn ts_node_kind(lang: Lang, source: Seq<char>, path: Seq<u32>) -> Seq<char>;

/// `Node::child_count` of the node at `path`.
pub uninterp spec fn ts_node_child_count(lang: Lang, source: Seq<char>, path: Seq<u32>) -> u32;

/// The row of `Node::start_position` of the node at `path`.
pub uninterp spec fn ts_node_start_row(lang: Lang, source: Seq<char>, path: Seq<u32>) -> usize;

/// The row of `Node::end_position` of the node at `path`.
pub uninterp spec fn ts_node_end_row(lang: Lang, source: Seq<char>, path: Seq<u32>) -> usize;

/// `Node::descendant_count` of the node at `path` (itself included).
pub uninterp spec fn ts_node_descendant_count(lang: Lang, source: Seq<char>, path: Seq<u32>) -> usize;

/// A node of a syntax tree together with its child path from the root. Only
/// `ts_root_node` and `ts_child` build one.
pub struct TreeNode<'a> {
    tree: &'a SyntaxTree,
    node: tree_sitter::Node<'a>,
    path: Ghost<Seq<u32>>,
}

/// `tree_sitter::Tree::root_node`, held with the empty path.
#[verifier::external_body]
fn ts_root_node<'a>(t: &'a SyntaxTree) -> (n: TreeNode<'a>)
    ensures
        n.lang() == t.lang(),
        n.source() == t.source(),
        n.path() == Seq::<u32>::empty(),
{
    TreeNode { tree: t, node: t.tree.root_node(), path: Ghost(Seq::empty()) }
}

/// `tree_sitter::Node::child`, the child held with the path extended by
/// `i`. Claims that a child comes back exactly for `i` below the node's
/// `child_count` (both count the same visible children), and that the
/// child has fewer descendants than the node (a node's descendant count is
/// one more than the sum, over its visible children, of theirs).
#[verifier::external_body]
fn ts_child<'a>(n: &TreeNode<'a>, i: u32) -> (r: Option<TreeNode<'a>>)
    ensures
        r is Some <==> i < ts_node_child_count(n.lang(), n.source(), n.path()),
        r matches Some(c) ==> c.lang() == n.lang() && c.source() == n.source() && c.path()
            == n.path().push(i),
        r matches Some(c) ==> 1 <= ts_node_descendant_count(c.lang(), c.source(), c.path())
            < ts_node_descendant_count(n.lang(), n.source(), n.path()),
{
    match n.node.child(i) {
        Some(node) => Some(TreeNode { tree: n.tree, node, path: Ghost(n.path@.push(i)) }),
        None => None,
    }
}

/// `tree_sitter::Node::kind`, copied into a `String`.
#[verifier::external_body]
fn ts_kind(n: &TreeNode) -> (r: String)
    ensures
        r@ == ts_node_kind(n.lang(), n.source(), n.path()),
{
    n.node.kind().to_string()
}

/// `tree_sitter::Node::child_count`.
#[verifier::external_body]
fn ts_child_count(n: &TreeNode) -> (r: u32)
    ensures
        r == ts_node_child_count(n.lang(), n.source(), n.path()),
{
    n.node.child_count()
}

/// `tree_sitter::Node::start_position`, its row.
#[verifier::external_body]
fn ts_start_row(n: &TreeNode) -> (r: usize)
    ensures
        r == ts_node_start_row(n.lang(), n.source(), n.path()),
{
    n.node.start_position().row
}

/// `tree_sitter::Node::end_position`, its row.
#[verifier::external_body]
fn ts_end_row(n: &TreeNode) -> (r: usize)
    ensures
        r == ts_node_end_row(n.lang(), n.source(), n.path()),
{
    n.node.end_position().row
}

/// `tree_sitter::Node::descendant_count`: the node's visible descendants
/// plus one for itself, so at least one.
#[verifier::external_body]
fn ts_descendant_count(n: &TreeNode) -> (r: usize)
    ensures
        r == ts_node_descendant_count(n.lang(), n.source(), n.path()),
        r >= 1,
{
    n.node.descendant_count()
}

impl<'a> TreeNode<'a> {
    /// The language of the node's tree.
    pub closed spec fn lang(&self) -> Lang {
        self.tree.lang
    }

    /// The text of the node's tree.
    pub closed spec fn source(&self) -> Seq<char> {
        self.tree.source@
    }

    /// The node's child path from the root.
    pub closed spec fn path(&self) -> Seq<u32> {
        self.path@
    }

    /// The node's kind.
    pub fn kind(&self) -> (r: String)
        ensures
            r@ == ts_node_kind(self.lang(), self.source(), self.path()),
    {
        ts_kind(self)
    }

    /// The node's number of children.
    pub fn child_count(&self) -> (r: u32)
        ensures
            r == ts_node_child_count(self.lang(), self.source(), self.path()),
    {
        ts_child_count(self)
    }

    /// The node's first row (0-based).
    pub fn start_row(&self) -> (r: usize)
        ensures
            r == ts_node_start_row(self.lang(), self.source(), self.path()),
    {
        ts_start_row(self)
    }

    /// The node's last row (0-based).
    pub fn end_row(&self) -> (r: usize)
        ensures
            r == ts_node_end_row(self.lang(), self.source(), self.path()),
    {
        ts_end_row(self)
    }

    /// The node's number of descendants, itself included.
    pub fn descendant_count(&self) -> (r: usize)
        ensures
            r == ts_node_descendant_count(self.lang(), self.source(), self.path()),
            r >= 1,
    {
        ts_descendant_count(self)
    }

    /// The node's child at index `i`, if it has one.
    pub fn child(&self, i: u32) -> (r: Option<TreeNode<'a>>)
        ensures
            r is Some <==> i < ts_node_child_count(self.lang(), self.source(), self.path()),
            r matches Some(c) ==> c.lang() == self.lang() && c.source() == self.source()
                && c.path() == self.path().push(i),
            r matches Some(c) ==> 1 <= ts_node_descendant_count(c.lang(), c.source(), c.path())
                < ts_node_descendant_count(self.lang(), self.source(), self.path()),
    {
        ts_child(self, i)
    }
}

impl SyntaxTree {
    /// The root node of the tree.
    pub fn root<'a>(&'a self) -> (n: TreeNode<'a>)
        ensures
            n.lang() == self.lang(),
            n.source() == self.source(),
            n.path() == Seq::<u32>::empty(),
    {
        ts_root_node(self)
    }
}

} // verus!
