//! Parsing and line metrics: the bounded parse, physical line counts, and
//! lines of code (non-blank lines that are not entirely comment).
//!
//! tree-sitter is an error-recovering parser: malformed source never makes it
//! fail, it yields a tree with `ERROR`/`MISSING` nodes. The input size is
//! bounded by [`MAX_SOURCE_BYTES`]; unknown languages are a caller error.

use vstd::prelude::*;
use vstd::string::StringSliceAdditionalSpecFns;

use crate::lang::{AnalyzeError, Lang};
use crate::text::{chars_of, line_blank_flags, lines, lines_from, blank_flags, line_end, lemma_line_end_bounds};
use crate::ts::{
    Grammar, SyntaxTree, TreeNode, ts_node_child_count, ts_node_descendant_count,
    ts_node_end_row, ts_node_kind, ts_node_start_row,
};

verus! {

/// Upper bound on source size (in bytes) we will parse, guarding against
/// pathological input. 16 MiB is far larger than any realistic source file.
pub const MAX_SOURCE_BYTES: usize = 16 * 1024 * 1024;

/// The UTF-8 byte length of a text.
pub open spec fn byte_len(s: &str) -> nat {
    s.spec_bytes().len()
}

/// Parse `source` with the grammar for `lang`. An oversized source is
/// [`AnalyzeError::TooLarge`] with its byte length; any other source parses
/// (tree-sitter recovers from syntax errors, and every bundled grammar
/// loads).
pub fn parse(lang: Lang, source: &str) -> (r: Result<SyntaxTree, AnalyzeError>)
    ensures
        byte_len(source) > MAX_SOURCE_BYTES ==> (r matches Err(AnalyzeError::TooLarge(n)) && n
            == byte_len(source)),
        byte_len(source) <= MAX_SOURCE_BYTES ==> (r matches Ok(t) && t.lang() == lang && t.source()
            == source@),
{
    let n = source.as_bytes().len();
    if n > MAX_SOURCE_BYTES {
        return Err(AnalyzeError::TooLarge(n));
    }
    let grammar = Grammar::of(lang);
    match SyntaxTree::parse(&grammar, source) {
        Ok(t) => Ok(t),
        Err(m) => Err(AnalyzeError::Parse(m)),
    }
}

/// A text has at most as many lines as characters.
pub proof fn lemma_lines_from_len(s: Seq<char>, i: int)
    requires
        0 <= i <= s.len(),
    ensures
        lines_from(s, i).len() <= s.len() - i,
        i < s.len() ==> lines_from(s, i).len() >= 1,
    decreases s.len() - i,
{
    if i < s.len() {
        lemma_line_end_bounds(s, i);
        let e = line_end(s, i);
        if e < s.len() {
            lemma_lines_from_len(s, e + 1);
        }
    }
}

/// A text has at least as many UTF-8 bytes as characters.
pub proof fn lemma_bytes_at_least_chars(s: Seq<char>)
    ensures
        vstd::utf8::encode_utf8(s).len() >= s.len(),
    decreases s.len(),
{
    if s.len() > 0 {
        lemma_bytes_at_least_chars(s.drop_first());
    }
}

/// Total number of lines in `source` (a trailing newline does not add a
/// line); empty source is 0 lines.
pub fn count_lines(source: &str) -> (r: i32)
    ensures
        r == lines(source@).len() as i32,
{
    if source.is_empty() {
        return 0;
    }
    let chars = chars_of(source);
    let flags = line_blank_flags(chars.as_slice());
    let mut n = flags.len();
    proof {
        lemma_lines_from_len(source@, 0);
    }
    if n == 0 {
        n = 1;
    }
    n as i32
}

// ---------------------------------------------------------------------------
// Comment spans
// ---------------------------------------------------------------------------

/// The (0-based) line span of a syntax node, and whether it is a comment.
#[derive(Clone, Copy, Debug, PartialEq, Eq, Structural)]
pub struct LineSpan {
    pub start: usize,
    pub end: usize,
    pub is_comment: bool,
}

/// `pat` occurs in `s`.
pub open spec fn has_substr(s: Seq<char>, pat: Seq<char>) -> bool {
    exists|k: int| 0 <= k && k + pat.len() <= s.len() && #[trigger] s.subrange(k, k + pat.len()) == pat
}

/// Whether `pat` occurs in `v`.
pub fn contains_str(v: &[char], pat: &str) -> (r: bool)
    ensures
        r == has_substr(v@, pat@),
{
    let chars = chars_of(pat);
    let m = chars.len();
    let n = v.len();
    if m > n {
        assert forall|k: int| 0 <= k && k + pat@.len() <= v@.len() implies #[trigger] v@.subrange(
            k,
            k + pat@.len(),
        ) != pat@ by {}
        return false;
    }
    let mut k: usize = 0;
    while k <= n - m
        invariant
            m <= n,
            n == v@.len(),
            m == pat@.len(),
            chars@ == pat@,
            forall|j: int| 0 <= j < k ==> #[trigger] v@.subrange(j, j + m) != pat@,
        decreases n - k,
    {
        let mut i: usize = 0;
        let mut same = true;
        while i < m
            invariant
                k + m <= n,
                n == v@.len(),
                m == chars@.len(),
                i <= m,
                same == (forall|t: int| 0 <= t < i ==> v@[k + t] == chars@[t]),
            decreases m - i,
        {
            if v[k + i] != chars[i] {
                same = false;
            }
            i = i + 1;
        }
        if same {
            assert(v@.subrange(k as int, k + m) =~= pat@);
            return true;
        }
        assert(v@.subrange(k as int, k + m) != pat@) by {
            let t = choose|t: int| 0 <= t < m && v@[k + t] != chars@[t];
            assert(v@.subrange(k as int, k + m)[t] == v@[k + t]);
        }
        k = k + 1;
    }
    assert forall|j: int| 0 <= j && j + pat@.len() <= v@.len() implies #[trigger] v@.subrange(
        j,
        j + pat@.len(),
    ) != pat@ by {}
    false
}

/// A node kind names a comment (`kind.contains("comment")`).
pub open spec fn is_comment_kind(kind: Seq<char>) -> bool {
    has_substr(kind, "comment"@)
}

/// The span of the node at `path` of the tree parsed from `source` with the
/// grammar of `lang`.
pub open spec fn node_span(lang: Lang, source: Seq<char>, path: Seq<u32>, is_comment: bool) -> LineSpan {
    LineSpan {
        start: ts_node_start_row(lang, source, path),
        end: ts_node_end_row(lang, source, path),
        is_comment,
    }
}

/// The spans a walk of the tree (parsed from `source` with the grammar of
/// `lang`) reports from the node at `path`: a comment node reports its span
/// and is not descended into; any other leaf reports its span; any other
/// node reports the spans of its children in order. `depth` bounds how many
/// levels the walk goes down; [`walk_reaches_all`] says when it is enough.
pub open spec fn node_spans(lang: Lang, source: Seq<char>, path: Seq<u32>, depth: nat) -> Seq<LineSpan>
    decreases depth, 0int,
{
    if depth == 0 {
        Seq::empty()
    } else if is_comment_kind(ts_node_kind(lang, source, path)) {
        seq![node_span(lang, source, path, true)]
    } else if ts_node_child_count(lang, source, path) == 0 {
        seq![node_span(lang, source, path, false)]
    } else {
        child_spans(lang, source, path, 0, ts_node_child_count(lang, source, path) as nat, (depth - 1) as nat)
    }
}

/// The spans of children `i..n` of the node at `path`, in order.
pub open spec fn child_spans(
    lang: Lang,
    source: Seq<char>,
    path: Seq<u32>,
    i: nat,
    n: nat,
    depth: nat,
) -> Seq<LineSpan>
    decreases depth, n - i + 1,
{
    if i >= n {
        Seq::empty()
    } else {
        node_spans(lang, source, path.push(i as u32), depth) + child_spans(lang, source, path, i + 1, n, depth)
    }
}

/// The walk from the node at `path` with `depth` levels reaches every node
/// it would descend to: it is never cut off by the depth bound.
pub open spec fn walk_reaches_all(lang: Lang, source: Seq<char>, path: Seq<u32>, depth: nat) -> bool
    decreases depth, 0int,
{
    depth > 0 && (is_comment_kind(ts_node_kind(lang, source, path)) || ts_node_child_count(
        lang,
        source,
        path,
    ) == 0 || children_reach_all(
        lang,
        source,
        path,
        0,
        ts_node_child_count(lang, source, path) as nat,
        (depth - 1) as nat,
    ))
}

/// The walks from children `i..n` of the node at `path` reach every node.
pub open spec fn children_reach_all(
    lang: Lang,
    source: Seq<char>,
    path: Seq<u32>,
    i: nat,
    n: nat,
    depth: nat,
) -> bool
    decreases depth, n - i + 1,
{
    i >= n || (walk_reaches_all(lang, source, path.push(i as u32), depth) && children_reach_all(
        lang,
        source,
        path,
        i + 1,
        n,
        depth,
    ))
}

/// A walk that reaches every node reports the same spans with any larger
/// depth bound.
pub proof fn lemma_walk_depth_suffices(lang: Lang, source: Seq<char>, path: Seq<u32>, d: nat, e: nat)
    requires
        walk_reaches_all(lang, source, path, d),
        e >= d,
    ensures
        node_spans(lang, source, path, e) == node_spans(lang, source, path, d),
    decreases d, 0int,
{
    let n = ts_node_child_count(lang, source, path);
    if !is_comment_kind(ts_node_kind(lang, source, path)) && n != 0 {
        lemma_children_depth_suffices(lang, source, path, 0, n as nat, (d - 1) as nat, (e - 1) as nat);
    }
}

/// [`lemma_walk_depth_suffices`] for children `i..n`.
pub proof fn lemma_children_depth_suffices(
    lang: Lang,
    source: Seq<char>,
    path: Seq<u32>,
    i: nat,
    n: nat,
    d: nat,
    e: nat,
)
    requires
        children_reach_all(lang, source, path, i, n, d),
        e >= d,
    ensures
        child_spans(lang, source, path, i, n, e) == child_spans(lang, source, path, i, n, d),
    decreases d, n - i + 1,
{
    if i < n {
        lemma_walk_depth_suffices(lang, source, path.push(i as u32), d, e);
        lemma_children_depth_suffices(lang, source, path, i + 1, n, d, e);
    }
}

/// Walks from every child in `i..n` reach all nodes, so the children do.
proof fn lemma_children_reach_all(lang: Lang, source: Seq<char>, path: Seq<u32>, i: nat, n: nat, depth: nat)
    requires
        forall|j: nat| i <= j < n ==> walk_reaches_all(lang, source, #[trigger] path.push(j as u32), depth),
    ensures
        children_reach_all(lang, source, path, i, n, depth),
    decreases n - i,
{
    if i < n {
        lemma_children_reach_all(lang, source, path, i + 1, n, depth);
    }
}

/// The spans of the whole tree parsed from `source` with the grammar of
/// `lang`, walked from the root with its descendant count as depth bound.
pub open spec fn tree_spans(lang: Lang, source: Seq<char>) -> Seq<LineSpan> {
    node_spans(lang, source, Seq::empty(), ts_node_descendant_count(lang, source, Seq::empty()) as nat)
}

/// Append to `out` the spans [`node_spans`] reports from `node`; with a
/// depth bound at least the node's descendant count the walk reaches every
/// node.
fn collect_spans(node: &TreeNode, depth: usize, out: &mut Vec<LineSpan>)
    requires
        ts_node_descendant_count(node.lang(), node.source(), node.path()) >= 1,
    ensures
        final(out)@ == old(out)@ + node_spans(node.lang(), node.source(), node.path(), depth as nat),
        depth >= ts_node_descendant_count(node.lang(), node.source(), node.path()) ==> walk_reaches_all(
            node.lang(),
            node.source(),
            node.path(),
            depth as nat,
        ),
    decreases depth,
{
    if depth == 0 {
        assert(old(out)@ + Seq::<LineSpan>::empty() =~= old(out)@);
        return;
    }
    let kind_text = node.kind();
    let kind = chars_of(kind_text.as_str());
    let is_comment = contains_str(kind.as_slice(), "comment");
    let n = node.child_count();
    if n == 0 || is_comment {
        let start = node.start_row();
        let end = node.end_row();
        out.push(LineSpan { start, end, is_comment });
        if is_comment {
            return;
        }
        assert(node_spans(node.lang(), node.source(), node.path(), depth as nat) == seq![
            node_span(node.lang(), node.source(), node.path(), false),
        ]);
        return;
    }
    let ghost lang = node.lang();
    let ghost source = node.source();
    let ghost path = node.path();
    let ghost base = old(out)@;
    let ghost enough = depth >= ts_node_descendant_count(lang, source, path);
    let mut i: u32 = 0;
    while i < n
        invariant
            i <= n,
            depth > 0,
            lang == node.lang(),
            source == node.source(),
            path == node.path(),
            n == ts_node_child_count(lang, source, path),
            enough == (depth >= ts_node_descendant_count(lang, source, path)),
            base + child_spans(lang, source, path, 0, n as nat, (depth - 1) as nat) == out@
                + child_spans(lang, source, path, i as nat, n as nat, (depth - 1) as nat),
            enough ==> forall|j: nat|
                j < i ==> walk_reaches_all(lang, source, #[trigger] path.push(j as u32), (depth - 1) as nat),
        decreases n - i,
    {
        let ghost before = out@;
        match node.child(i) {
            Some(c) => {
                collect_spans(&c, depth - 1, out);
            },
            None => {},
        }
        proof {
            let d = (depth - 1) as nat;
            let here = node_spans(lang, source, path.push(i), d);
            let rest = child_spans(lang, source, path, (i + 1) as nat, n as nat, d);
            assert(child_spans(lang, source, path, i as nat, n as nat, d) == here + rest);
            assert(before + (here + rest) =~= (before + here) + rest);
            assert(path.push(i) == path.push((i as nat) as u32));
        }
        i = i + 1;
    }
    assert(out@ + Seq::<LineSpan>::empty() =~= out@);
    proof {
        if enough {
            lemma_children_reach_all(lang, source, path, 0, n as nat, (depth - 1) as nat);
        }
    }
}

/// All spans of the tree, from a walk that reaches every node.
pub fn tree_line_spans(tree: &SyntaxTree) -> (r: Vec<LineSpan>)
    ensures
        r@ == tree_spans(tree.lang(), tree.source()),
        walk_reaches_all(
            tree.lang(),
            tree.source(),
            Seq::empty(),
            ts_node_descendant_count(tree.lang(), tree.source(), Seq::empty()) as nat,
        ),
{
    let root = tree.root();
    let depth = root.descendant_count();
    let mut out: Vec<LineSpan> = Vec::new();
    collect_spans(&root, depth, &mut out);
    assert(Seq::<LineSpan>::empty() + node_spans(tree.lang(), tree.source(), Seq::empty(), depth as nat)
        =~= node_spans(tree.lang(), tree.source(), Seq::empty(), depth as nat));
    out
}

// ---------------------------------------------------------------------------
// Lines of code
// ---------------------------------------------------------------------------

/// Line `k` lies within one of the first `j` spans whose comment flag is
/// `comment`.
pub open spec fn touched(spans: Seq<LineSpan>, j: int, k: int, comment: bool) -> bool
    decreases j,
{
    if j <= 0 {
        false
    } else {
        touched(spans, j - 1, k, comment) || (spans[j - 1].is_comment == comment && spans[j
            - 1].start <= k <= spans[j - 1].end)
    }
}

/// Line `k` is code: it is not blank, and it is not touched by a comment
/// while untouched by any other node.
pub open spec fn is_code_line(blank: Seq<bool>, spans: Seq<LineSpan>, k: int) -> bool {
    !blank[k] && !(touched(spans, spans.len() as int, k, true) && !touched(
        spans,
        spans.len() as int,
        k,
        false,
    ))
}

/// The number of code lines among the first `i` lines.
pub open spec fn count_code(blank: Seq<bool>, spans: Seq<LineSpan>, i: int) -> int
    decreases i,
{
    if i <= 0 {
        0
    } else {
        count_code(blank, spans, i - 1) + if is_code_line(blank, spans, i - 1) {
            1int
        } else {
            0int
        }
    }
}

/// The lines of code of `source` given the node spans of its tree.
pub open spec fn loc_of(source: Seq<char>, spans: Seq<LineSpan>) -> int {
    count_code(blank_flags(lines(source)), spans, lines(source).len() as int)
}

/// There are never more code lines than lines looked at.
pub proof fn lemma_count_code_bounds(blank: Seq<bool>, spans: Seq<LineSpan>, i: int)
    requires
        i >= 0,
    ensures
        0 <= count_code(blank, spans, i) <= i,
    decreases i,
{
    if i > 0 {
        lemma_count_code_bounds(blank, spans, i - 1);
    }
}

/// What `loc` gives: 0 for an empty source, `TooLarge` for an oversized
/// one, and otherwise the lines of code of the parsed tree.
pub open spec fn loc_outcome(lang: Lang, source: &str, r: Result<i32, AnalyzeError>) -> bool {
    if source@.len() == 0 {
        r matches Ok(0)
    } else if byte_len(source) > MAX_SOURCE_BYTES {
        r matches Err(AnalyzeError::TooLarge(n)) && n == byte_len(source)
    } else {
        r matches Ok(n) && n == loc_of(source@, tree_spans(lang, source@))
    }
}

/// `n` flags, all false.
fn all_false(n: usize) -> (r: Vec<bool>)
    ensures
        r@.len() == n,
        forall|k: int| 0 <= k < n ==> !#[trigger] r@[k],
{
    let mut r: Vec<bool> = Vec::with_capacity(n);
    for i in 0..n
        invariant
            r@.len() == i,
            forall|k: int| 0 <= k < i ==> !#[trigger] r@[k],
    {
        r.push(false);
    }
    r
}

/// The lines of code of `source` given the line spans of its syntax tree's
/// nodes: the lines that are not blank and not touched by a comment span
/// while untouched by any other span.
pub fn count_code_lines(source: &str, spans: &Vec<LineSpan>) -> (r: i32)
    requires
        lines(source@).len() <= i32::MAX,
    ensures
        r == loc_of(source@, spans@),
{
    let chars = chars_of(source);
    let blank = line_blank_flags(chars.as_slice());
    let total = blank.len();
    // Mark every line that a comment node (or any other node) touches.
    let mut comment_line: Vec<bool> = all_false(total + 1);
    let mut has_noncomment: Vec<bool> = all_false(total + 1);
    for j in 0..spans.len()
        invariant
            total <= i32::MAX,
            comment_line@.len() == total + 1,
            has_noncomment@.len() == total + 1,
            forall|k: int|
                0 <= k <= total ==> #[trigger] comment_line@[k] == touched(spans@, j as int, k, true),
            forall|k: int|
                0 <= k <= total ==> #[trigger] has_noncomment@[k] == touched(spans@, j as int, k, false),
    {
        let sp = spans[j];
        let hi = if sp.end < total {
            sp.end
        } else {
            total
        };
        let mut line = sp.start;
        while line <= hi
            invariant
                hi <= total,
                total <= i32::MAX,
                j < spans@.len(),
                sp == spans@[j as int],
                hi == (if sp.end < total {
                    sp.end
                } else {
                    total
                }),
                line == sp.start || (sp.start <= line <= hi + 1),
                comment_line@.len() == total + 1,
                has_noncomment@.len() == total + 1,
                forall|k: int|
                    0 <= k <= total ==> #[trigger] comment_line@[k] == (touched(spans@, j as int, k, true)
                        || (sp.is_comment && sp.start <= k < line)),
                forall|k: int|
                    0 <= k <= total ==> #[trigger] has_noncomment@[k] == (touched(spans@, j as int, k, false)
                        || (!sp.is_comment && sp.start <= k < line)),
            decreases hi + 1 - line,
        {
            if sp.is_comment {
                comment_line.set(line, true);
            } else {
                has_noncomment.set(line, true);
            }
            line = line + 1;
        }
        assert forall|k: int| 0 <= k <= total implies #[trigger] comment_line@[k] == touched(
            spans@,
            j + 1,
            k,
            true,
        ) by {
            assert(touched(spans@, j + 1, k, true) == (touched(spans@, j as int, k, true) || (
            sp.is_comment && sp.start <= k <= sp.end)));
        }
        assert forall|k: int| 0 <= k <= total implies #[trigger] has_noncomment@[k] == touched(
            spans@,
            j + 1,
            k,
            false,
        ) by {
            assert(touched(spans@, j + 1, k, false) == (touched(spans@, j as int, k, false) || (
            !sp.is_comment && sp.start <= k <= sp.end)));
        }
    }
    let mut count: i32 = 0;
    for i in 0..total
        invariant
            total == blank@.len(),
            total <= i32::MAX,
            blank@ == blank_flags(lines(source@)),
            comment_line@.len() == total + 1,
            has_noncomment@.len() == total + 1,
            forall|k: int|
                0 <= k <= total ==> #[trigger] comment_line@[k] == touched(
                    spans@,
                    spans@.len() as int,
                    k,
                    true,
                ),
            forall|k: int|
                0 <= k <= total ==> #[trigger] has_noncomment@[k] == touched(spans@, spans@.len() as int, k, false),
            count == count_code(blank@, spans@, i as int),
    {
        proof {
            lemma_count_code_bounds(blank@, spans@, i as int);
        }
        // A blank line, or one a comment touches with no other token on it,
        // is not code.
        if !blank[i] && !(comment_line[i] && !has_noncomment[i]) {
            count = count + 1;
        }
    }
    count
}

/// Lines of code: non-blank lines that are not *entirely* a comment. A line
/// is comment-only when a comment node touches it and no other (leaf) node
/// does.
pub fn loc(lang: Lang, source: &str) -> (r: Result<i32, AnalyzeError>)
    ensures
        loc_outcome(lang, source, r),
        source@.len() > 0 && byte_len(source) <= MAX_SOURCE_BYTES ==> walk_reaches_all(
            lang,
            source@,
            Seq::empty(),
            ts_node_descendant_count(lang, source@, Seq::empty()) as nat,
        ),
{
    if source.is_empty() {
        return Ok(0);
    }
    let tree = match parse(lang, source) {
        Ok(t) => t,
        Err(e) => {
            return Err(e);
        },
    };
    proof {
        lemma_lines_from_len(source@, 0);
        lemma_bytes_at_least_chars(source@);
    }
    let spans = tree_line_spans(&tree);
    Ok(count_code_lines(source, &spans))
}

} // verus!
