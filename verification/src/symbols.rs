//! Structural symbols (functions, methods, classes, structs, enums,
//! interfaces, traits) from the per-language symbols query, and the count of
//! function definitions.

use vstd::prelude::*;

use crate::extract::{Capture, CaptureView, capture_lines_ok, capture_views, invalid_query_message, query_captures, run_query, symbols_query, symbols_query_text};
use crate::lang::{AnalyzeError, Lang};
use crate::parsing::{byte_len, has_substr, MAX_SOURCE_BYTES};
use crate::text::{chars_of, eq_str, string_of};
use crate::ts::ts_query_new;

verus! {

/// A structural symbol (function, class, method, struct, ...).
#[derive(Debug, Clone, PartialEq, Eq)]
pub struct Symbol {
    pub kind: String,
    pub name: String,
    /// 1-based start line.
    pub start_line: i32,
    /// 1-based end line.
    pub end_line: i32,
}

/// The spec-level value of a [`Symbol`].
pub struct SymbolView {
    pub kind: Seq<char>,
    pub name: Seq<char>,
    pub start_line: i32,
    pub end_line: i32,
}

impl View for Symbol {
    type V = SymbolView;

    open spec fn view(&self) -> SymbolView {
        SymbolView { kind: self.kind@, name: self.name@, start_line: self.start_line, end_line: self.end_line }
    }
}

/// The views of a sequence of symbols.
pub open spec fn symbol_views(v: Seq<Symbol>) -> Seq<SymbolView> {
    v.map_values(|s: Symbol| s@)
}

/// `s` ends with `suf`.
pub open spec fn ends_with(s: Seq<char>, suf: Seq<char>) -> bool {
    s.len() >= suf.len() && s.subrange(s.len() - suf.len(), s.len() as int) == suf
}

/// `s` without its last `n` characters.
pub open spec fn drop_suffix(s: Seq<char>, n: nat) -> Seq<char> {
    s.subrange(0, s.len() - n)
}

/// A definition capture waiting for its name: kind and line span.
pub type PendingDef = (Seq<char>, i32, i32);

/// One step of pairing captures into symbols. A `<kind>.def` capture becomes
/// the pending definition; a `<kind>.name` capture takes the pending
/// definition and, when it is of the same kind, makes a symbol of that kind
/// with the name's text and the definition's lines, otherwise a symbol with
/// the name's own lines. Other captures change nothing.
pub open spec fn pair_step(
    state: (Seq<SymbolView>, Option<PendingDef>),
    c: CaptureView,
) -> (Seq<SymbolView>, Option<PendingDef>) {
    let (out, pending) = state;
    if ends_with(c.capture, ".def"@) {
        (out, Some((drop_suffix(c.capture, ".def"@.len()), c.start_line, c.end_line)))
    } else if ends_with(c.capture, ".name"@) {
        let kind = drop_suffix(c.capture, ".name"@.len());
        let unpaired = (
            out.push(
                SymbolView {
                    kind,
                    name: c.text,
                    start_line: c.start_line,
                    end_line: c.end_line,
                },
            ),
            None,
        );
        match pending {
            Some(pd) => if pd.0 == kind {
                (out.push(SymbolView { kind: pd.0, name: c.text, start_line: pd.1, end_line: pd.2 }), None)
            } else {
                unpaired
            },
            None => unpaired,
        }
    } else {
        (out, pending)
    }
}

/// Pairing over a whole capture list, in order.
pub open spec fn pairing(caps: Seq<CaptureView>) -> (Seq<SymbolView>, Option<PendingDef>)
    decreases caps.len(),
{
    if caps.len() == 0 {
        (Seq::empty(), None)
    } else {
        pair_step(pairing(caps.drop_last()), caps.last())
    }
}

/// `a` comes no later than `b` by (start line, end line).
pub open spec fn line_key_le(a: SymbolView, b: SymbolView) -> bool {
    a.start_line < b.start_line || (a.start_line == b.start_line && a.end_line <= b.end_line)
}

/// `x` inserted into `s` after every element whose key is not greater.
pub open spec fn insert_by_lines(s: Seq<SymbolView>, x: SymbolView) -> Seq<SymbolView>
    decreases s.len(),
{
    if s.len() == 0 {
        seq![x]
    } else if line_key_le(s.last(), x) {
        s.push(x)
    } else {
        insert_by_lines(s.drop_last(), x).push(s.last())
    }
}

/// The stable sort of `s` by (start line, end line).
pub open spec fn sort_by_lines(s: Seq<SymbolView>) -> Seq<SymbolView>
    decreases s.len(),
{
    if s.len() == 0 {
        s
    } else {
        insert_by_lines(sort_by_lines(s.drop_last()), s.last())
    }
}

/// The symbols a capture list makes: the paired symbols, stably sorted by
/// (start line, end line).
pub open spec fn symbol_list(caps: Seq<CaptureView>) -> Seq<SymbolView> {
    sort_by_lines(pairing(caps).0)
}

/// Sorted by (start line, end line).
pub open spec fn sorted_by_lines(s: Seq<SymbolView>) -> bool {
    forall|i: int, j: int| 0 <= i < j < s.len() ==> line_key_le(#[trigger] s[i], #[trigger] s[j])
}

/// Inserting into a sorted sequence keeps it sorted.
pub proof fn lemma_insert_sorted(s: Seq<SymbolView>, x: SymbolView)
    requires
        sorted_by_lines(s),
    ensures
        sorted_by_lines(insert_by_lines(s, x)),
        insert_by_lines(s, x).len() == s.len() + 1,
        insert_by_lines(s, x).to_multiset() == s.to_multiset().insert(x),
    decreases s.len(),
{
    broadcast use vstd::seq_lib::group_seq_properties;
    if s.len() == 0 {
        assert(seq![x] =~= Seq::<SymbolView>::empty().push(x));
    } else if line_key_le(s.last(), x) {
        let r = s.push(x);
        assert forall|i: int, j: int| 0 <= i < j < r.len() implies line_key_le(
            #[trigger] r[i],
            #[trigger] r[j],
        ) by {
            if j == s.len() {
                assert(line_key_le(s[i], s.last()) || i == s.len() - 1);
            }
        }
    } else {
        let p = s.drop_last();
        assert(sorted_by_lines(p));
        lemma_insert_sorted(p, x);
        let q = insert_by_lines(p, x);
        let r = q.push(s.last());
        assert(s =~= p.push(s.last()));
        assert forall|i: int, j: int| 0 <= i < j < r.len() implies line_key_le(
            #[trigger] r[i],
            #[trigger] r[j],
        ) by {
            if j == r.len() - 1 {
                // Every element of q is an element of p (keyed no later than
                // s.last()) or x (keyed later than s.last()).
                assert(q.to_multiset().count(q[i]) > 0);
                assert(q.contains(q[i]));
                if q[i] == x {
                } else {
                    assert(p.to_multiset().insert(x).count(q[i]) > 0);
                    assert(p.to_multiset().count(q[i]) > 0);
                    assert(p.contains(q[i]));
                    let k = choose|k: int| 0 <= k < p.len() && p[k] == q[i];
                    assert(s[k] == p[k]);
                }
            }
        }
    }
}

/// The line sort is sorted and a permutation.
pub proof fn lemma_sort_by_lines(s: Seq<SymbolView>)
    ensures
        sorted_by_lines(sort_by_lines(s)),
        sort_by_lines(s).len() == s.len(),
        sort_by_lines(s).to_multiset() == s.to_multiset(),
    decreases s.len(),
{
    broadcast use vstd::seq_lib::group_seq_properties;
    if s.len() > 0 {
        lemma_sort_by_lines(s.drop_last());
        lemma_insert_sorted(sort_by_lines(s.drop_last()), s.last());
        assert(s =~= s.drop_last().push(s.last()));
    }
}

/// Every symbol's line span is 1-based and starts no later than it ends.
pub open spec fn symbol_lines_ok(s: Seq<SymbolView>) -> bool {
    forall|k: int| 0 <= k < s.len() ==> 1 <= #[trigger] s[k].start_line <= s[k].end_line
}

/// Inserting a well-spanned symbol into well-spanned symbols keeps them so.
proof fn lemma_insert_lines_ok(s: Seq<SymbolView>, x: SymbolView)
    requires
        symbol_lines_ok(s),
        1 <= x.start_line <= x.end_line,
    ensures
        symbol_lines_ok(insert_by_lines(s, x)),
    decreases s.len(),
{
    if s.len() > 0 && !line_key_le(s.last(), x) {
        let p = s.drop_last();
        lemma_insert_lines_ok(p, x);
        let q = insert_by_lines(p, x);
        let r = q.push(s.last());
        assert forall|k: int| 0 <= k < r.len() implies 1 <= #[trigger] r[k].start_line <= r[k].end_line by {
            if k < q.len() {
                assert(r[k] == q[k]);
            }
        }
    } else if s.len() > 0 {
        let r = s.push(x);
        assert forall|k: int| 0 <= k < r.len() implies 1 <= #[trigger] r[k].start_line <= r[k].end_line by {
            if k < s.len() {
                assert(r[k] == s[k]);
            }
        }
    }
}

/// Sorting well-spanned symbols keeps them so.
proof fn lemma_sort_lines_ok(s: Seq<SymbolView>)
    requires
        symbol_lines_ok(s),
    ensures
        symbol_lines_ok(sort_by_lines(s)),
    decreases s.len(),
{
    if s.len() > 0 {
        let p = s.drop_last();
        assert forall|k: int| 0 <= k < p.len() implies 1 <= #[trigger] p[k].start_line <= p[k].end_line by {
            assert(p[k] == s[k]);
        }
        lemma_sort_lines_ok(p);
        lemma_insert_lines_ok(sort_by_lines(p), s.last());
    }
}

/// A symbol's name is the text of one of the captures.
pub open spec fn name_in_captures(x: SymbolView, cv: Seq<CaptureView>) -> bool {
    exists|j: int| 0 <= j < cv.len() && x.name == #[trigger] cv[j].text
}

/// Every symbol's name is the text of one of the captures.
pub open spec fn names_from_captures(s: Seq<SymbolView>, cv: Seq<CaptureView>) -> bool {
    forall|k: int| 0 <= k < s.len() ==> name_in_captures(#[trigger] s[k], cv)
}

/// Every symbol's name is a contiguous piece of the source.
pub open spec fn names_in_source(s: Seq<SymbolView>, source: Seq<char>) -> bool {
    forall|k: int| 0 <= k < s.len() ==> has_substr(source, #[trigger] s[k].name)
}

/// Pushing at most one well-spanned symbol keeps the symbols well spanned.
proof fn lemma_pushed_lines(before: Seq<SymbolView>, after: Seq<SymbolView>)
    requires
        symbol_lines_ok(before),
        after == before || (after.len() == before.len() + 1 && after.drop_last() == before && 1
            <= after.last().start_line <= after.last().end_line),
    ensures
        symbol_lines_ok(after),
{
    assert forall|k: int| 0 <= k < after.len() implies 1 <= #[trigger] after[k].start_line
        <= after[k].end_line by {
        if k < before.len() {
            assert(after[k] == before[k]);
        } else {
            assert(after[k] == after.last());
        }
    }
}

/// Pushing at most one symbol named by capture `i` keeps every name a
/// capture's text.
proof fn lemma_pushed_names(before: Seq<SymbolView>, after: Seq<SymbolView>, cv: Seq<CaptureView>, i: int)
    requires
        names_from_captures(before, cv),
        0 <= i < cv.len(),
        after == before || (after.len() == before.len() + 1 && after.drop_last() == before
            && after.last().name == cv[i].text),
    ensures
        names_from_captures(after, cv),
{
    assert forall|k: int| 0 <= k < after.len() implies name_in_captures(#[trigger] after[k], cv) by {
        if k < before.len() {
            assert(after[k] == before[k]);
        } else {
            assert(after[k] == after.last());
        }
    }
}

/// Inserting keeps every name a capture's text.
proof fn lemma_insert_names(s: Seq<SymbolView>, x: SymbolView, cv: Seq<CaptureView>)
    requires
        names_from_captures(s, cv),
        name_in_captures(x, cv),
    ensures
        names_from_captures(insert_by_lines(s, x), cv),
    decreases s.len(),
{
    if s.len() > 0 && !line_key_le(s.last(), x) {
        let p = s.drop_last();
        assert forall|k: int| 0 <= k < p.len() implies name_in_captures(#[trigger] p[k], cv) by {
            assert(p[k] == s[k]);
        }
        lemma_insert_names(p, x, cv);
        let q = insert_by_lines(p, x);
        let r = q.push(s.last());
        assert forall|k: int| 0 <= k < r.len() implies name_in_captures(#[trigger] r[k], cv) by {
            if k < q.len() {
                assert(r[k] == q[k]);
            } else {
                assert(r[k] == s[s.len() - 1]);
            }
        }
    } else if s.len() > 0 {
        let r = s.push(x);
        assert forall|k: int| 0 <= k < r.len() implies name_in_captures(#[trigger] r[k], cv) by {
            if k < s.len() {
                assert(r[k] == s[k]);
            }
        }
    } else {
        assert(seq![x][0] == x);
    }
}

/// Sorting keeps every name a capture's text.
proof fn lemma_sort_names(s: Seq<SymbolView>, cv: Seq<CaptureView>)
    requires
        names_from_captures(s, cv),
    ensures
        names_from_captures(sort_by_lines(s), cv),
    decreases s.len(),
{
    if s.len() > 0 {
        let p = s.drop_last();
        assert forall|k: int| 0 <= k < p.len() implies name_in_captures(#[trigger] p[k], cv) by {
            assert(p[k] == s[k]);
        }
        lemma_sort_names(p, cv);
        assert(name_in_captures(s[s.len() - 1], cv));
        lemma_insert_names(sort_by_lines(p), s.last(), cv);
    }
}

/// Where every element from `p` on is keyed later than `x` and the one
/// before (if any) is not, `insert_by_lines` puts `x` at `p`.
proof fn lemma_insert_at(s: Seq<SymbolView>, x: SymbolView, p: int)
    requires
        0 <= p <= s.len(),
        forall|k: int| p <= k < s.len() ==> !line_key_le(#[trigger] s[k], x),
        p == 0 || line_key_le(s[p - 1], x),
    ensures
        insert_by_lines(s, x) == s.insert(p, x),
    decreases s.len() - p,
{
    if p == s.len() {
        if s.len() == 0 {
            assert(s.insert(p, x) =~= seq![x]);
        } else {
            assert(s.insert(p, x) =~= s.push(x));
        }
    } else {
        let q = s.drop_last();
        assert(!line_key_le(s.last(), x));
        lemma_insert_at(q, x, p);
        assert(q.insert(p, x).push(s.last()) =~= s.insert(p, x));
    }
}

/// A copy of a symbol.
fn copy_symbol(s: &Symbol) -> (r: Symbol)
    ensures
        r@ == s@,
{
    Symbol { kind: s.kind.clone(), name: s.name.clone(), start_line: s.start_line, end_line: s.end_line }
}

/// `a` comes no later than `b` by (start line, end line).
fn key_le(a: &Symbol, b: &Symbol) -> (r: bool)
    ensures
        r == line_key_le(a@, b@),
{
    a.start_line < b.start_line || (a.start_line == b.start_line && a.end_line <= b.end_line)
}

/// Stable sort of `v` by (start line, end line).
fn sort_symbols_by_lines(v: &Vec<Symbol>) -> (r: Vec<Symbol>)
    ensures
        symbol_views(r@) == sort_by_lines(symbol_views(v@)),
{
    let mut res: Vec<Symbol> = Vec::new();
    for i in 0..v.len()
        invariant
            symbol_views(res@) == sort_by_lines(symbol_views(v@).take(i as int)),
    {
        let x = copy_symbol(&v[i]);
        let mut p = res.len();
        while p > 0 && !key_le(&res[p - 1], &x)
            invariant
                p <= res@.len(),
                forall|k: int| p <= k < res@.len() ==> !line_key_le(#[trigger] res@[k]@, x@),
            decreases p,
        {
            p = p - 1;
        }
        proof {
            let sv = symbol_views(res@);
            assert forall|k: int| p <= k < sv.len() implies !line_key_le(#[trigger] sv[k], x@) by {
                assert(sv[k] == res@[k]@);
            }
            if p > 0 {
                assert(sv[p - 1] == res@[p - 1]@);
            }
            lemma_insert_at(sv, x@, p as int);
            let t = symbol_views(v@).take(i + 1);
            assert(t.drop_last() =~= symbol_views(v@).take(i as int));
            assert(t.last() == x@);
        }
        let ghost before = res@;
        res.insert(p, x);
        assert(symbol_views(res@) =~= symbol_views(before).insert(p as int, x@));
    }
    assert(symbol_views(v@).take(v@.len() as int) =~= symbol_views(v@));
    res
}

/// Whether the characters of `v` end with `suf`.
fn ends_with_str(v: &[char], suf: &str) -> (r: bool)
    ensures
        r == ends_with(v@, suf@),
{
    let s = chars_of(suf);
    let m = s.len();
    let n = v.len();
    if m > n {
        return false;
    }
    for i in 0..m
        invariant
            m <= n,
            n == v@.len(),
            s@ == suf@,
            m == s@.len(),
            forall|k: int| 0 <= k < i ==> v@[n - m + k] == s@[k],
    {
        if v[n - m + i] != s[i] {
            assert(v@.subrange(n - m, n as int)[i as int] != suf@[i as int]);
            return false;
        }
    }
    assert(v@.subrange(n - m, n as int) =~= suf@);
    true
}

/// The first `n` characters of `v` as a `String`.
fn prefix_string(v: &[char], n: usize) -> (r: String)
    requires
        n <= v@.len(),
    ensures
        r@ == v@.subrange(0, n as int),
{
    let mut w: Vec<char> = Vec::new();
    for i in 0..n
        invariant
            n <= v@.len(),
            w@ == v@.subrange(0, i as int),
    {
        w.push(v[i]);
        assert(w@ =~= v@.subrange(0, i + 1));
    }
    string_of(&w)
}

/// Pair the `.def` / `.name` captures of the symbols query into symbols, and
/// order them by (start line, end line), stably.
pub fn symbols_from_captures(caps: &Vec<Capture>) -> (r: Vec<Symbol>)
    ensures
        symbol_views(r@) == symbol_list(capture_views(caps@)),
        sorted_by_lines(symbol_views(r@)),
        capture_lines_ok(capture_views(caps@)) ==> symbol_lines_ok(symbol_views(r@)),
        names_from_captures(symbol_views(r@), capture_views(caps@)),
{
    let mut out: Vec<Symbol> = Vec::new();
    let mut pending: Option<(String, i32, i32)> = None;
    let ghost cv = capture_views(caps@);
    for i in 0..caps.len()
        invariant
            cv == capture_views(caps@),
            pairing(cv.take(i as int)) == (
                symbol_views(out@),
                match pending {
                    Some(p) => Some((p.0@, p.1, p.2)),
                    None => None::<PendingDef>,
                },
            ),
            capture_lines_ok(cv) ==> symbol_lines_ok(symbol_views(out@)),
            capture_lines_ok(cv) ==> (pending matches Some(p) ==> 1 <= p.1 <= p.2),
            names_from_captures(symbol_views(out@), cv),
    {
        let c = &caps[i];
        let name = chars_of(c.capture.as_str());
        let ghost prev_out = out@;
        let ghost prev_pending = pending;
        proof {
            let t = cv.take(i + 1);
            assert(t.drop_last() =~= cv.take(i as int));
            assert(t.last() == c@);
            assert(cv[i as int] == c@);
            assert(capture_lines_ok(cv) ==> 1 <= c.start_line <= c.end_line);
        }
        if ends_with_str(name.as_slice(), ".def") {
            proof {
                reveal_strlit(".def");
            }
            let kind = prefix_string(name.as_slice(), name.len() - 4);
            pending = Some((kind, c.start_line, c.end_line));
        } else if ends_with_str(name.as_slice(), ".name") {
            proof {
                reveal_strlit(".name");
            }
            let kind = prefix_string(name.as_slice(), name.len() - 5);
            let taken = pending;
            pending = None;
            match taken {
                Some((pkind, start, end)) => {
                    if pkind == kind {
                        out.push(Symbol { kind: pkind, name: c.text.clone(), start_line: start, end_line: end });
                    } else {
                        out.push(Symbol { kind, name: c.text.clone(), start_line: c.start_line, end_line: c.end_line });
                    }
                },
                None => {
                    out.push(Symbol { kind, name: c.text.clone(), start_line: c.start_line, end_line: c.end_line });
                },
            }
            assert(symbol_views(out@) =~= symbol_views(prev_out).push(out@.last()@));
            assert(symbol_views(out@).drop_last() =~= symbol_views(prev_out));
            assert(symbol_views(out@).last().name == c.text@);
            assert(capture_lines_ok(cv) ==> 1 <= symbol_views(out@).last().start_line
                <= symbol_views(out@).last().end_line);
        }
        proof {
            if capture_lines_ok(cv) {
                lemma_pushed_lines(symbol_views(prev_out), symbol_views(out@));
            }
            lemma_pushed_names(symbol_views(prev_out), symbol_views(out@), cv, i as int);
        }
    }
    assert(cv.take(caps@.len() as int) =~= cv);
    let r = sort_symbols_by_lines(&out);
    proof {
        lemma_sort_by_lines(symbol_views(out@));
        lemma_sort_names(symbol_views(out@), cv);
        if capture_lines_ok(cv) {
            lemma_sort_lines_ok(symbol_views(out@));
        }
    }
    r
}

/// What `symbols` gives: no symbols for an empty source; otherwise
/// `TooLarge` for an oversized source, a `Parse` error for a symbols query
/// the grammar refuses, and else the symbols the symbols query's captures
/// make.
pub open spec fn symbols_outcome(lang: Lang, source: &str, r: Result<Vec<Symbol>, AnalyzeError>) -> bool {
    let q = symbols_query_text(lang);
    if source@.len() == 0 {
        r matches Ok(v) && v@.len() == 0
    } else if byte_len(source) > MAX_SOURCE_BYTES {
        r matches Err(AnalyzeError::TooLarge(n)) && n == byte_len(source)
    } else if ts_query_new(lang, q) is Err {
        r matches Err(AnalyzeError::Parse(x)) && x@ == invalid_query_message(ts_query_new(lang, q)->Err_0)
    } else {
        r matches Ok(v) && symbol_views(v@) == symbol_list(query_captures(lang, source@, q))
    }
}

/// Extract structural symbols (functions, methods, classes, structs, enums,
/// interfaces, traits) using the per-language symbols query.
pub fn symbols(lang: Lang, source: &str) -> (r: Result<Vec<Symbol>, AnalyzeError>)
    ensures
        symbols_outcome(lang, source, r),
        r matches Ok(v) ==> sorted_by_lines(symbol_views(v@)),
        r matches Ok(v) ==> symbol_lines_ok(symbol_views(v@)),
        r matches Ok(v) ==> names_in_source(symbol_views(v@), source@),
        symbols_query_text(lang).len() == 0 ==> (r matches Ok(v) ==> v@.len() == 0),
{
    if source.is_empty() {
        return Ok(Vec::new());
    }
    let caps = match run_query(lang, source, symbols_query(lang)) {
        Ok(c) => c,
        Err(e) => {
            return Err(e);
        },
    };
    let r = symbols_from_captures(&caps);
    proof {
        let sv = symbol_views(r@);
        let cv = capture_views(caps@);
        assert forall|k: int| 0 <= k < sv.len() implies has_substr(source@, #[trigger] sv[k].name) by {
            assert(name_in_captures(sv[k], cv));
            let j = choose|j: int| 0 <= j < cv.len() && sv[k].name == #[trigger] cv[j].text;
        }
        if symbols_query_text(lang).len() == 0 {
            lemma_sort_by_lines(pairing(capture_views(caps@)).0);
            assert(capture_views(caps@) =~= Seq::<CaptureView>::empty());
            assert(pairing(capture_views(caps@)).0.len() == 0);
        }
    }
    Ok(r)
}

/// Whether a symbol kind is a function-like definition.
pub open spec fn is_function_kind(kind: Seq<char>) -> bool {
    kind == "function"@ || kind == "method"@
}

/// The number of function-like symbols.
pub open spec fn count_function_symbols(s: Seq<SymbolView>) -> nat
    decreases s.len(),
{
    if s.len() == 0 {
        0
    } else {
        count_function_symbols(s.drop_last()) + if is_function_kind(s.last().kind) {
            1nat
        } else {
            0nat
        }
    }
}

/// There are at most as many function symbols as symbols.
pub proof fn lemma_count_function_symbols_le(s: Seq<SymbolView>)
    ensures
        count_function_symbols(s) <= s.len(),
    decreases s.len(),
{
    if s.len() > 0 {
        lemma_count_function_symbols_le(s.drop_last());
    }
}

/// Whether `symbols` fails for a source.
pub open spec fn symbols_fail(lang: Lang, source: &str) -> bool {
    source@.len() > 0 && (byte_len(source) > MAX_SOURCE_BYTES || ts_query_new(
        lang,
        symbols_query_text(lang),
    ) is Err)
}

/// The symbols `symbols` gives for a source (none where it fails).
pub open spec fn symbols_or_none(lang: Lang, source: &str) -> Seq<SymbolView> {
    if source@.len() == 0 || symbols_fail(lang, source) {
        Seq::empty()
    } else {
        symbol_list(query_captures(lang, source@, symbols_query_text(lang)))
    }
}

/// Count function-like definitions. Built on the symbols query, filtered to the
/// function/method kinds; a failed analysis counts none.
pub fn count_functions(lang: Lang, source: &str) -> (r: i32)
    ensures
        r == count_function_symbols(symbols_or_none(lang, source)) as i32,
        lang == Lang::Json ==> r == 0,
{
    proof {
        // JSON has no symbols query.
        reveal_strlit("");
    }
    let syms = match symbols(lang, source) {
        Ok(s) => s,
        Err(_) => Vec::new(),
    };
    let mut count: usize = 0;
    for i in 0..syms.len()
        invariant
            count == count_function_symbols(symbol_views(syms@).take(i as int)),
            count <= i,
            lang == Lang::Json ==> syms@.len() == 0,
    {
        let k = chars_of(syms[i].kind.as_str());
        proof {
            let t = symbol_views(syms@).take(i + 1);
            assert(t.drop_last() =~= symbol_views(syms@).take(i as int));
            lemma_count_function_symbols_le(symbol_views(syms@).take(i as int));
        }
        if eq_str(k.as_slice(), "function") || eq_str(k.as_slice(), "method") {
            count = count + 1;
        }
    }
    assert(symbol_views(syms@).take(syms@.len() as int) =~= symbol_views(syms@));
    count as i32
}

} // verus!
