//! Short-Key JSON protocol: framing of candidate JSON texts in model output.
//!
//! The model answers with Short-Key actions (`t`, `a`, `i`, `f`, `c`), either
//! in fenced ```json blocks, as the whole reply, or embedded in prose. This
//! module finds the candidate texts, repairs literal newlines inside string
//! values, and lays out the exact order in which candidates are tried.

use vstd::prelude::*;
use crate::text::{
    byte_len, chars_of, char_index_at_byte, is_boundary, lemma_char_pos_unique, push_char,
    slice_chars, string_of, to_owned, trim, trim_seq, views,
};

verus! {

// ---------------------------------------------------------------------------
// JSON string lexer
// ---------------------------------------------------------------------------

/// Lexer step: `(in_string, escape)` after reading `c`.
pub open spec fn lex_step(st: (bool, bool), c: char) -> (bool, bool) {
    if st.0 {
        if st.1 {
            (true, false)
        } else if c == '\\' {
            (true, true)
        } else if c == '"' {
            (false, false)
        } else {
            (true, false)
        }
    } else {
        (c == '"', false)
    }
}

/// `(in_string, escape)` after reading all of `s` from outside any string.
pub open spec fn lex_after(s: Seq<char>) -> (bool, bool)
    decreases s.len(),
{
    if s.len() == 0 {
        (false, false)
    } else {
        lex_step(lex_after(s.drop_last()), s.last())
    }
}

/// What a character becomes when newlines inside strings are escaped.
pub open spec fn escape_piece(st: (bool, bool), c: char) -> Seq<char> {
    if st.0 && !st.1 && c == '\n' {
        seq!['\\', 'n']
    } else if st.0 && !st.1 && c == '\r' {
        seq!['\\', 'r']
    } else {
        seq![c]
    }
}

/// `s` with every line feed and carriage return that stands inside a JSON
/// string literal (and not right after a backslash) written as `\n` / `\r`.
pub open spec fn escape_newlines(s: Seq<char>) -> Seq<char>
    decreases s.len(),
{
    if s.len() == 0 {
        Seq::empty()
    } else {
        escape_newlines(s.drop_last()) + escape_piece(lex_after(s.drop_last()), s.last())
    }
}

/// Convert invalid JSON containing literal newlines inside string values into valid JSON.
///
/// Only escapes `\n`/`\r` when inside a JSON string literal.
pub fn escape_unescaped_newlines_in_json_strings(input: &str) -> (r: String)
    ensures
        r@ == escape_newlines(input@),
{
    let v = chars_of(input);
    let mut out = String::new();
    let mut in_string = false;
    let mut escape = false;
    let mut i: usize = 0;
    while i < v.len()
        invariant
            i <= v.len(),
            (in_string, escape) == lex_after(v@.take(i as int)),
            out@ == escape_newlines(v@.take(i as int)),
        decreases v.len() - i,
    {
        let ch = v[i];
        assert(v@.take(i + 1).drop_last() =~= v@.take(i as int));
        assert(v@.take(i + 1).last() == ch);
        if in_string {
            if escape {
                push_char(&mut out, ch);
                escape = false;
            } else if ch == '\\' {
                push_char(&mut out, ch);
                escape = true;
            } else if ch == '"' {
                push_char(&mut out, ch);
                in_string = false;
            } else if ch == '\n' {
                push_char(&mut out, '\\');
                push_char(&mut out, 'n');
            } else if ch == '\r' {
                push_char(&mut out, '\\');
                push_char(&mut out, 'r');
            } else {
                push_char(&mut out, ch);
            }
        } else {
            push_char(&mut out, ch);
            if ch == '"' {
                in_string = true;
            }
        }
        assert(out@ =~= escape_newlines(v@.take(i + 1)));
        i += 1;
    }
    assert(v@.take(v.len() as int) =~= v@);
    out
}

proof fn lemma_lex_outside_without_quotes(s: Seq<char>)
    requires
        !s.contains('"'),
    ensures
        lex_after(s) == (false, false),
    decreases s.len(),
{
    if s.len() > 0 {
        assert(!s.drop_last().contains('"')) by {
            if s.drop_last().contains('"') {
                let k = choose|k: int| 0 <= k < s.drop_last().len() && s.drop_last()[k] == '"';
                assert(s[k] == '"');
            }
        }
        lemma_lex_outside_without_quotes(s.drop_last());
        assert(s[s.len() - 1] == s.last());
    }
}

/// Text without any string literal is left as it is by the repair.
pub proof fn lemma_escape_without_quotes(s: Seq<char>)
    requires
        !s.contains('"'),
    ensures
        escape_newlines(s) == s,
    decreases s.len(),
{
    if s.len() > 0 {
        assert(!s.drop_last().contains('"')) by {
            if s.drop_last().contains('"') {
                let k = choose|k: int| 0 <= k < s.drop_last().len() && s.drop_last()[k] == '"';
                assert(s[k] == '"');
            }
        }
        lemma_escape_without_quotes(s.drop_last());
        lemma_lex_outside_without_quotes(s.drop_last());
        assert(s =~= s.drop_last() + seq![s.last()]);
    }
}

/// The repair from a lexer state on: each character of `b` in turn.
pub open spec fn escape_from(st: (bool, bool), b: Seq<char>) -> Seq<char>
    decreases b.len(),
{
    if b.len() == 0 {
        Seq::empty()
    } else {
        escape_from(st, b.drop_last()) + escape_piece(lex_from(st, b.drop_last()), b.last())
    }
}

/// The lexer state after reading `b` from state `st`.
pub open spec fn lex_from(st: (bool, bool), b: Seq<char>) -> (bool, bool)
    decreases b.len(),
{
    if b.len() == 0 {
        st
    } else {
        lex_step(lex_from(st, b.drop_last()), b.last())
    }
}

proof fn lemma_lex_concat(a: Seq<char>, b: Seq<char>)
    ensures
        lex_after(a + b) == lex_from(lex_after(a), b),
        escape_newlines(a + b) == escape_newlines(a) + escape_from(lex_after(a), b),
    decreases b.len(),
{
    if b.len() == 0 {
        assert(a + b =~= a);
    } else {
        lemma_lex_concat(a, b.drop_last());
        assert((a + b).drop_last() =~= a + b.drop_last());
        assert((a + b).last() == b.last());
    }
}

proof fn lemma_lex_from_concat(st: (bool, bool), a: Seq<char>, b: Seq<char>)
    ensures
        lex_from(st, a + b) == lex_from(lex_from(st, a), b),
        escape_from(st, a + b) == escape_from(st, a) + escape_from(lex_from(st, a), b),
    decreases b.len(),
{
    if b.len() == 0 {
        assert(a + b =~= a);
    } else {
        lemma_lex_from_concat(st, a, b.drop_last());
        assert((a + b).drop_last() =~= a + b.drop_last());
        assert((a + b).last() == b.last());
    }
}

proof fn lemma_escape_piece_stable(st: (bool, bool), c: char)
    ensures
        lex_from(st, escape_piece(st, c)) == lex_step(st, c),
        escape_from(st, escape_piece(st, c)) == escape_piece(st, c),
{
    let p = escape_piece(st, c);
    let e = Seq::<char>::empty();
    if st.0 && !st.1 && (c == '\n' || c == '\r') {
        let q = if c == '\n' {
            'n'
        } else {
            'r'
        };
        assert(p =~= seq!['\\', q]);
        let one = seq!['\\'];
        assert(p.drop_last() =~= one);
        assert(one.drop_last() =~= e);
        assert(lex_from(st, one) == lex_step(lex_from(st, e), '\\'));
        assert(lex_from(st, one) == (true, true));
        assert(lex_from(st, p) == lex_step(lex_from(st, one), q));
        assert(escape_from(st, one) == escape_from(st, e) + escape_piece(lex_from(st, e), '\\'));
        assert(escape_from(st, one) =~= one);
        assert(escape_from(st, p) == escape_from(st, one) + escape_piece(lex_from(st, one), q));
        assert(escape_from(st, p) =~= p);
    } else {
        assert(p =~= seq![c]);
        assert(p.drop_last() =~= e);
        assert(lex_from(st, p) == lex_step(lex_from(st, e), c));
        assert(escape_from(st, p) == escape_from(st, e) + escape_piece(lex_from(st, e), c));
        assert(escape_from(st, p) =~= p);
    }
}

proof fn lemma_escape_stable(s: Seq<char>)
    ensures
        lex_after(escape_newlines(s)) == lex_after(s),
        escape_newlines(escape_newlines(s)) == escape_newlines(s),
    decreases s.len(),
{
    if s.len() > 0 {
        let init = s.drop_last();
        let c = s.last();
        lemma_escape_stable(init);
        let e = escape_newlines(init);
        let st = lex_after(init);
        let p = escape_piece(st, c);
        lemma_lex_concat(e, p);
        lemma_escape_piece_stable(st, c);
    }
}

/// Repairing twice is repairing once: the repaired text has no literal line
/// break left inside a string.
pub proof fn lemma_escape_idempotent(s: Seq<char>)
    ensures
        escape_newlines(escape_newlines(s)) == escape_newlines(s),
{
    lemma_escape_stable(s);
}


// ---------------------------------------------------------------------------
// Balanced top-level structures
// ---------------------------------------------------------------------------

/// Scanner state: `(lexer, brace depth, bracket depth, start of the open structure)`.
pub type ScanState = ((bool, bool), int, int, Option<int>);

/// Where a structure closing at position `i` (reading `c`) started, if one does.
pub open spec fn closes_at(st: ScanState, c: char) -> Option<int> {
    if !st.0.0 && ((c == '}' && st.1 == 1 && st.2 == 0) || (c == ']' && st.2 == 1 && st.1 == 0)) {
        st.3
    } else {
        None
    }
}

/// Scanner step at position `i` reading `c`.
pub open spec fn scan_step(st: ScanState, c: char, i: int) -> ScanState {
    if st.0.0 {
        (lex_step(st.0, c), st.1, st.2, st.3)
    } else if c == '"' {
        ((true, false), st.1, st.2, st.3)
    } else if c == '{' {
        ((false, false), st.1 + 1, st.2, if st.1 == 0 && st.2 == 0 { Some(i) } else { st.3 })
    } else if c == '[' {
        ((false, false), st.1, st.2 + 1, if st.1 == 0 && st.2 == 0 { Some(i) } else { st.3 })
    } else if c == '}' && st.1 > 0 {
        ((false, false), st.1 - 1, st.2, if st.1 == 1 && st.2 == 0 { None } else { st.3 })
    } else if c == ']' && st.2 > 0 {
        ((false, false), st.1, st.2 - 1, if st.2 == 1 && st.1 == 0 { None } else { st.3 })
    } else {
        ((false, false), st.1, st.2, st.3)
    }
}

/// Scanner state after reading all of `s`.
pub open spec fn scan_after(s: Seq<char>) -> ScanState
    decreases s.len(),
{
    if s.len() == 0 {
        ((false, false), 0, 0, None)
    } else {
        scan_step(scan_after(s.drop_last()), s.last(), s.len() - 1)
    }
}

/// Top-level `{ ... }` / `[ ... ]` spans of `s`, in order, found by brace and
/// bracket balancing that ignores characters inside JSON strings.
pub open spec fn balanced_structures(s: Seq<char>) -> Seq<Seq<char>>
    decreases s.len(),
{
    if s.len() == 0 {
        Seq::empty()
    } else {
        let prev = s.drop_last();
        match closes_at(scan_after(prev), s.last()) {
            Some(start) => balanced_structures(prev).push(s.subrange(start, s.len() as int)),
            None => balanced_structures(prev),
        }
    }
}

proof fn lemma_scan_start_bounds(s: Seq<char>)
    ensures
        scan_after(s).1 >= 0,
        scan_after(s).2 >= 0,
        scan_after(s).1 + scan_after(s).2 <= s.len(),
        scan_after(s).3 matches Some(st) ==> 0 <= st < s.len(),
        (scan_after(s).1 > 0 || scan_after(s).2 > 0) ==> scan_after(s).3 is Some,
        !(scan_after(s).1 > 0 || scan_after(s).2 > 0) ==> scan_after(s).3 is None,
        scan_after(s).0.1 ==> scan_after(s).0.0,
    decreases s.len(),
{
    if s.len() > 0 {
        lemma_scan_start_bounds(s.drop_last());
    }
}

proof fn lemma_scan_start_char(s: Seq<char>)
    ensures
        scan_after(s).3 matches Some(st) ==> (s[st] == '{' || s[st] == '['),
    decreases s.len(),
{
    if s.len() > 0 {
        let prev = s.drop_last();
        lemma_scan_start_char(prev);
        lemma_scan_start_bounds(prev);
        if scan_after(prev).3 is Some {
            let st = scan_after(prev).3->0;
            assert(prev[st] == s[st]);
        }
    }
}

/// A law of the extraction: every candidate is a span of the content that
/// opens with `{` or `[` and closes with `}` or `]`.
pub proof fn lemma_structures_delimited(s: Seq<char>)
    ensures
        forall|k: int|
            0 <= k < balanced_structures(s).len() ==> {
                let t = #[trigger] balanced_structures(s)[k];
                &&& t.len() >= 2
                &&& (t[0] == '{' || t[0] == '[')
                &&& (t[t.len() - 1] == '}' || t[t.len() - 1] == ']')
                &&& exists|a: int, b: int| 0 <= a < b <= s.len() && t == s.subrange(a, b)
            },
    decreases s.len(),
{
    if s.len() > 0 {
        let prev = s.drop_last();
        lemma_structures_delimited(prev);
        let st = scan_after(prev);
        lemma_scan_start_char(prev);
        lemma_scan_start_bounds(prev);
        assert forall|k: int| 0 <= k < balanced_structures(prev).len() implies {
            let t = #[trigger] balanced_structures(prev)[k];
            exists|a: int, b: int| 0 <= a < b <= s.len() && t == s.subrange(a, b)
        } by {
            let t = balanced_structures(prev)[k];
            let (a, b) = choose|a: int, b: int| 0 <= a < b <= prev.len() && t == prev.subrange(a, b);
            assert(t =~= s.subrange(a, b));
        }
        match closes_at(st, s.last()) {
            Some(start) => {
                let t = s.subrange(start, s.len() as int);
                assert(t[0] == prev[start]);
                assert(t[t.len() - 1] == s.last());
                assert(balanced_structures(s) == balanced_structures(prev).push(t));
            },
            None => {},
        }
    }
}

/// `s` ends at top level: outside any string and with no structure open.
pub open spec fn at_top_level(s: Seq<char>) -> bool {
    scan_after(s) == ((false, false), 0int, 0int, None::<int>)
}

/// A scanner state read from offset `a` on: the start position moved back by `a`.
spec fn shift_start(st: ScanState, a: int) -> ScanState {
    (st.0, st.1, st.2, match st.3 {
        Some(x) => Some(x - a),
        None => None,
    })
}

/// Where an open structure starts, the scan stood at top level.
proof fn lemma_start_origin(s: Seq<char>, m: int)
    requires
        0 <= m <= s.len(),
    ensures
        scan_after(s.take(m)).3 matches Some(x) ==> 0 <= x < m && at_top_level(s.take(x)),
    decreases m,
{
    if m > 0 {
        let p = s.take(m - 1);
        assert(s.take(m).drop_last() =~= p);
        assert(s.take(m).last() == s[m - 1]);
        lemma_start_origin(s, m - 1);
        lemma_scan_start_bounds(p);
    }
}

/// Scanning from a top-level offset `a` gives the states of scanning the
/// whole text, with the start position moved back by `a`.
proof fn lemma_scan_shift_state(s: Seq<char>, a: int, m: int)
    requires
        0 <= a <= m <= s.len(),
        at_top_level(s.take(a)),
    ensures
        scan_after(s.subrange(a, m)) == shift_start(scan_after(s.take(m)), a),
    decreases m - a,
{
    if m == a {
        assert(s.subrange(a, m) =~= Seq::<char>::empty());
    } else {
        lemma_scan_shift_state(s, a, m - 1);
        let u = s.subrange(a, m);
        let w = s.take(m);
        assert(u.drop_last() =~= s.subrange(a, m - 1));
        assert(u.last() == s[m - 1]);
        assert(w.drop_last() =~= s.take(m - 1));
        assert(w.last() == s[m - 1]);
    }
}

/// The candidates found after a top-level offset `a` are those of the rest.
#[verifier::rlimit(30)]
proof fn lemma_scan_shift(s: Seq<char>, a: int, m: int)
    requires
        0 <= a <= m <= s.len(),
        at_top_level(s.take(a)),
    ensures
        balanced_structures(s.take(m)) == balanced_structures(s.take(a)) + balanced_structures(
            s.subrange(a, m),
        ),
    decreases m - a,
{
    if m == a {
        assert(s.subrange(a, m) =~= Seq::<char>::empty());
        assert(balanced_structures(s.take(a)) + Seq::<Seq<char>>::empty() =~= balanced_structures(
            s.take(a),
        ));
    } else {
        lemma_scan_shift(s, a, m - 1);
        lemma_scan_shift_state(s, a, m - 1);
        let u = s.subrange(a, m);
        let w = s.take(m);
        assert(u.drop_last() =~= s.subrange(a, m - 1));
        assert(u.last() == s[m - 1]);
        assert(w.drop_last() =~= s.take(m - 1));
        assert(w.last() == s[m - 1]);
        let x = scan_after(s.take(m - 1));
        let y = scan_after(s.subrange(a, m - 1));
        let c = s[m - 1];
        assert(balanced_structures(w) == match closes_at(x, c) {
            Some(b) => balanced_structures(s.take(m - 1)).push(w.subrange(b, m)),
            None => balanced_structures(s.take(m - 1)),
        });
        assert(balanced_structures(u) == match closes_at(y, c) {
            Some(b) => balanced_structures(s.subrange(a, m - 1)).push(u.subrange(b, m - a)),
            None => balanced_structures(s.subrange(a, m - 1)),
        });
        match closes_at(x, c) {
            Some(b) => {
                lemma_scan_start_bounds(s.subrange(a, m - 1));
                assert(closes_at(y, c) == Some(b - a));
                assert(0 <= b - a);
                assert(w.subrange(b, m) =~= u.subrange(b - a, m - a));
                assert(balanced_structures(w) =~= balanced_structures(s.take(a))
                    + balanced_structures(u));
            },
            None => {
                assert(closes_at(y, c) is None);
            },
        }
    }
}

/// Once a candidate has been found, a structure open at position 0 cannot be.
proof fn lemma_open_at_start(w: Seq<char>)
    ensures
        scan_after(w).3 == Some(0int) ==> balanced_structures(w).len() == 0,
        balanced_structures(w).len() > 0 ==> !(scan_after(w).3 == Some(0int)),
    decreases w.len(),
{
    if w.len() > 0 {
        lemma_open_at_start(w.drop_last());
    }
}

/// A law of the extraction: each candidate is one whole top-level structure.
/// Extracting from a candidate alone gives back exactly that candidate, so no
/// candidate starts inside another structure or stops before its own end.
pub proof fn lemma_structures_whole(s: Seq<char>)
    ensures
        forall|k: int|
            0 <= k < balanced_structures(s).len() ==> balanced_structures(
                #[trigger] balanced_structures(s)[k],
            ) == seq![balanced_structures(s)[k]],
    decreases s.len(),
{
    if s.len() > 0 {
        let prev = s.drop_last();
        lemma_structures_whole(prev);
        let st = scan_after(prev);
        match closes_at(st, s.last()) {
            Some(x) => {
                let n = prev.len() as int;
                assert(s.take(n) =~= prev);
                lemma_start_origin(s, n);
                lemma_scan_shift_state(s, x, n);
                let u = s.subrange(x, s.len() as int);
                assert(u.drop_last() =~= s.subrange(x, n));
                assert(u.last() == s.last());
                lemma_open_at_start(u.drop_last());
                assert(u.subrange(0, u.len() as int) =~= u);
                assert(balanced_structures(u.drop_last()) =~= Seq::<Seq<char>>::empty());
                assert(balanced_structures(u) =~= seq![u]);
                assert(balanced_structures(s) == balanced_structures(prev).push(u));
                assert forall|k: int| 0 <= k < balanced_structures(s).len() implies balanced_structures(
                    #[trigger] balanced_structures(s)[k],
                ) == seq![balanced_structures(s)[k]] by {
                    if k < balanced_structures(prev).len() {
                        assert(balanced_structures(s)[k] == balanced_structures(prev)[k]);
                    }
                }
            },
            None => {},
        }
    }
}

/// A law of the extraction: text that ends at top level splits it. The
/// candidates of `p + q` are those of `p` followed by those of `q`.
pub proof fn lemma_structures_concat(p: Seq<char>, q: Seq<char>)
    requires
        at_top_level(p),
    ensures
        balanced_structures(p + q) == balanced_structures(p) + balanced_structures(q),
{
    let s = p + q;
    assert(s.take(p.len() as int) =~= p);
    assert(s.subrange(p.len() as int, s.len() as int) =~= q);
    assert(s.take(s.len() as int) =~= s);
    lemma_scan_shift(s, p.len() as int, s.len() as int);
}

/// Prose without `{`, `[` or `"` ends at top level and holds no candidate.
proof fn lemma_prose_top_level(p: Seq<char>)
    requires
        forall|i: int| 0 <= i < p.len() ==> p[i] != '{' && p[i] != '[' && p[i] != '"',
    ensures
        at_top_level(p),
        balanced_structures(p).len() == 0,
    decreases p.len(),
{
    if p.len() > 0 {
        lemma_prose_top_level(p.drop_last());
    }
}

/// A law of the extraction: prose before a structure changes nothing. When
/// `p` holds no `{`, `[` or `"`, the candidates of `p + q` are those of `q`;
/// for `q` a candidate (a whole structure), that is `q` alone.
pub proof fn lemma_prose_then_structures(p: Seq<char>, q: Seq<char>)
    requires
        forall|i: int| 0 <= i < p.len() ==> p[i] != '{' && p[i] != '[' && p[i] != '"',
    ensures
        balanced_structures(p + q) == balanced_structures(q),
{
    lemma_prose_top_level(p);
    lemma_structures_concat(p, q);
    assert(balanced_structures(p) + balanced_structures(q) =~= balanced_structures(q));
}

/// `q` is one balanced structure: it opens with `{` or `[` and the scan
/// first comes back to top level at its last character.
pub open spec fn one_structure(q: Seq<char>) -> bool {
    &&& q.len() > 0
    &&& (q[0] == '{' || q[0] == '[')
    &&& at_top_level(q)
    &&& forall|j: int| 0 < j < q.len() ==> !at_top_level(#[trigger] q.take(j))
}

proof fn lemma_one_structure_open(q: Seq<char>, j: int)
    requires
        one_structure(q),
        1 <= j < q.len(),
    ensures
        scan_after(q.take(j)).3 == Some(0int),
    decreases j,
{
    let w = q.take(j);
    assert(w.drop_last() =~= q.take(j - 1));
    assert(w.last() == q[j - 1]);
    if j == 1 {
        assert(q.take(0) =~= Seq::<char>::empty());
    } else {
        lemma_one_structure_open(q, j - 1);
        lemma_scan_start_bounds(q.take(j - 1));
        lemma_scan_start_bounds(w);
        assert(!at_top_level(w));
    }
}

/// A law of the extraction: a reply made of prose (no `{`, `[` or `"`)
/// followed by one balanced structure yields exactly that structure, whole.
pub proof fn lemma_prose_then_one_structure(p: Seq<char>, q: Seq<char>)
    requires
        forall|i: int| 0 <= i < p.len() ==> p[i] != '{' && p[i] != '[' && p[i] != '"',
        one_structure(q),
    ensures
        balanced_structures(p + q) == seq![q],
{
    lemma_prose_then_structures(p, q);
    let n = q.len() as int;
    if n == 1 {
        assert(q.take(0) =~= Seq::<char>::empty());
        assert(q.take(1) =~= q);
        assert(false);
    } else {
        lemma_one_structure_open(q, n - 1);
        lemma_scan_start_bounds(q.take(n - 1));
        assert(q.take(n - 1) =~= q.drop_last());
        lemma_open_at_start(q.drop_last());
        assert(balanced_structures(q.drop_last()) =~= Seq::<Seq<char>>::empty());
        assert(q.subrange(0, n) =~= q);
        assert(balanced_structures(q) =~= seq![q]);
    }
}

/// Extract top-level `{ ... }` or `[ ... ]` candidates by scanning with brace/bracket balancing.
///
/// Respects JSON strings and escapes, so braces inside strings don't affect balancing.
pub fn extract_balanced_json_structures(content: &str) -> (out: Vec<String>)
    ensures
        views(out@) == balanced_structures(content@),
{
    let v = chars_of(content);
    let mut out: Vec<String> = Vec::new();
    let mut in_string = false;
    let mut escape = false;
    let mut brace_depth: usize = 0;
    let mut bracket_depth: usize = 0;
    let mut start: Option<usize> = None;
    let mut i: usize = 0;
    while i < v.len()
        invariant
            i <= v.len(),
            scan_after(v@.take(i as int)) == ((in_string, escape), brace_depth as int,
                bracket_depth as int, match start {
                Some(x) => Some(x as int),
                None => None,
            }),
            views(out@) == balanced_structures(v@.take(i as int)),
        decreases v.len() - i,
    {
        let ch = v[i];
        let ghost pre = v@.take(i as int);
        assert(v@.take(i + 1).drop_last() =~= pre);
        assert(v@.take(i + 1).last() == ch);
        proof {
            lemma_scan_start_bounds(pre);
        }
        if in_string {
            if escape {
                escape = false;
            } else if ch == '\\' {
                escape = true;
            } else if ch == '"' {
                in_string = false;
            }
        } else if ch == '"' {
            in_string = true;
        } else if ch == '{' {
            if brace_depth == 0 && bracket_depth == 0 {
                start = Some(i);
            }
            brace_depth += 1;
        } else if ch == '}' {
            if brace_depth > 0 {
                brace_depth -= 1;
                if brace_depth == 0 && bracket_depth == 0 {
                    if let Some(s) = start {
                        let piece = slice_chars(&v, s, i + 1);
                        out.push(string_of(&piece));
                        assert(v@.take(i + 1).subrange(s as int, i + 1) =~= v@.subrange(
                            s as int,
                            i + 1,
                        ));
                    }
                    start = None;
                }
            }
        } else if ch == '[' {
            if brace_depth == 0 && bracket_depth == 0 {
                start = Some(i);
            }
            bracket_depth += 1;
        } else if ch == ']' {
            if bracket_depth > 0 {
                bracket_depth -= 1;
                if brace_depth == 0 && bracket_depth == 0 {
                    if let Some(s) = start {
                        let piece = slice_chars(&v, s, i + 1);
                        out.push(string_of(&piece));
                        assert(v@.take(i + 1).subrange(s as int, i + 1) =~= v@.subrange(
                            s as int,
                            i + 1,
                        ));
                    }
                    start = None;
                }
            }
        }
        assert(views(out@) =~= balanced_structures(v@.take(i + 1)));
        i += 1;
    }
    assert(v@.take(v.len() as int) =~= v@);
    out
}

// ---------------------------------------------------------------------------
// Fenced ```json blocks
// ---------------------------------------------------------------------------

/// An opening tag ```` ```json ```` (the word `json` in any ASCII case) starts at `i`.
pub open spec fn json_tag_at(s: Seq<char>, i: int) -> bool {
    0 <= i && i + 7 <= s.len() && s[i] == '`' && s[i + 1] == '`' && s[i + 2] == '`' && (s[i
        + 3] == 'j' || s[i + 3] == 'J') && (s[i + 4] == 's' || s[i + 4] == 'S') && (s[i + 5]
        == 'o' || s[i + 5] == 'O') && (s[i + 6] == 'n' || s[i + 6] == 'N')
}

/// The first opening tag at or after `i`.
pub open spec fn next_tag(s: Seq<char>, i: int) -> Option<int>
    decreases s.len() - i,
{
    if i < 0 || i + 7 > s.len() {
        None
    } else if json_tag_at(s, i) {
        Some(i)
    } else {
        next_tag(s, i + 1)
    }
}

/// The first position at or after `i` holding `c`.
pub open spec fn next_char(s: Seq<char>, i: int, c: char) -> Option<int>
    decreases s.len() - i,
{
    if i < 0 || i >= s.len() {
        None
    } else if s[i] == c {
        Some(i)
    } else {
        next_char(s, i + 1, c)
    }
}

/// Where the line holding position `p` ends: its newline, or the end of `h`.
pub open spec fn line_end(h: Seq<char>, p: int) -> int {
    match next_char(h, p, '\n') {
        Some(n) => n,
        None => h.len() as int,
    }
}

/// A space or a tab.
pub open spec fn is_blank(c: char) -> bool {
    c == ' ' || c == '\t'
}

/// Positions `a..a+3` of `l` hold three backticks with only spaces and tabs
/// before and after them.
pub open spec fn fence_at(l: Seq<char>, a: int) -> bool {
    0 <= a && a + 3 <= l.len() && (forall|k: int| 0 <= k < a ==> is_blank(#[trigger] l[k]))
        && l[a] == '`' && l[a + 1] == '`' && l[a + 2] == '`' && (forall|k: int|
        a + 3 <= k < l.len() ==> is_blank(#[trigger] l[k]))
}

/// A line made of spaces and tabs, three backticks, and spaces and tabs.
pub open spec fn fence_text(l: Seq<char>) -> bool {
    exists|a: int| #[trigger] fence_at(l, a)
}

/// A closing fence line starts at `p`: `p` begins a line and that line, up to
/// its newline, is fence text (what `(?m)^[ \t]*```[ \t]*$` matches).
pub open spec fn fence_line_at(h: Seq<char>, p: int) -> bool {
    0 <= p <= h.len() && (p == 0 || h[p - 1] == '\n') && fence_text(h.subrange(p, line_end(h, p)))
}

/// The first closing fence line starting at or after `p`.
pub open spec fn first_fence_from(h: Seq<char>, p: int) -> Option<int>
    decreases h.len() + 1 - p,
{
    if p < 0 || p > h.len() {
        None
    } else if fence_line_at(h, p) {
        Some(p)
    } else {
        first_fence_from(h, p + 1)
    }
}

/// The contents of the fenced ```` ```json ```` blocks of `s` from position
/// `from` on: after each opening tag the block begins on the next line and runs
/// up to the next closing fence line; the search resumes after that line. A tag
/// with no newline after it, or no closing fence, ends the search.
pub open spec fn fence_blocks_from(s: Seq<char>, from: int) -> Seq<Seq<char>>
    decreases s.len() - from,
{
    if from < 0 || from > s.len() {
        Seq::empty()
    } else {
        match next_tag(s, from) {
            None => Seq::empty(),
            Some(t) => match next_char(s, t + 7, '\n') {
                None => Seq::empty(),
                Some(nl) => {
                    let cs = nl + 1;
                    let h = s.skip(cs);
                    match first_fence_from(h, 0) {
                        None => Seq::empty(),
                        Some(p) => {
                            let q = line_end(h, p);
                            if from < cs + q && cs + q <= s.len() && 0 <= p <= q {
                                seq![s.subrange(cs, cs + p)] + fence_blocks_from(s, cs + q)
                            } else {
                                Seq::empty()
                            }
                        },
                    }
                },
            },
        }
    }
}

proof fn lemma_next_tag(s: Seq<char>, i: int)
    ensures
        next_tag(s, i) matches Some(t) ==> i <= t && t + 7 <= s.len() && json_tag_at(s, t),
    decreases s.len() - i,
{
    if !(i < 0 || i + 7 > s.len()) && !json_tag_at(s, i) {
        lemma_next_tag(s, i + 1);
    }
}

proof fn lemma_next_char(s: Seq<char>, i: int, c: char)
    ensures
        next_char(s, i, c) matches Some(n) ==> i <= n < s.len() && s[n] == c,
    decreases s.len() - i,
{
    if !(i < 0 || i >= s.len()) && s[i] != c {
        lemma_next_char(s, i + 1, c);
    }
}

proof fn lemma_first_fence(h: Seq<char>, p: int)
    ensures
        first_fence_from(h, p) matches Some(f) ==> p <= f <= h.len() && f <= line_end(h, f)
            <= h.len(),
    decreases h.len() + 1 - p,
{
    if !(p < 0 || p > h.len()) {
        if fence_line_at(h, p) {
            lemma_next_char(h, p, '\n');
        } else {
            lemma_first_fence(h, p + 1);
        }
    }
}

/// The first opening tag at or after `from` (executable).
fn find_json_tag(v: &Vec<char>, from: usize) -> (r: Option<usize>)
    ensures
        match r {
            Some(t) => next_tag(v@, from as int) == Some(t as int),
            None => next_tag(v@, from as int) is None,
        },
{
    let mut i: usize = from;
    while i <= v.len() && v.len() - i >= 7
        invariant
            from <= i,
            next_tag(v@, from as int) == next_tag(v@, i as int),
        decreases v.len() + 1 - i,
    {
        if v[i] == '`' && v[i + 1] == '`' && v[i + 2] == '`' && (v[i + 3] == 'j' || v[i + 3]
            == 'J') && (v[i + 4] == 's' || v[i + 4] == 'S') && (v[i + 5] == 'o' || v[i + 5]
            == 'O') && (v[i + 6] == 'n' || v[i + 6] == 'N') {
            return Some(i);
        }
        i += 1;
    }
    None
}

/// The first position at or after `from` holding `c` (executable).
fn find_char(v: &Vec<char>, from: usize, c: char) -> (r: Option<usize>)
    ensures
        match r {
            Some(n) => next_char(v@, from as int, c) == Some(n as int),
            None => next_char(v@, from as int, c) is None,
        },
{
    let mut i: usize = from;
    while i < v.len()
        invariant
            from <= i,
            next_char(v@, from as int, c) == next_char(v@, i as int, c),
        decreases v.len() - i,
    {
        if v[i] == c {
            return Some(i);
        }
        i += 1;
    }
    None
}

/// `Regex::find` with the pattern `(?m)^[ \t]*```[ \t]*$`: the byte span of
/// the leftmost line of `hay` that holds three backticks with only spaces and
/// tabs around them. Lines end at `\n` (the pattern is not CRLF-aware), and the
/// span runs from the start of that line to just before its newline.
#[verifier::external_body]
fn find_closing_fence(hay: &str) -> (r: Option<(usize, usize)>)
    ensures
        match first_fence_from(hay@, 0) {
            None => r is None,
            Some(p) => r matches Some((a, b)) && a == byte_len(hay@.take(p)) && b == byte_len(
                hay@.take(line_end(hay@, p)),
            ),
        },
{
    let re = regex::Regex::new(r"(?m)^[ \t]*```[ \t]*$").expect("valid regex");
    match re.find(hay) {
        Some(m) => Some((m.start(), m.end())),
        None => None,
    }
}

/// Extract ```` ```json ... ``` ```` blocks.
///
/// A block ends only on a closing fence line that is exactly three backticks
/// (plus spaces and tabs), so backticks inside JSON string values (markdown in
/// `f`) do not truncate it. The opening tag's `json` may be in any case.
pub fn extract_json_code_fence_blocks(content: &str) -> (r: Vec<String>)
    ensures
        views(r@) == fence_blocks_from(content@, 0),
{
    let v = chars_of(content);
    let mut blocks: Vec<String> = Vec::new();
    let mut from: usize = 0;
    loop
        invariant
            from <= v.len(),
            v@ == content@,
            views(blocks@) + fence_blocks_from(v@, from as int) == fence_blocks_from(v@, 0),
        decreases v.len() - from,
    {
        let t = match find_json_tag(&v, from) {
            Some(t) => t,
            None => {
                assert(views(blocks@) =~= fence_blocks_from(v@, 0));
                return blocks;
            },
        };
        proof {
            lemma_next_tag(v@, from as int);
        }
        let nl = match find_char(&v, t + 7, '\n') {
            Some(n) => n,
            None => {
                assert(views(blocks@) =~= fence_blocks_from(v@, 0));
                return blocks;
            },
        };
        proof {
            lemma_next_char(v@, t + 7, '\n');
        }
        let cs = nl + 1;
        let hay_v = slice_chars(&v, cs, v.len());
        let hay = string_of(&hay_v);
        let ghost h = v@.skip(cs as int);
        assert(hay@ =~= h);
        match find_closing_fence(hay.as_str()) {
            Some((a, b)) => {
                let ghost p = first_fence_from(h, 0)->0;
                proof {
                    lemma_first_fence(h, 0);
                    lemma_char_pos_unique(hay_v@, a as int, p);
                    lemma_char_pos_unique(hay_v@, b as int, line_end(h, p));
                }
                let pa = char_index_at_byte(&hay_v, a);
                let qb = char_index_at_byte(&hay_v, b);
                let piece = slice_chars(&v, cs, cs + pa);
                let block = string_of(&piece);
                proof {
                    let rest = fence_blocks_from(v@, (cs + qb) as int);
                    assert(fence_blocks_from(v@, from as int) == seq![v@.subrange(
                        cs as int,
                        cs + pa,
                    )] + rest);
                    assert(views(blocks@.push(block)) =~= views(blocks@).push(block@));
                    assert(views(blocks@).push(block@) + rest =~= views(blocks@) + (seq![
                        block@,
                    ] + rest));
                }
                blocks.push(block);
                from = cs + qb;
            },
            None => {
                assert(views(blocks@) =~= fence_blocks_from(v@, 0));
                return blocks;
            },
        }
    }
}

// ---------------------------------------------------------------------------
// Short-Key actions and the order in which candidates are parsed
// ---------------------------------------------------------------------------

/// Short-Key action: `t` thought (empty by default), `a` tool name, `i` tool
/// input, `f` final answer to the user, `c` confirm flag (when set, the action
/// is shown to the user and held until approved).
#[derive(Clone, Debug)]
pub struct ShortKeyAction {
    pub thought: String,
    pub action: Option<String>,
    pub input: Option<serde_json::Value>,
    pub final_answer: Option<String>,
    pub confirm: bool,
}

/// What a candidate text is parsed as.
#[derive(Clone, Copy, Debug, PartialEq, Eq, Structural)]
pub enum ParseShape {
    /// A JSON array of actions.
    Batch,
    /// A single JSON action object.
    Single,
}

/// One parse to try: a text and the shape it is parsed as.
#[derive(Clone, Debug)]
pub struct ParseAttempt {
    pub text: String,
    pub shape: ParseShape,
}

/// The attempts for one candidate text: the trimmed text as an array, then as
/// one object, then the newline-repaired text as one object, as an array, and
/// as one object again. A blank candidate gives no attempt.
pub open spec fn candidate_plan(c: Seq<char>) -> Seq<(Seq<char>, ParseShape)> {
    let t = trim_seq(c);
    if t.len() == 0 {
        Seq::empty()
    } else {
        let e = escape_newlines(t);
        seq![
            (t, ParseShape::Batch),
            (t, ParseShape::Single),
            (e, ParseShape::Single),
            (e, ParseShape::Batch),
            (e, ParseShape::Single),
        ]
    }
}

/// The attempts for a list of candidates, in order.
pub open spec fn plan_of(cands: Seq<Seq<char>>) -> Seq<(Seq<char>, ParseShape)>
    decreases cands.len(),
{
    if cands.len() == 0 {
        Seq::empty()
    } else {
        plan_of(cands.drop_last()) + candidate_plan(cands.last())
    }
}

/// Candidates of a model reply, most explicit first: fenced ```` ```json ````
/// blocks, then the whole trimmed reply, then balanced `{...}` / `[...]` spans.
pub open spec fn short_key_candidates(content: Seq<char>) -> Seq<Seq<char>> {
    fence_blocks_from(content, 0) + seq![trim_seq(content)] + balanced_structures(content)
}

/// Every parse to try on a model reply, in order; the first that succeeds wins.
pub open spec fn short_key_plan(content: Seq<char>) -> Seq<(Seq<char>, ParseShape)> {
    plan_of(short_key_candidates(content))
}

/// The view of a list of attempts.
pub open spec fn attempt_views(v: Seq<ParseAttempt>) -> Seq<(Seq<char>, ParseShape)> {
    v.map_values(|a: ParseAttempt| (a.text@, a.shape))
}

/// Appends the attempts of one candidate (the parse order of a single candidate:
/// array, object, then both again after repairing newlines inside strings).
pub fn push_candidate_attempts(plan: &mut Vec<ParseAttempt>, candidate: &str)
    ensures
        attempt_views(final(plan)@) == attempt_views(old(plan)@) + candidate_plan(candidate@),
{
    let t = trim(candidate);
    if t.as_str().is_empty() {
        assert(attempt_views(plan@) =~= attempt_views(plan@) + candidate_plan(candidate@));
        return;
    }
    let e = escape_unescaped_newlines_in_json_strings(t.as_str());
    let ghost before = attempt_views(plan@);
    plan.push(ParseAttempt { text: t.clone(), shape: ParseShape::Batch });
    plan.push(ParseAttempt { text: t, shape: ParseShape::Single });
    plan.push(ParseAttempt { text: e.clone(), shape: ParseShape::Single });
    plan.push(ParseAttempt { text: e.clone(), shape: ParseShape::Batch });
    plan.push(ParseAttempt { text: e, shape: ParseShape::Single });
    assert(attempt_views(plan@) =~= before + candidate_plan(candidate@));
}

/// The attempts for one candidate text.
pub fn candidate_attempts(candidate: &str) -> (r: Vec<ParseAttempt>)
    ensures
        attempt_views(r@) == candidate_plan(candidate@),
{
    let mut plan: Vec<ParseAttempt> = Vec::new();
    push_candidate_attempts(&mut plan, candidate);
    assert(attempt_views(Seq::<ParseAttempt>::empty()) + candidate_plan(candidate@)
        =~= candidate_plan(candidate@));
    plan
}

/// Appends the attempts of every candidate in order.
fn push_all_candidates(plan: &mut Vec<ParseAttempt>, cands: &Vec<String>)
    ensures
        attempt_views(final(plan)@) == attempt_views(old(plan)@) + plan_of(views(cands@)),
{
    let ghost start = attempt_views(plan@);
    let mut i: usize = 0;
    while i < cands.len()
        invariant
            i <= cands.len(),
            attempt_views(plan@) == start + plan_of(views(cands@).take(i as int)),
        decreases cands.len() - i,
    {
        push_candidate_attempts(plan, cands[i].as_str());
        proof {
            let w = views(cands@);
            assert(w.take(i + 1).drop_last() =~= w.take(i as int));
            assert(w.take(i + 1).last() == cands@[i as int]@);
            assert(start + plan_of(w.take(i as int)) + candidate_plan(cands@[i as int]@)
                =~= start + plan_of(w.take(i + 1)));
        }
        i += 1;
    }
    assert(views(cands@).take(cands.len() as int) =~= views(cands@));
}

proof fn lemma_plan_of_concat(a: Seq<Seq<char>>, b: Seq<Seq<char>>)
    ensures
        plan_of(a + b) == plan_of(a) + plan_of(b),
    decreases b.len(),
{
    if b.len() == 0 {
        assert(a + b =~= a);
        assert(plan_of(a) + plan_of(b) =~= plan_of(a));
    } else {
        assert((a + b).drop_last() =~= a + b.drop_last());
        lemma_plan_of_concat(a, b.drop_last());
        assert(plan_of(a) + plan_of(b.drop_last()) + candidate_plan(b.last()) =~= plan_of(a) + (
        plan_of(b.drop_last()) + candidate_plan(b.last())));
    }
}

/// Every parse to try on a model reply, in the order the Short-Key parser
/// tries them: fenced ```` ```json ```` blocks first (most explicit), then the
/// whole trimmed reply, then balanced JSON structures embedded in prose.
pub fn short_key_parse_plan(content: &str) -> (r: Vec<ParseAttempt>)
    ensures
        attempt_views(r@) == short_key_plan(content@),
{
    let mut plan: Vec<ParseAttempt> = Vec::new();
    let fenced = extract_json_code_fence_blocks(content);
    push_all_candidates(&mut plan, &fenced);
    let t = trim(content);
    let mut whole: Vec<String> = Vec::new();
    whole.push(t);
    push_all_candidates(&mut plan, &whole);
    let balanced = extract_balanced_json_structures(content);
    push_all_candidates(&mut plan, &balanced);
    proof {
        let a = fence_blocks_from(content@, 0);
        let b = seq![trim_seq(content@)];
        let c = balanced_structures(content@);
        assert(views(whole@) =~= b);
        lemma_plan_of_concat(a, b);
        lemma_plan_of_concat(a + b, c);
        assert(attempt_views(Seq::<ParseAttempt>::empty()) + plan_of(a) + plan_of(b) + plan_of(c)
            =~= plan_of(a) + plan_of(b) + plan_of(c));
    }
    plan
}

/// The error given when no candidate of a reply parses.
#[derive(Clone, Debug)]
pub struct ShortKeyParseError {
    pub message: String,
    pub code: String,
    pub raw_content: String,
}

/// The index of the first parse that succeeded, if any.
pub open spec fn first_success(outcomes: Seq<Option<Vec<ShortKeyAction>>>) -> Option<int>
    decreases outcomes.len(),
{
    if outcomes.len() == 0 {
        None
    } else {
        match first_success(outcomes.drop_last()) {
            Some(i) => Some(i),
            None => if outcomes.last() is Some {
                Some(outcomes.len() - 1)
            } else {
                None
            },
        }
    }
}

proof fn lemma_first_success(outcomes: Seq<Option<Vec<ShortKeyAction>>>, i: int)
    requires
        0 <= i <= outcomes.len(),
        forall|k: int| 0 <= k < i ==> outcomes[k] is None,
    ensures
        i < outcomes.len() && outcomes[i] is Some ==> first_success(outcomes) == Some(i),
        i == outcomes.len() ==> first_success(outcomes) is None,
    decreases outcomes.len(),
{
    if outcomes.len() > 0 {
        let d = outcomes.drop_last();
        if i < outcomes.len() {
            if i < d.len() {
                lemma_first_success(d, i);
            } else {
                lemma_first_success(d, d.len() as int);
            }
        } else {
            lemma_first_success(d, d.len() as int);
        }
    }
}

/// The actions of a reply given the outcome of each attempt of its plan, in
/// order: the first successful parse, or the parse error carrying the raw reply.
pub fn select_parsed_actions(content: &str, outcomes: Vec<Option<Vec<ShortKeyAction>>>) -> (r:
    Result<Vec<ShortKeyAction>, ShortKeyParseError>)
    ensures
        match first_success(outcomes@) {
            Some(i) => r == Ok::<Vec<ShortKeyAction>, ShortKeyParseError>(outcomes@[i]->0),
            None => r matches Err(e) && e.message@
                == "Failed to parse Short-Key JSON from model response."@ && e.code@
                == "PARSE_ERROR"@ && e.raw_content@ == content@,
        },
{
    let ghost orig = outcomes@;
    let mut pending = outcomes;
    let mut i: usize = 0;
    while i < pending.len()
        invariant
            pending@ == orig,
            orig == outcomes@,
            i <= pending.len(),
            forall|k: int| 0 <= k < i ==> orig[k] is None,
        decreases pending.len() - i,
    {
        if pending[i].is_some() {
            proof {
                lemma_first_success(orig, i as int);
            }
            let found = pending.remove(i);
            match found {
                Some(actions) => {
                    return Ok(actions);
                },
                None => {
                    assert(false);
                },
            }
        }
        i += 1;
    }
    proof {
        lemma_first_success(orig, i as int);
    }
    Err(
        ShortKeyParseError {
            message: to_owned("Failed to parse Short-Key JSON from model response."),
            code: to_owned("PARSE_ERROR"),
            raw_content: to_owned(content),
        },
    )
}

} // verus!
