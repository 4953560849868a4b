//! Character-sequence utilities shared by the parsers, formatters and policies.
//!
//! Strings are reasoned about through their views (`Seq<char>`); the byte
//! length of a string is the length of its UTF-8 encoding.

use vstd::prelude::*;
use vstd::utf8::*;

verus! {

/// The characters of a string slice, collected into a vector.
pub fn chars_of(s: &str) -> (v: Vec<char>)
    ensures
        v@ == s@,
{
    let mut v: Vec<char> = Vec::new();
    for c in it: s.chars()
        invariant
            v@ == it.seq().take(it.index() as int),
    {
        v.push(c);
    }
    v
}

/// Appends one character to a string (`String::push`).
#[verifier::external_body]
pub(crate) fn push_char(s: &mut String, c: char)
    ensures
        final(s)@ == old(s)@.push(c),
{
    s.push(c);
}

/// Appends a string slice to a string (`String::push_str`).
#[verifier::external_body]
pub(crate) fn push_str(s: &mut String, t: &str)
    ensures
        final(s)@ == old(s)@ + t@,
{
    s.push_str(t);
}

/// The view of an optional string.
pub open spec fn opt_view(o: Option<String>) -> Option<Seq<char>> {
    match o {
        Some(s) => Some(s@),
        None => None,
    }
}

/// A copy of an optional string.
pub fn clone_opt_string(o: &Option<String>) -> (r: Option<String>)
    ensures
        r == *o,
{
    match o {
        Some(s) => Some(s.clone()),
        None => None,
    }
}

/// A new string holding a copy of the given slice.
pub fn to_owned(s: &str) -> (r: String)
    ensures
        r@ == s@,
{
    s.to_owned()
}

/// Appends the characters of a vector to a string.
pub(crate) fn push_chars(s: &mut String, v: &Vec<char>)
    ensures
        final(s)@ == old(s)@ + v@,
{
    let ghost start = s@;
    let mut i: usize = 0;
    while i < v.len()
        invariant
            i <= v.len(),
            s@ == start + v@.take(i as int),
        decreases v.len() - i,
    {
        push_char(s, v[i]);
        assert(v@.take(i + 1) =~= v@.take(i as int).push(v@[i as int]));
        i += 1;
    }
    assert(v@.take(v.len() as int) =~= v@);
}

/// A string made of the given characters.
pub fn string_of(v: &Vec<char>) -> (r: String)
    ensures
        r@ == v@,
{
    let mut s = String::new();
    push_chars(&mut s, v);
    s
}

/// Concatenation of two string slices.
pub fn concat(a: &str, b: &str) -> (r: String)
    ensures
        r@ == a@ + b@,
{
    let mut s = to_owned(a);
    push_str(&mut s, b);
    s
}

/// Whether two string slices hold the same characters.
pub fn str_eq(a: &str, b: &str) -> (r: bool)
    ensures
        r == (a@ == b@),
{
    let x = chars_of(a);
    let y = chars_of(b);
    seq_eq(&x, &y)
}

/// Whether two character vectors are equal.
pub fn seq_eq(x: &Vec<char>, y: &Vec<char>) -> (r: bool)
    ensures
        r == (x@ == y@),
{
    if x.len() != y.len() {
        return false;
    }
    let mut i: usize = 0;
    while i < x.len()
        invariant
            x.len() == y.len(),
            i <= x.len(),
            forall|j: int| 0 <= j < i ==> x@[j] == y@[j],
        decreases x.len() - i,
    {
        if x[i] != y[i] {
            return false;
        }
        i += 1;
    }
    assert(x@ =~= y@);
    true
}

// ---------------------------------------------------------------------------
// Byte lengths (UTF-8)
// ---------------------------------------------------------------------------

/// Number of bytes of the UTF-8 encoding of a character (`char::len_utf8`).
pub open spec fn char_width(c: char) -> nat {
    let v = c as u32;
    if v < 0x80 {
        1
    } else if v < 0x800 {
        2
    } else if v < 0x10000 {
        3
    } else {
        4
    }
}

/// Number of bytes of the UTF-8 encoding of a character sequence (`str::len`).
pub open spec fn byte_len(s: Seq<char>) -> nat
    decreases s.len(),
{
    if s.len() == 0 {
        0
    } else {
        char_width(s[0]) + byte_len(s.drop_first())
    }
}

/// Byte offset `off` of `s` falls between two characters.
pub open spec fn is_boundary(s: Seq<char>, off: int) -> bool {
    exists|k: int| 0 <= k <= s.len() && byte_len(s.take(k)) == off
}

/// The character position that byte offset `off` of `s` corresponds to.
pub open spec fn char_pos_of_byte(s: Seq<char>, off: int) -> int {
    choose|k: int| 0 <= k <= s.len() && byte_len(s.take(k)) == off
}

/// A suffix is no longer in bytes than the whole.
pub proof fn lemma_byte_len_suffix(s: Seq<char>, k: int)
    requires
        0 <= k <= s.len(),
    ensures
        byte_len(s.skip(k)) <= byte_len(s),
{
    assert(s =~= s.take(k) + s.skip(k));
    lemma_byte_len_concat(s.take(k), s.skip(k));
}

/// The byte length of a concatenation is the sum of the byte lengths.
pub proof fn lemma_byte_len_concat(a: Seq<char>, b: Seq<char>)
    ensures
        byte_len(a + b) == byte_len(a) + byte_len(b),
    decreases a.len(),
{
    if a.len() > 0 {
        assert((a + b).drop_first() =~= a.drop_first() + b);
        lemma_byte_len_concat(a.drop_first(), b);
    } else {
        assert(a + b =~= b);
    }
}

/// Appending one character adds its width.
pub proof fn lemma_byte_len_push(a: Seq<char>, c: char)
    ensures
        byte_len(a.push(c)) == byte_len(a) + char_width(c),
{
    assert(seq![c].drop_first() =~= Seq::<char>::empty());
    assert(byte_len(seq![c]) == char_width(c)) by {
        reveal_with_fuel(byte_len, 2);
    }
    lemma_byte_len_concat(a, seq![c]);
    assert(a.push(c) =~= a + seq![c]);
}

/// Byte lengths of longer prefixes are strictly larger.
pub proof fn lemma_byte_len_take_strict(s: Seq<char>, j: int, k: int)
    requires
        0 <= j < k <= s.len(),
    ensures
        byte_len(s.take(j)) < byte_len(s.take(k)),
    decreases k - j,
{
    assert(s.take(k) =~= s.take(k - 1).push(s[k - 1]));
    lemma_byte_len_push(s.take(k - 1), s[k - 1]);
    if j < k - 1 {
        lemma_byte_len_take_strict(s, j, k - 1);
    }
}

/// A boundary corresponds to exactly one character position.
pub proof fn lemma_char_pos_unique(s: Seq<char>, off: int, k: int)
    requires
        0 <= k <= s.len(),
        byte_len(s.take(k)) == off,
    ensures
        is_boundary(s, off),
        char_pos_of_byte(s, off) == k,
{
    assert(is_boundary(s, off));
    let c = char_pos_of_byte(s, off);
    if c < k {
        lemma_byte_len_take_strict(s, c, k);
    } else if c > k {
        lemma_byte_len_take_strict(s, k, c);
    }
}

/// The width of a character (executable).
pub fn char_width_exec(c: char) -> (n: usize)
    ensures
        n == char_width(c),
{
    let v = c as u32;
    if v < 0x80 {
        1
    } else if v < 0x800 {
        2
    } else if v < 0x10000 {
        3
    } else {
        4
    }
}

proof fn lemma_encode_len(s: Seq<char>)
    ensures
        encode_utf8(s).len() == byte_len(s),
    decreases s.len(),
{
    if s.len() > 0 {
        lemma_encode_len(s.drop_first());
        char_is_scalar(s[0]);
    }
}

/// The byte length of a string slice (`str::len`).
pub fn str_len(s: &str) -> (n: usize)
    requires
        byte_len(s@) <= usize::MAX,
    ensures
        n == byte_len(s@),
{
    proof {
        lemma_encode_len(s@);
    }
    s.len()
}

/// The byte length of a character vector, as the string it spells would have.
pub fn chars_byte_len(v: &Vec<char>) -> (n: usize)
    requires
        byte_len(v@) <= usize::MAX,
    ensures
        n == byte_len(v@),
{
    let mut acc: usize = 0;
    let mut i: usize = 0;
    while i < v.len()
        invariant
            i <= v.len(),
            acc == byte_len(v@.take(i as int)),
            byte_len(v@) <= usize::MAX,
        decreases v.len() - i,
    {
        proof {
            assert(v@.take(i + 1) =~= v@.take(i as int).push(v@[i as int]));
            lemma_byte_len_push(v@.take(i as int), v@[i as int]);
            if i + 1 < v.len() {
                lemma_byte_len_take_strict(v@, i + 1, v.len() as int);
            }
            assert(v@.take(v.len() as int) =~= v@);
        }
        acc = acc + char_width_exec(v[i]);
        i += 1;
    }
    assert(v@.take(v.len() as int) =~= v@);
    acc
}

/// The character position of byte offset `off` in `v`.
pub fn char_index_at_byte(v: &Vec<char>, off: usize) -> (k: usize)
    requires
        is_boundary(v@, off as int),
    ensures
        k <= v.len(),
        byte_len(v@.take(k as int)) == off,
        k == char_pos_of_byte(v@, off as int),
{
    let ghost target = char_pos_of_byte(v@, off as int);
    let mut acc: usize = 0;
    let mut i: usize = 0;
    while acc < off
        invariant
            0 <= target <= v.len(),
            byte_len(v@.take(target)) == off,
            i <= target,
            acc == byte_len(v@.take(i as int)),
            acc <= off,
        decreases target - i,
    {
        proof {
            if i == target {
                assert(false);
            }
            assert(v@.take(i + 1) =~= v@.take(i as int).push(v@[i as int]));
            lemma_byte_len_push(v@.take(i as int), v@[i as int]);
            if i + 1 < target {
                lemma_byte_len_take_strict(v@, i + 1, target);
            }
        }
        acc = acc + char_width_exec(v[i]);
        i += 1;
    }
    proof {
        if i < target {
            lemma_byte_len_take_strict(v@, i as int, target);
        }
        lemma_char_pos_unique(v@, off as int, i as int);
    }
    i
}

// ---------------------------------------------------------------------------
// Searching
// ---------------------------------------------------------------------------

/// `pat` occurs in `s` starting at position `i`.
pub open spec fn occurs_at(s: Seq<char>, pat: Seq<char>, i: int) -> bool {
    0 <= i && i + pat.len() <= s.len() && s.subrange(i, i + pat.len()) == pat
}

/// `pat` occurs somewhere in `s`.
pub open spec fn contains_seq(s: Seq<char>, pat: Seq<char>) -> bool {
    exists|i: int| occurs_at(s, pat, i)
}

/// `s` begins with `pat`.
pub open spec fn starts_with_seq(s: Seq<char>, pat: Seq<char>) -> bool {
    occurs_at(s, pat, 0)
}

/// `s` ends with `pat`.
pub open spec fn ends_with_seq(s: Seq<char>, pat: Seq<char>) -> bool {
    pat.len() <= s.len() && occurs_at(s, pat, s.len() - pat.len())
}

/// Whether `pat` occurs in `s` at position `i` (executable).
pub fn occurs_at_exec(s: &Vec<char>, pat: &Vec<char>, i: usize) -> (r: bool)
    ensures
        r == occurs_at(s@, pat@, i as int),
{
    if i > s.len() || pat.len() > s.len() - i {
        return false;
    }
    let mut j: usize = 0;
    while j < pat.len()
        invariant
            i + pat.len() <= s.len(),
            j <= pat.len(),
            forall|k: int| 0 <= k < j ==> s@[i + k] == pat@[k],
        decreases pat.len() - j,
    {
        if s[i + j] != pat[j] {
            assert(s@.subrange(i as int, i + pat.len())[j as int] != pat@[j as int]);
            return false;
        }
        j += 1;
    }
    assert(s@.subrange(i as int, i + pat.len()) =~= pat@);
    true
}

/// The first position at or after `from` where `pat` occurs in `s`.
pub fn find_from(s: &Vec<char>, pat: &Vec<char>, from: usize) -> (r: Option<usize>)
    ensures
        match r {
            Some(i) => from <= i && occurs_at(s@, pat@, i as int) && forall|k: int|
                from <= k < i ==> !occurs_at(s@, pat@, k),
            None => forall|k: int| from <= k ==> !occurs_at(s@, pat@, k),
        },
{
    if from > s.len() {
        return None;
    }
    let mut i: usize = from;
    loop
        invariant
            from <= i <= s.len(),
            forall|k: int| from <= k < i ==> !occurs_at(s@, pat@, k),
        decreases s.len() - i,
    {
        if occurs_at_exec(s, pat, i) {
            return Some(i);
        }
        if i == s.len() {
            return None;
        }
        i += 1;
    }
}

/// Whether `pat` occurs in `s` (executable).
pub fn contains_exec(s: &Vec<char>, pat: &Vec<char>) -> (r: bool)
    ensures
        r == contains_seq(s@, pat@),
{
    match find_from(s, pat, 0) {
        Some(i) => true,
        None => false,
    }
}

/// Whether the string `s` contains the string `pat`.
pub fn str_contains(s: &str, pat: &str) -> (r: bool)
    ensures
        r == contains_seq(s@, pat@),
{
    let a = chars_of(s);
    let b = chars_of(pat);
    contains_exec(&a, &b)
}

/// Whether the string `s` begins with `pat`.
pub fn str_starts_with(s: &str, pat: &str) -> (r: bool)
    ensures
        r == starts_with_seq(s@, pat@),
{
    let a = chars_of(s);
    let b = chars_of(pat);
    occurs_at_exec(&a, &b, 0)
}

/// Whether the string `s` ends with `pat`.
pub fn str_ends_with(s: &str, pat: &str) -> (r: bool)
    ensures
        r == ends_with_seq(s@, pat@),
{
    let a = chars_of(s);
    let b = chars_of(pat);
    if b.len() > a.len() {
        return false;
    }
    occurs_at_exec(&a, &b, a.len() - b.len())
}

// ---------------------------------------------------------------------------
// Whitespace and trimming
// ---------------------------------------------------------------------------

/// The Unicode `White_Space` property, which `char::is_whitespace` tests.
pub open spec fn is_ws(c: char) -> bool {
    let v = c as u32;
    (0x09 <= v <= 0x0D) || v == 0x20 || v == 0x85 || v == 0xA0 || v == 0x1680 || (0x2000 <= v
        <= 0x200A) || v == 0x2028 || v == 0x2029 || v == 0x202F || v == 0x205F || v == 0x3000
}

/// Whether a character is white space (`char::is_whitespace`).
pub fn is_ws_exec(c: char) -> (r: bool)
    ensures
        r == is_ws(c),
{
    let v = c as u32;
    (0x09 <= v && v <= 0x0D) || v == 0x20 || v == 0x85 || v == 0xA0 || v == 0x1680 || (0x2000
        <= v && v <= 0x200A) || v == 0x2028 || v == 0x2029 || v == 0x202F || v == 0x205F || v
        == 0x3000
}

/// Number of leading white-space characters of `s`.
pub open spec fn leading_ws(s: Seq<char>) -> int
    decreases s.len(),
{
    if s.len() > 0 && is_ws(s[0]) {
        1 + leading_ws(s.drop_first())
    } else {
        0
    }
}

/// Number of trailing white-space characters of `s`.
pub open spec fn trailing_ws(s: Seq<char>) -> int
    decreases s.len(),
{
    if s.len() > 0 && is_ws(s.last()) {
        1 + trailing_ws(s.drop_last())
    } else {
        0
    }
}

/// `s` without leading white space (`str::trim_start`).
pub open spec fn trim_start_seq(s: Seq<char>) -> Seq<char> {
    s.skip(leading_ws(s))
}

/// `s` without trailing white space (`str::trim_end`).
pub open spec fn trim_end_seq(s: Seq<char>) -> Seq<char> {
    s.take(s.len() - trailing_ws(s))
}

/// `s` without leading and trailing white space (`str::trim`).
pub open spec fn trim_seq(s: Seq<char>) -> Seq<char> {
    trim_end_seq(trim_start_seq(s))
}

proof fn lemma_leading_ws_bounds(s: Seq<char>)
    ensures
        0 <= leading_ws(s) <= s.len(),
        forall|k: int| 0 <= k < leading_ws(s) ==> is_ws(s[k]),
        leading_ws(s) < s.len() ==> !is_ws(s[leading_ws(s)]),
    decreases s.len(),
{
    if s.len() > 0 && is_ws(s[0]) {
        lemma_leading_ws_bounds(s.drop_first());
        assert forall|k: int| 0 <= k < leading_ws(s) implies is_ws(s[k]) by {
            if k > 0 {
                assert(s[k] == s.drop_first()[k - 1]);
            }
        }
    }
}

proof fn lemma_trailing_ws_bounds(s: Seq<char>)
    ensures
        0 <= trailing_ws(s) <= s.len(),
        forall|k: int| s.len() - trailing_ws(s) <= k < s.len() ==> is_ws(s[k]),
        trailing_ws(s) < s.len() ==> !is_ws(s[s.len() - trailing_ws(s) - 1]),
    decreases s.len(),
{
    if s.len() > 0 && is_ws(s.last()) {
        lemma_trailing_ws_bounds(s.drop_last());
        assert forall|k: int| s.len() - trailing_ws(s) <= k < s.len() implies is_ws(s[k]) by {
            if k < s.len() - 1 {
                assert(s[k] == s.drop_last()[k]);
            }
        }
    }
}

/// Characterizes `leading_ws` by its defining properties.
pub proof fn lemma_leading_ws_char(s: Seq<char>, n: int)
    requires
        0 <= n <= s.len(),
        forall|k: int| 0 <= k < n ==> is_ws(s[k]),
        n < s.len() ==> !is_ws(s[n]),
    ensures
        leading_ws(s) == n,
    decreases s.len(),
{
    if n > 0 {
        let t = s.drop_first();
        assert forall|k: int| 0 <= k < n - 1 implies is_ws(t[k]) by {
            assert(t[k] == s[k + 1]);
        }
        if n - 1 < t.len() {
            assert(t[n - 1] == s[n]);
        }
        lemma_leading_ws_char(t, n - 1);
    }
}

/// Characterizes `trailing_ws` by its defining properties.
pub proof fn lemma_trailing_ws_char(s: Seq<char>, n: int)
    requires
        0 <= n <= s.len(),
        forall|k: int| s.len() - n <= k < s.len() ==> is_ws(s[k]),
        n < s.len() ==> !is_ws(s[s.len() - n - 1]),
    ensures
        trailing_ws(s) == n,
    decreases s.len(),
{
    if n > 0 {
        let t = s.drop_last();
        assert forall|k: int| t.len() - (n - 1) <= k < t.len() implies is_ws(t[k]) by {
            assert(t[k] == s[k]);
        }
        if n - 1 < t.len() {
            assert(t[t.len() - (n - 1) - 1] == s[s.len() - n - 1]);
        }
        lemma_trailing_ws_char(t, n - 1);
    }
}

/// Bounds `[start, end)` of the trimmed part of `v` (positions in `v`).
pub fn trim_bounds(v: &Vec<char>) -> (r: (usize, usize))
    ensures
        r.0 <= r.1 <= v.len(),
        v@.subrange(r.0 as int, r.1 as int) == trim_seq(v@),
        r.0 as int == leading_ws(v@),
{
    let mut a: usize = 0;
    while a < v.len() && is_ws_exec(v[a])
        invariant
            a <= v.len(),
            forall|k: int| 0 <= k < a ==> is_ws(v@[k]),
        decreases v.len() - a,
    {
        a += 1;
    }
    proof {
        lemma_leading_ws_char(v@, a as int);
    }
    let mut b: usize = v.len();
    while b > a && is_ws_exec(v[b - 1])
        invariant
            a <= b <= v.len(),
            forall|k: int| b <= k < v.len() ==> is_ws(v@[k]),
        decreases b,
    {
        b -= 1;
    }
    proof {
        let t = v@.skip(a as int);
        assert forall|k: int| t.len() - (v.len() - b) <= k < t.len() implies is_ws(t[k]) by {
            assert(t[k] == v@[k + a]);
        }
        if (v.len() - b) < t.len() {
            assert(t[t.len() - (v.len() - b) - 1] == v@[b - 1]);
        }
        lemma_trailing_ws_char(t, (v.len() - b) as int);
        assert(trim_seq(v@) =~= v@.subrange(a as int, b as int));
    }
    (a, b)
}

/// The characters of `v` between positions `a` and `b`.
pub fn slice_chars(v: &Vec<char>, a: usize, b: usize) -> (r: Vec<char>)
    requires
        a <= b <= v.len(),
    ensures
        r@ == v@.subrange(a as int, b as int),
{
    let mut r: Vec<char> = Vec::new();
    let mut i: usize = a;
    while i < b
        invariant
            a <= i <= b <= v.len(),
            r@ == v@.subrange(a as int, i as int),
        decreases b - i,
    {
        r.push(v[i]);
        assert(v@.subrange(a as int, i + 1) =~= v@.subrange(a as int, i as int).push(v@[i as int]));
        i += 1;
    }
    r
}

/// `v` without leading and trailing white space.
pub fn trim_chars(v: &Vec<char>) -> (r: Vec<char>)
    ensures
        r@ == trim_seq(v@),
{
    let (a, b) = trim_bounds(v);
    slice_chars(v, a, b)
}

/// A string slice without leading and trailing white space (`str::trim`).
pub fn trim(s: &str) -> (r: String)
    ensures
        r@ == trim_seq(s@),
{
    let v = chars_of(s);
    let t = trim_chars(&v);
    string_of(&t)
}

/// Whether a string is empty or made of white space only (`s.trim().is_empty()`).
pub fn is_blank(s: &str) -> (r: bool)
    ensures
        r == (trim_seq(s@).len() == 0),
{
    let v = chars_of(s);
    let (a, b) = trim_bounds(&v);
    a == b
}

// ---------------------------------------------------------------------------
// Trimming a given character
// ---------------------------------------------------------------------------

/// Number of leading occurrences of `c` in `s`.
pub open spec fn leading_run(s: Seq<char>, c: char) -> int
    decreases s.len(),
{
    if s.len() > 0 && s[0] == c {
        1 + leading_run(s.drop_first(), c)
    } else {
        0
    }
}

/// Number of trailing occurrences of `c` in `s`.
pub open spec fn trailing_run(s: Seq<char>, c: char) -> int
    decreases s.len(),
{
    if s.len() > 0 && s.last() == c {
        1 + trailing_run(s.drop_last(), c)
    } else {
        0
    }
}

/// `s` with every leading and trailing `c` removed (`str::trim_matches(c)`).
pub open spec fn strip_char_seq(s: Seq<char>, c: char) -> Seq<char> {
    let t = s.skip(leading_run(s, c));
    t.take(t.len() - trailing_run(t, c))
}

proof fn lemma_leading_run_char(s: Seq<char>, c: char, n: int)
    requires
        0 <= n <= s.len(),
        forall|k: int| 0 <= k < n ==> s[k] == c,
        n < s.len() ==> s[n] != c,
    ensures
        leading_run(s, c) == n,
    decreases s.len(),
{
    if n > 0 {
        let t = s.drop_first();
        assert forall|k: int| 0 <= k < n - 1 implies t[k] == c by {
            assert(t[k] == s[k + 1]);
        }
        if n - 1 < t.len() {
            assert(t[n - 1] == s[n]);
        }
        lemma_leading_run_char(t, c, n - 1);
    }
}

proof fn lemma_trailing_run_char(s: Seq<char>, c: char, n: int)
    requires
        0 <= n <= s.len(),
        forall|k: int| s.len() - n <= k < s.len() ==> s[k] == c,
        n < s.len() ==> s[s.len() - n - 1] != c,
    ensures
        trailing_run(s, c) == n,
    decreases s.len(),
{
    if n > 0 {
        let t = s.drop_last();
        assert forall|k: int| t.len() - (n - 1) <= k < t.len() implies t[k] == c by {
            assert(t[k] == s[k]);
        }
        if n - 1 < t.len() {
            assert(t[t.len() - (n - 1) - 1] == s[s.len() - n - 1]);
        }
        lemma_trailing_run_char(t, c, n - 1);
    }
}

/// A string slice with every leading and trailing `c` removed.
pub fn strip_char(s: &str, c: char) -> (r: String)
    ensures
        r@ == strip_char_seq(s@, c),
{
    let v = chars_of(s);
    let mut a: usize = 0;
    while a < v.len() && v[a] == c
        invariant
            a <= v.len(),
            forall|k: int| 0 <= k < a ==> v@[k] == c,
        decreases v.len() - a,
    {
        a += 1;
    }
    proof {
        lemma_leading_run_char(v@, c, a as int);
    }
    let mut b: usize = v.len();
    while b > a && v[b - 1] == c
        invariant
            a <= b <= v.len(),
            forall|k: int| b <= k < v.len() ==> v@[k] == c,
        decreases b,
    {
        b -= 1;
    }
    proof {
        let t = v@.skip(a as int);
        assert forall|k: int| t.len() - (v.len() - b) <= k < t.len() implies t[k] == c by {
            assert(t[k] == v@[k + a]);
        }
        if (v.len() - b) < t.len() {
            assert(t[t.len() - (v.len() - b) - 1] == v@[b - 1]);
        }
        lemma_trailing_run_char(t, c, (v.len() - b) as int);
        assert(strip_char_seq(v@, c) =~= v@.subrange(a as int, b as int));
    }
    let w = slice_chars(&v, a, b);
    string_of(&w)
}

/// The first `n` characters of `s` (all of it when shorter).
pub open spec fn prefix_seq(s: Seq<char>, n: int) -> Seq<char> {
    if s.len() <= n {
        s
    } else {
        s.take(n)
    }
}

/// The first `n` characters of a string (`s.chars().take(n).collect()`).
pub fn prefix_chars(s: &str, n: usize) -> (r: String)
    ensures
        r@ == prefix_seq(s@, n as int),
{
    let v = chars_of(s);
    if v.len() <= n {
        string_of(&v)
    } else {
        let w = slice_chars(&v, 0, n);
        assert(w@ =~= v@.take(n as int));
        string_of(&w)
    }
}

/// Strings joined with a separator between consecutive items.
pub open spec fn join_seq(items: Seq<Seq<char>>, sep: Seq<char>) -> Seq<char>
    decreases items.len(),
{
    if items.len() == 0 {
        Seq::empty()
    } else if items.len() == 1 {
        items[0]
    } else {
        join_seq(items.drop_last(), sep) + sep + items.last()
    }
}

/// Strings joined with a separator (`[String]::join`).
pub fn join(items: &Vec<String>, sep: &str) -> (r: String)
    ensures
        r@ == join_seq(views(items@), sep@),
{
    let mut out = String::new();
    let mut i: usize = 0;
    while i < items.len()
        invariant
            i <= items.len(),
            out@ == join_seq(views(items@).take(i as int), sep@),
        decreases items.len() - i,
    {
        let ghost w = views(items@);
        assert(w.take(i + 1).drop_last() =~= w.take(i as int));
        assert(w.take(i + 1).last() == items@[i as int]@);
        if i > 0 {
            push_str(&mut out, sep);
        } else {
            assert(w.take(1)[0] == items@[0]@);
        }
        push_str(&mut out, items[i].as_str());
        i += 1;
    }
    assert(views(items@).take(items.len() as int) =~= views(items@));
    out
}

/// `s` with every occurrence of `from` (scanning left to right, without
/// overlaps) replaced by `to` (`str::replace` with a non-empty pattern).
pub open spec fn replace_seq(s: Seq<char>, from: Seq<char>, to: Seq<char>) -> Seq<char>
    decreases s.len(),
{
    if from.len() == 0 || s.len() < from.len() {
        s
    } else if s.take(from.len() as int) == from {
        to + replace_seq(s.skip(from.len() as int), from, to)
    } else {
        seq![s[0]] + replace_seq(s.drop_first(), from, to)
    }
}

/// Replaces every occurrence of a non-empty pattern (`str::replace`).
pub fn replace_all(s: &str, from: &str, to: &str) -> (r: String)
    requires
        from@.len() > 0,
    ensures
        r@ == replace_seq(s@, from@, to@),
{
    let v = chars_of(s);
    let f = chars_of(from);
    let mut out = String::new();
    let mut i: usize = 0;
    assert(v@.skip(0) =~= v@);
    while i < v.len()
        invariant
            i <= v.len(),
            f@ == from@,
            f@.len() > 0,
            out@ + replace_seq(v@.skip(i as int), f@, to@) == replace_seq(v@, f@, to@),
        decreases v.len() - i,
    {
        let ghost rest = v@.skip(i as int);
        if v.len() - i >= f.len() && occurs_at_exec(&v, &f, i) {
            assert(rest.take(f@.len() as int) =~= v@.subrange(i as int, i + f@.len()));
            assert(rest.skip(f@.len() as int) =~= v@.skip(i + f@.len()));
            let ghost before = out@;
            push_str(&mut out, to);
            assert(before + replace_seq(rest, f@, to@) =~= out@ + replace_seq(
                v@.skip(i + f@.len()),
                f@,
                to@,
            ));
            i = i + f.len();
        } else {
            if v.len() - i >= f.len() {
                assert(rest.take(f@.len() as int) != f@) by {
                    if rest.take(f@.len() as int) == f@ {
                        assert(v@.subrange(i as int, i + f@.len()) =~= rest.take(f@.len() as int));
                    }
                }
            }
            if v.len() - i < f.len() {
                assert(replace_seq(rest, f@, to@) == rest);
                let ghost before = out@;
                let tail = slice_chars(&v, i, v.len());
                push_chars(&mut out, &tail);
                assert(tail@ =~= rest);
                assert(v@.skip(v.len() as int) =~= Seq::<char>::empty());
                assert(out@ + replace_seq(v@.skip(v.len() as int), f@, to@) =~= before + rest);
                i = v.len();
            } else {
                assert(rest.drop_first() =~= v@.skip(i + 1));
                let ghost before = out@;
                push_char(&mut out, v[i]);
                assert(before + replace_seq(rest, f@, to@) =~= out@ + replace_seq(
                    v@.skip(i + 1),
                    f@,
                    to@,
                ));
                i = i + 1;
            }
        }
    }
    assert(v@.skip(v.len() as int) =~= Seq::<char>::empty());
    assert(v@.skip(0) =~= v@);
    out
}

// ---------------------------------------------------------------------------
// Vectors of strings
// ---------------------------------------------------------------------------

/// The views of a sequence of strings.
pub open spec fn views(v: Seq<String>) -> Seq<Seq<char>> {
    v.map_values(|x: String| x@)
}

/// The views of a sequence of string slices.
pub open spec fn str_views(v: Seq<&str>) -> Seq<Seq<char>> {
    v.map_values(|x: &str| x@)
}

/// Owned copies of a list of string slices.
pub fn owned_strings(v: &Vec<&str>) -> (r: Vec<String>)
    ensures
        views(r@) == str_views(v@),
{
    let mut r: Vec<String> = Vec::new();
    let mut i: usize = 0;
    while i < v.len()
        invariant
            i <= v.len(),
            r@.len() == i,
            forall|j: int| 0 <= j < i ==> #[trigger] r@[j]@ == v@[j]@,
        decreases v.len() - i,
    {
        let x = to_owned(v[i]);
        r.push(x);
        i += 1;
    }
    assert(views(r@) =~= str_views(v@));
    r
}

/// Whether a list of strings holds `x`.
pub fn contains_string(v: &Vec<String>, x: &str) -> (r: bool)
    ensures
        r == views(v@).contains(x@),
{
    let mut i: usize = 0;
    while i < v.len()
        invariant
            i <= v.len(),
            forall|k: int| 0 <= k < i ==> v@[k]@ != x@,
        decreases v.len() - i,
    {
        if str_eq(v[i].as_str(), x) {
            assert(views(v@)[i as int] == x@);
            return true;
        }
        i += 1;
    }
    assert forall|k: int| 0 <= k < views(v@).len() implies views(v@)[k] != x@ by {
        assert(views(v@)[k] == v@[k]@);
    }
    false
}

/// Copies of a list of strings.
pub fn clone_strings(v: &Vec<String>) -> (r: Vec<String>)
    ensures
        views(r@) == views(v@),
{
    let mut r: Vec<String> = Vec::new();
    let mut i: usize = 0;
    while i < v.len()
        invariant
            i <= v.len(),
            r@.len() == i,
            forall|j: int| 0 <= j < i ==> #[trigger] r@[j]@ == v@[j]@,
        decreases v.len() - i,
    {
        let x = v[i].clone();
        r.push(x);
        i += 1;
    }
    assert(views(r@) =~= views(v@));
    r
}

// ---------------------------------------------------------------------------
// Decimal numbers
// ---------------------------------------------------------------------------

/// The ASCII digit for a value below ten.
pub open spec fn digit_char(d: int) -> char {
    (('0' as int) + d) as char
}

/// Decimal representation of a natural number, as `format!("{}", n)` writes it.
pub open spec fn decimal(n: nat) -> Seq<char>
    decreases n,
{
    if n < 10 {
        seq![digit_char(n as int)]
    } else {
        decimal(n / 10).push(digit_char((n % 10) as int))
    }
}

fn digit_exec(d: u64) -> (c: char)
    requires
        d < 10,
    ensures
        c == digit_char(d as int),
{
    if d == 0 { '0' }
    else if d == 1 { '1' }
    else if d == 2 { '2' }
    else if d == 3 { '3' }
    else if d == 4 { '4' }
    else if d == 5 { '5' }
    else if d == 6 { '6' }
    else if d == 7 { '7' }
    else if d == 8 { '8' }
    else { '9' }
}

/// Appends the decimal representation of `n` to `s`.
pub fn push_decimal(s: &mut String, n: u64)
    ensures
        final(s)@ == old(s)@ + decimal(n as nat),
    decreases n,
{
    if n < 10 {
        push_char(s, digit_exec(n));
        assert(old(s)@.push(digit_char(n as int)) =~= old(s)@ + decimal(n as nat));
    } else {
        push_decimal(s, n / 10);
        push_char(s, digit_exec(n % 10));
        assert(s@ =~= old(s)@ + decimal(n as nat));
    }
}

/// The decimal representation of `n`.
pub fn decimal_string(n: u64) -> (r: String)
    ensures
        r@ == decimal(n as nat),
{
    let mut s = String::new();
    push_decimal(&mut s, n);
    assert(s@ =~= decimal(n as nat));
    s
}

/// An ASCII decimal digit.
pub open spec fn is_digit(c: char) -> bool {
    '0' <= c <= '9'
}

/// Value of the digit string `s` (all characters are digits).
pub open spec fn digits_value(s: Seq<char>) -> int
    decreases s.len(),
{
    if s.len() == 0 {
        0
    } else {
        digits_value(s.drop_last()) * 10 + (s.last() as int - '0' as int)
    }
}

/// Every character of `s` is a decimal digit.
pub open spec fn all_digits(s: Seq<char>) -> bool {
    forall|i: int| 0 <= i < s.len() ==> is_digit(#[trigger] s[i])
}

/// The digits that `usize::from_str` reads: an optional leading `+` is skipped.
pub open spec fn unsigned_digits(s: Seq<char>) -> Seq<char> {
    if s.len() > 0 && s[0] == '+' {
        s.drop_first()
    } else {
        s
    }
}

/// What `s.parse::<usize>()` gives: the value when `s` is an optional `+`
/// followed by one or more decimal digits whose value fits in `usize`.
pub open spec fn parse_usize_spec(s: Seq<char>) -> Option<int> {
    let d = unsigned_digits(s);
    if d.len() > 0 && all_digits(d) && digits_value(d) <= usize::MAX {
        Some(digits_value(d))
    } else {
        None
    }
}

proof fn lemma_digits_value_nonneg(s: Seq<char>)
    requires
        all_digits(s),
    ensures
        digits_value(s) >= 0,
    decreases s.len(),
{
    if s.len() > 0 {
        assert(all_digits(s.drop_last())) by {
            assert forall|i: int| 0 <= i < s.drop_last().len() implies is_digit(
                #[trigger] s.drop_last()[i],
            ) by {
                assert(s.drop_last()[i] == s[i]);
            }
        }
        lemma_digits_value_nonneg(s.drop_last());
        assert(is_digit(s[s.len() - 1]));
    }
}

proof fn lemma_digits_value_mono(s: Seq<char>, k: int)
    requires
        all_digits(s),
        0 <= k <= s.len(),
    ensures
        digits_value(s.take(k)) <= digits_value(s),
    decreases s.len(),
{
    if k < s.len() {
        let t = s.drop_last();
        assert(all_digits(t)) by {
            assert forall|i: int| 0 <= i < t.len() implies is_digit(#[trigger] t[i]) by {
                assert(t[i] == s[i]);
            }
        }
        lemma_digits_value_mono(t, k);
        assert(t.take(k) =~= s.take(k));
        lemma_digits_value_nonneg(t);
        assert(is_digit(s[s.len() - 1]));
    } else {
        assert(s.take(k) =~= s);
    }
}

/// Parses an unsigned decimal number as `str::parse::<usize>` does.
pub fn parse_usize(s: &str) -> (r: Option<usize>)
    ensures
        match r {
            Some(v) => parse_usize_spec(s@) == Some(v as int),
            None => parse_usize_spec(s@).is_none(),
        },
{
    let v = chars_of(s);
    let start: usize = if v.len() > 0 && v[0] == '+' { 1 } else { 0 };
    let ghost d = unsigned_digits(s@);
    assert(d =~= v@.skip(start as int));
    if start >= v.len() {
        return None;
    }
    let mut acc: usize = 0;
    let mut i: usize = start;
    while i < v.len()
        invariant
            start <= i <= v.len(),
            d == unsigned_digits(s@),
            d =~= v@.skip(start as int),
            all_digits(d.take(i - start)),
            acc as int == digits_value(d.take(i - start)),
        decreases v.len() - i,
    {
        let c = v[i];
        if !('0' <= c && c <= '9') {
            assert(d[i - start] == c);
            assert(!is_digit(d[i - start]));
            assert(!all_digits(d));
            assert(parse_usize_spec(s@).is_none());
            return None;
        }
        let dv: usize = (c as u32 - '0' as u32) as usize;
        assert(d.take(i + 1 - start).drop_last() =~= d.take(i - start));
        assert(d.take(i + 1 - start).last() == c);
        if acc > (usize::MAX - dv) / 10 {
            proof {
                assert(all_digits(d.take(i + 1 - start))) by {
                    assert forall|j: int| 0 <= j < d.take(i + 1 - start).len() implies is_digit(
                        #[trigger] d.take(i + 1 - start)[j],
                    ) by {
                        if j < i - start {
                            assert(d.take(i + 1 - start)[j] == d.take(i - start)[j]);
                        }
                    }
                }
                assert(digits_value(d.take(i + 1 - start)) > usize::MAX) by (nonlinear_arith)
                    requires
                        digits_value(d.take(i + 1 - start)) == acc * 10 + dv,
                        acc > (usize::MAX - dv) / 10,
                        dv <= 9,
                {
                }
                if all_digits(d) {
                    lemma_digits_value_mono(d, i + 1 - start);
                    assert(digits_value(d) > usize::MAX);
                }
                assert(parse_usize_spec(s@).is_none());
            }
            return None;
        }
        assert(acc * 10 + dv <= usize::MAX) by (nonlinear_arith)
            requires
                acc <= (usize::MAX - dv) / 10,
                dv <= 9,
        ;
        acc = acc * 10 + dv;
        assert(all_digits(d.take(i + 1 - start))) by {
            assert forall|j: int| 0 <= j < d.take(i + 1 - start).len() implies is_digit(
                #[trigger] d.take(i + 1 - start)[j],
            ) by {
                if j < i - start {
                    assert(d.take(i + 1 - start)[j] == d.take(i - start)[j]);
                }
            }
        }
        i += 1;
    }
    assert(d.take(i - start) =~= d);
    Some(acc)
}

/// Why `str::parse::<usize>` refuses a text (`std::num::IntErrorKind`).
#[derive(Debug, Clone, Copy, PartialEq, Eq, Structural)]
pub enum IntErrorKind {
    Empty,
    InvalidDigit,
    PosOverflow,
}

/// The text `ParseIntError` displays for each kind.
pub open spec fn int_error_text(k: IntErrorKind) -> Seq<char> {
    match k {
        IntErrorKind::Empty => "cannot parse integer from empty string"@,
        IntErrorKind::InvalidDigit => "invalid digit found in string"@,
        IntErrorKind::PosOverflow => "number too large to fit in target type"@,
    }
}

/// Displays a parse error kind.
pub fn int_error_message(k: IntErrorKind) -> (r: String)
    ensures
        r@ == int_error_text(k),
{
    match k {
        IntErrorKind::Empty => to_owned("cannot parse integer from empty string"),
        IntErrorKind::InvalidDigit => to_owned("invalid digit found in string"),
        IntErrorKind::PosOverflow => to_owned("number too large to fit in target type"),
    }
}

/// Reads the digits `d[k..]` after a prefix worth `acc`, left to right, and
/// reports the first refusal: a character that is no digit, or a digit that
/// takes the value past `usize::MAX`.
pub open spec fn digit_scan(d: Seq<char>, k: int, acc: int) -> Option<IntErrorKind>
    decreases d.len() - k,
{
    if k < 0 || k >= d.len() {
        None
    } else if !is_digit(d[k]) {
        Some(IntErrorKind::InvalidDigit)
    } else if acc * 10 + (d[k] as int - '0' as int) > usize::MAX {
        Some(IntErrorKind::PosOverflow)
    } else {
        digit_scan(d, k + 1, acc * 10 + (d[k] as int - '0' as int))
    }
}

/// Why `s.parse::<usize>()` fails, if it does.
pub open spec fn usize_parse_error(s: Seq<char>) -> Option<IntErrorKind> {
    if s.len() == 0 {
        Some(IntErrorKind::Empty)
    } else if unsigned_digits(s).len() == 0 {
        Some(IntErrorKind::InvalidDigit)
    } else {
        digit_scan(unsigned_digits(s), 0, 0)
    }
}

/// Parses an unsigned decimal number as `str::parse::<usize>` does, and says
/// why where it fails.
pub fn parse_usize_checked(s: &str) -> (r: Result<usize, IntErrorKind>)
    ensures
        match r {
            Ok(v) => usize_parse_error(s@) is None && parse_usize_spec(s@) == Some(v as int),
            Err(k) => usize_parse_error(s@) == Some(k),
        },
{
    let v = chars_of(s);
    if v.len() == 0 {
        return Err(IntErrorKind::Empty);
    }
    let start: usize = if v[0] == '+' { 1 } else { 0 };
    let ghost d = unsigned_digits(s@);
    assert(d =~= v@.skip(start as int));
    if start >= v.len() {
        return Err(IntErrorKind::InvalidDigit);
    }
    let mut acc: usize = 0;
    let mut i: usize = start;
    assert(d.take(0) =~= Seq::<char>::empty());
    while i < v.len()
        invariant
            start <= i <= v.len(),
            d == unsigned_digits(s@),
            d =~= v@.skip(start as int),
            d.len() > 0,
            s@.len() > 0,
            all_digits(d.take(i - start)),
            acc as int == digits_value(d.take(i - start)),
            digit_scan(d, 0, 0) == digit_scan(d, i - start, acc as int),
        decreases v.len() - i,
    {
        let c = v[i];
        assert(d[i - start] == c);
        if !('0' <= c && c <= '9') {
            return Err(IntErrorKind::InvalidDigit);
        }
        let dv: usize = (c as u32 - '0' as u32) as usize;
        assert(d.take(i + 1 - start).drop_last() =~= d.take(i - start));
        assert(d.take(i + 1 - start).last() == c);
        if acc > (usize::MAX - dv) / 10 {
            assert(acc * 10 + dv > usize::MAX) by (nonlinear_arith)
                requires
                    acc > (usize::MAX - dv) / 10,
                    dv <= 9,
            ;
            return Err(IntErrorKind::PosOverflow);
        }
        assert(acc * 10 + dv <= usize::MAX) by (nonlinear_arith)
            requires
                acc <= (usize::MAX - dv) / 10,
                dv <= 9,
        ;
        acc = acc * 10 + dv;
        assert(all_digits(d.take(i + 1 - start))) by {
            assert forall|j: int| 0 <= j < d.take(i + 1 - start).len() implies is_digit(
                #[trigger] d.take(i + 1 - start)[j],
            ) by {
                if j < i - start {
                    assert(d.take(i + 1 - start)[j] == d.take(i - start)[j]);
                }
            }
        }
        i += 1;
    }
    assert(d.take(i - start) =~= d);
    Ok(acc)
}

/// The pieces of `s` between the occurrences of `c` (`str::split` with a
/// character): always at least one, possibly empty.
pub open spec fn split_seq(s: Seq<char>, c: char) -> Seq<Seq<char>>
    decreases s.len(),
{
    if s.len() == 0 {
        seq![Seq::<char>::empty()]
    } else {
        let init = split_seq(s.drop_last(), c);
        if s.last() == c {
            init.push(Seq::<char>::empty())
        } else {
            init.update(init.len() - 1, init.last().push(s.last()))
        }
    }
}

/// Splitting always gives at least one piece.
pub proof fn lemma_split_nonempty(s: Seq<char>, c: char)
    ensures
        split_seq(s, c).len() >= 1,
    decreases s.len(),
{
    if s.len() > 0 {
        lemma_split_nonempty(s.drop_last(), c);
    }
}

proof fn lemma_join_extend_last(items: Seq<Seq<char>>, sep: Seq<char>, x: char)
    requires
        items.len() >= 1,
    ensures
        join_seq(items.update(items.len() - 1, items.last().push(x)), sep) == join_seq(items, sep).push(x),
{
    let u = items.update(items.len() - 1, items.last().push(x));
    if items.len() >= 2 {
        assert(u.drop_last() =~= items.drop_last());
        assert(join_seq(u, sep) == join_seq(u.drop_last(), sep) + sep + u.last());
        assert(join_seq(items.drop_last(), sep) + sep + items.last().push(x) =~= (join_seq(
            items.drop_last(),
            sep,
        ) + sep + items.last()).push(x));
    }
}

/// Splitting at a character and joining the pieces with it gives the text
/// back.
pub proof fn lemma_split_join_roundtrip(s: Seq<char>, c: char)
    ensures
        join_seq(split_seq(s, c), seq![c]) == s,
    decreases s.len(),
{
    if s.len() > 0 {
        let prev = s.drop_last();
        lemma_split_join_roundtrip(prev, c);
        lemma_split_nonempty(prev, c);
        let init = split_seq(prev, c);
        if s.last() == c {
            let r = init.push(Seq::<char>::empty());
            assert(r.drop_last() =~= init);
            assert(join_seq(r, seq![c]) == join_seq(init, seq![c]) + seq![c] + Seq::<char>::empty());
            assert(prev + seq![c] + Seq::<char>::empty() =~= s);
        } else {
            lemma_join_extend_last(init, seq![c], s.last());
            assert(prev.push(s.last()) =~= s);
        }
    } else {
        assert(split_seq(s, c) =~= seq![Seq::<char>::empty()]);
    }
}

/// Splits a string at each occurrence of a character.
pub fn split_char(s: &str, c: char) -> (r: Vec<String>)
    ensures
        views(r@) == split_seq(s@, c),
{
    let v = chars_of(s);
    let mut parts: Vec<String> = Vec::new();
    let mut cur: Vec<char> = Vec::new();
    let mut i: usize = 0;
    assert(v@.take(0) =~= Seq::<char>::empty());
    while i < v.len()
        invariant
            i <= v.len(),
            v@ == s@,
            views(parts@).push(cur@) == split_seq(v@.take(i as int), c),
        decreases v.len() - i,
    {
        proof {
            assert(v@.take(i + 1).drop_last() =~= v@.take(i as int));
            assert(v@.take(i + 1).last() == v@[i as int]);
            lemma_split_nonempty(v@.take(i as int), c);
        }
        if v[i] == c {
            let piece = string_of(&cur);
            let ghost old_parts = views(parts@);
            parts.push(piece);
            cur = Vec::new();
            assert(views(parts@) =~= old_parts.push(piece@));
            assert(views(parts@).push(cur@) =~= split_seq(v@.take(i + 1), c));
        } else {
            let ghost before = views(parts@).push(cur@);
            cur.push(v[i]);
            assert(views(parts@).push(cur@) =~= before.update(before.len() - 1, before.last().push(
                v@[i as int],
            )));
        }
        i += 1;
    }
    let piece = string_of(&cur);
    let ghost old_parts = views(parts@);
    parts.push(piece);
    assert(v@.take(i as int) =~= s@);
    assert(views(parts@) =~= old_parts.push(piece@));
    parts
}

/// The words of `s`: its maximal runs of non-whitespace characters, in order
/// (`str::split_whitespace`).
pub open spec fn words_seq(s: Seq<char>) -> Seq<Seq<char>>
    decreases s.len(),
{
    if s.len() == 0 {
        Seq::empty()
    } else {
        let w = words_seq(s.drop_last());
        if is_ws(s.last()) {
            w
        } else if s.len() >= 2 && !is_ws(s[s.len() - 2]) && w.len() > 0 {
            w.update(w.len() - 1, w.last().push(s.last()))
        } else {
            w.push(seq![s.last()])
        }
    }
}

/// Splits a string into its words.
pub fn split_words(s: &str) -> (r: Vec<String>)
    ensures
        views(r@) == words_seq(s@),
{
    let v = chars_of(s);
    let mut out: Vec<String> = Vec::new();
    let mut cur: Vec<char> = Vec::new();
    let mut i: usize = 0;
    assert(v@.take(0) =~= Seq::<char>::empty());
    while i < v.len()
        invariant
            i <= v.len(),
            v@ == s@,
            cur@.len() > 0 ==> i > 0 && !is_ws(v@[i - 1]),
            cur@.len() == 0 ==> (i == 0 || is_ws(v@[i - 1])),
            (if cur@.len() > 0 {
                views(out@).push(cur@)
            } else {
                views(out@)
            }) == words_seq(v@.take(i as int)),
        decreases v.len() - i,
    {
        let c = v[i];
        let ghost t = v@.take(i + 1);
        assert(t.drop_last() =~= v@.take(i as int));
        assert(t.last() == c);
        if is_ws_exec(c) {
            if cur.len() > 0 {
                let piece = string_of(&cur);
                let ghost before = views(out@);
                out.push(piece);
                assert(views(out@) =~= before.push(piece@));
                cur = Vec::new();
            }
        } else {
            if cur.len() > 0 {
                assert(t[t.len() - 2] == v@[i - 1]);
                let ghost before = views(out@).push(cur@);
                cur.push(c);
                assert(views(out@).push(cur@) =~= before.update(before.len() - 1, before.last().push(c)));
            } else {
                if i > 0 {
                    assert(t[t.len() - 2] == v@[i - 1]);
                }
                cur.push(c);
                assert(cur@ =~= seq![c]);
            }
        }
        i += 1;
    }
    assert(v@.take(i as int) =~= s@);
    if cur.len() > 0 {
        let piece = string_of(&cur);
        let ghost before = views(out@);
        out.push(piece);
        assert(views(out@) =~= before.push(piece@));
    }
    out
}

// ---------------------------------------------------------------------------
// Case conversion
// ---------------------------------------------------------------------------

/// Every character is ASCII.
pub open spec fn is_ascii_seq(s: Seq<char>) -> bool {
    forall|i: int| 0 <= i < s.len() ==> (#[trigger] s[i] as int) < 128
}

/// An ASCII character in lower case: `A`..`Z` become `a`..`z`, the others
/// stay.
pub open spec fn ascii_lower(c: char) -> char {
    if 'A' <= c && c <= 'Z' {
        ((c as int) + 32) as char
    } else {
        c
    }
}

/// The lowercase form of a character sequence as `str::to_lowercase` gives it
/// (Unicode `Lowercase` mapping).
pub uninterp spec fn lowercase(s: Seq<char>) -> Seq<char>;

/// `str::to_lowercase`: the string with every character mapped to its
/// Unicode lowercase form. The mapping is named `lowercase` of the argument
/// and written out only for ASCII text, where each of `A`..`Z` becomes the
/// matching lower-case letter and every other character stays.
#[verifier::external_body]
pub(crate) fn to_lowercase(s: &str) -> (r: String)
    ensures
        r@ == lowercase(s@),
        is_ascii_seq(s@) ==> r@ == s@.map_values(|c: char| ascii_lower(c)),
{
    s.to_lowercase()
}

// ---------------------------------------------------------------------------
// Ordering
// ---------------------------------------------------------------------------

/// Lexicographic order on character sequences (the order `String` compares by:
/// UTF-8 byte order equals code-point order).
pub open spec fn seq_lt(a: Seq<char>, b: Seq<char>) -> bool
    decreases a.len(),
{
    if a.len() == 0 {
        b.len() > 0
    } else if b.len() == 0 {
        false
    } else if a[0] != b[0] {
        (a[0] as u32) < (b[0] as u32)
    } else {
        seq_lt(a.drop_first(), b.drop_first())
    }
}

/// `a` is ordered before or equal to `b`.
pub open spec fn seq_le(a: Seq<char>, b: Seq<char>) -> bool {
    a == b || seq_lt(a, b)
}

/// The order is irreflexive.
pub proof fn lemma_seq_lt_irrefl(a: Seq<char>)
    ensures
        !seq_lt(a, a),
    decreases a.len(),
{
    if a.len() > 0 {
        lemma_seq_lt_irrefl(a.drop_first());
    }
}

/// The order is transitive.
pub proof fn lemma_seq_lt_trans(a: Seq<char>, b: Seq<char>, c: Seq<char>)
    requires
        seq_lt(a, b),
        seq_lt(b, c),
    ensures
        seq_lt(a, c),
    decreases a.len(),
{
    if a.len() > 0 && b.len() > 0 && c.len() > 0 {
        if a[0] == b[0] && b[0] == c[0] {
            lemma_seq_lt_trans(a.drop_first(), b.drop_first(), c.drop_first());
        }
    }
}

/// Two different sequences are ordered one way or the other.
pub proof fn lemma_seq_lt_total(a: Seq<char>, b: Seq<char>)
    requires
        a != b,
    ensures
        seq_lt(a, b) || seq_lt(b, a),
    decreases a.len(),
{
    if a.len() == 0 {
        assert(b.len() > 0) by {
            if b.len() == 0 {
                assert(a =~= b);
            }
        }
    } else if b.len() > 0 && a[0] == b[0] {
        if a.drop_first() == b.drop_first() {
            assert(a =~= seq![a[0]] + a.drop_first());
            assert(b =~= seq![b[0]] + b.drop_first());
        }
        lemma_seq_lt_total(a.drop_first(), b.drop_first());
    } else if b.len() > 0 {
        let x = a[0] as u32;
        let y = b[0] as u32;
        char_u32_cast(a[0], x);
        char_u32_cast(b[0], y);
        assert(x != y);
    }
}

/// The order is asymmetric.
pub proof fn lemma_seq_lt_asym(a: Seq<char>, b: Seq<char>)
    requires
        seq_lt(a, b),
    ensures
        !seq_lt(b, a),
{
    if seq_lt(b, a) {
        lemma_seq_lt_trans(a, b, a);
        lemma_seq_lt_irrefl(a);
    }
}

/// Strictly increasing, hence sorted and without repeats.
pub open spec fn strictly_sorted(s: Seq<Seq<char>>) -> bool {
    forall|i: int, k: int| 0 <= i < k < s.len() ==> seq_lt(s[i], s[k])
}

/// Inserts a string into a strictly increasing list that lacks it, keeping the
/// list strictly increasing.
pub fn sorted_insert(v: &mut Vec<String>, x: String)
    requires
        strictly_sorted(views(old(v)@)),
        !views(old(v)@).contains(x@),
    ensures
        strictly_sorted(views(final(v)@)),
        views(final(v)@).to_set() == views(old(v)@).to_set().insert(x@),
        final(v)@.len() == old(v)@.len() + 1,
{
    let ghost o = views(v@);
    let mut p: usize = 0;
    while p < v.len() && !str_lt(x.as_str(), v[p].as_str())
        invariant
            p <= v.len(),
            v@.len() == o.len(),
            views(v@) == o,
            forall|i: int| 0 <= i < p ==> !seq_lt(x@, #[trigger] o[i]),
        decreases v.len() - p,
    {
        assert(o[p as int] == v@[p as int]@);
        p += 1;
    }
    let ghost xv = x@;
    v.insert(p, x);
    proof {
        let n = views(v@);
        assert(n =~= o.take(p as int).push(xv) + o.skip(p as int));
        assert forall|i: int| 0 <= i < p implies seq_lt(#[trigger] o[i], xv) by {
            assert(o[i] != xv) by {
                if o[i] == xv {
                    assert(o.contains(xv));
                }
            }
            lemma_seq_lt_total(o[i], xv);
        }
        if p < o.len() {
            assert(seq_lt(xv, o[p as int]));
        }
        assert forall|i: int, k: int| 0 <= i < k < n.len() implies seq_lt(n[i], n[k]) by {
            if k < p {
                assert(n[i] == o[i] && n[k] == o[k]);
            } else if k == p {
                assert(n[i] == o[i]);
            } else if i < p {
                assert(n[i] == o[i] && n[k] == o[k - 1]);
                if k - 1 > p {
                    lemma_seq_lt_trans(xv, o[p as int], o[k - 1]);
                }
                lemma_seq_lt_trans(o[i], xv, o[k - 1]);
            } else if i == p {
                assert(n[k] == o[k - 1]);
                if k - 1 > p {
                    lemma_seq_lt_trans(xv, o[p as int], o[k - 1]);
                }
            } else {
                assert(n[i] == o[i - 1] && n[k] == o[k - 1]);
            }
        }
        assert forall|y: Seq<char>| n.to_set().contains(y) == o.to_set().insert(xv).contains(y) by {
            broadcast use vstd::seq_lib::group_seq_properties;

            if n.contains(y) {
                let j = choose|j: int| 0 <= j < n.len() && n[j] == y;
                if j < p {
                    assert(o[j] == y);
                } else if j > p {
                    assert(o[j - 1] == y);
                }
            }
            if o.contains(y) {
                let j = choose|j: int| 0 <= j < o.len() && o[j] == y;
                if j < p {
                    assert(n[j] == y);
                } else {
                    assert(n[j + 1] == y);
                }
            }
            if y == xv {
                assert(n[p as int] == y);
            }
        }
        assert(n.to_set() =~= o.to_set().insert(xv));
    }
}

/// Compares two character vectors from position `i` on.
fn lt_from(a: &Vec<char>, b: &Vec<char>, i: usize) -> (r: bool)
    requires
        i <= a.len(),
        i <= b.len(),
    ensures
        r == seq_lt(a@.skip(i as int), b@.skip(i as int)),
    decreases a.len() - i,
{
    if i == a.len() {
        i < b.len()
    } else if i == b.len() {
        false
    } else if a[i] != b[i] {
        (a[i] as u32) < (b[i] as u32)
    } else {
        assert(a@.skip(i as int).drop_first() =~= a@.skip(i + 1));
        assert(b@.skip(i as int).drop_first() =~= b@.skip(i + 1));
        lt_from(a, b, i + 1)
    }
}

/// Whether `a` sorts strictly before `b`.
pub fn str_lt(a: &str, b: &str) -> (r: bool)
    ensures
        r == seq_lt(a@, b@),
{
    let x = chars_of(a);
    let y = chars_of(b);
    assert(x@.skip(0) =~= x@);
    assert(y@.skip(0) =~= y@);
    lt_from(&x, &y, 0)
}

} // verus!
