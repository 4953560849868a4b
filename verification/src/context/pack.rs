//! Context packs: titled pieces of context, and the terminal snapshot cut
//! to the budget of a context profile.

use vstd::prelude::*;
use crate::text::{
    byte_len, chars_of, concat, is_blank,
    push_str, str_len, string_of, to_owned, trim_seq,
};

verus! {

/// How much context the model is given.
#[derive(Debug, Clone, Copy, PartialEq, Eq, Structural)]
pub enum ContextProfile {
    Minimal,
    Balanced,
    Verbose,
}

/// A titled piece of context with an estimate of its size in tokens.
#[derive(Debug, Clone)]
pub struct ContextPack {
    pub title: String,
    pub content: String,
    /// A quarter of the content's bytes.
    pub token_estimate: usize,
}

impl ContextPack {
    /// A pack with its token estimate (bytes / 4).
    pub fn new(title: &str, content: String) -> (r: Self)
        requires
            byte_len(content@) <= usize::MAX,
        ensures
            r.title@ == title@,
            r.content@ == content@,
            r.token_estimate == byte_len(content@) / 4,
    {
        let n = str_len(content.as_str());
        ContextPack { title: to_owned(title), content, token_estimate: n / 4 }
    }

    /// The pack as a markdown section.
    pub fn render(&self) -> (r: String)
        ensures
            r@ == "\n\n## "@ + self.title@ + "\n"@ + self.content@,
    {
        let mut s = concat("\n\n## ", self.title.as_str());
        push_str(&mut s, "\n");
        push_str(&mut s, self.content.as_str());
        s
    }
}

/// The first position from `i` on where `c` occurs in `s` (`s.len()` when
/// none).
pub open spec fn first_char_from(s: Seq<char>, c: char, i: int) -> int
    decreases s.len() - i,
{
    if i < 0 || i >= s.len() {
        s.len() as int
    } else if s[i] == c {
        i
    } else {
        first_char_from(s, c, i + 1)
    }
}

/// The tail of `s` within `limit` characters: whole when it fits; otherwise
/// the last `limit` characters, without the partial first line when a line
/// break follows.
pub open spec fn tail_lines_spec(s: Seq<char>, limit: nat) -> Seq<char> {
    if s.len() <= limit {
        s
    } else {
        let slice = s.skip(s.len() - limit);
        let j = first_char_from(slice, '\n', 0);
        if j < slice.len() {
            slice.skip(j + 1)
        } else {
            slice
        }
    }
}

/// The character budget and label of a profile's terminal snapshot.
pub open spec fn snapshot_budget(p: ContextProfile) -> Option<(nat, Seq<char>)> {
    match p {
        ContextProfile::Minimal => None,
        ContextProfile::Balanced => Some((3000nat, "Terminal Snapshot (Recent)"@)),
        ContextProfile::Verbose => Some((12000nat, "Terminal Snapshot (Extended)"@)),
    }
}

/// Builds context packs for a profile.
#[derive(Debug, Clone, Copy)]
pub struct ContextBuilder {
    pub profile: ContextProfile,
}

fn tail_lines(content: &str, limit: usize) -> (r: String)
    ensures
        r@ == tail_lines_spec(content@, limit as nat),
        byte_len(r@) <= byte_len(content@),
{
    let v = chars_of(content);
    if v.len() <= limit {
        return to_owned(content);
    }
    let start = v.len() - limit;
    let ghost slice = content@.skip(start as int);
    let mut i = start;
    while i < v.len() && v[i] != '\n'
        invariant
            start <= i <= v.len(),
            v@ == content@,
            slice == content@.skip(start as int),
            first_char_from(slice, '\n', 0) == first_char_from(slice, '\n', i - start),
        decreases v.len() - i,
    {
        assert(slice[i - start] == v@[i as int]);
        i += 1;
    }
    let from = if i < v.len() {
        assert(slice[i - start] == v@[i as int]);
        i + 1
    } else {
        start
    };
    let mut w: Vec<char> = Vec::new();
    let mut k = from;
    while k < v.len()
        invariant
            from <= k <= v.len(),
            w@ == v@.subrange(from as int, k as int),
        decreases v.len() - k,
    {
        w.push(v[k]);
        k += 1;
    }
    assert(w@ =~= tail_lines_spec(content@, limit as nat));
    proof {
        assert(w@ =~= content@.skip(from as int));
        crate::text::lemma_byte_len_suffix(content@, from as int);
    }
    string_of(&w)
}

impl ContextBuilder {
    /// A builder for a profile.
    pub fn new(profile: ContextProfile) -> (r: Self)
        ensures
            r.profile == profile,
    {
        ContextBuilder { profile }
    }

    /// The terminal snapshot pack: none for the minimal profile or where
    /// the cut screen is blank; else the screen's tail within the budget.
    pub fn build_terminal_pack(&self, terminal_content: &str) -> (r: Option<ContextPack>)
        requires
            byte_len(terminal_content@) <= usize::MAX,
        ensures
            match snapshot_budget(self.profile) {
                None => r is None,
                Some((limit, label)) => {
                    let t = tail_lines_spec(terminal_content@, limit);
                    if trim_seq(t).len() == 0 {
                        r is None
                    } else {
                        r matches Some(p) && p.title@ == label && p.content@ == t && p.token_estimate
                            == byte_len(t) / 4
                    }
                },
            },
    {
        let (limit, label): (usize, &str) = match self.profile {
            ContextProfile::Minimal => return None,
            ContextProfile::Balanced => (3000, "Terminal Snapshot (Recent)"),
            ContextProfile::Verbose => (12000, "Terminal Snapshot (Extended)"),
        };
        let t = tail_lines(terminal_content, limit);
        if is_blank(t.as_str()) {
            return None;
        }
        Some(ContextPack::new(label, t))
    }
}

/// The terminal snapshot never exceeds its budget: what is kept of a
/// screen is a suffix of it of at most `limit` characters.
pub proof fn lemma_tail_within_budget(s: Seq<char>, limit: nat)
    ensures
        tail_lines_spec(s, limit).len() <= limit,
        tail_lines_spec(s, limit) == s.skip(s.len() - tail_lines_spec(s, limit).len()),
{
    let t = tail_lines_spec(s, limit);
    if s.len() > limit {
        let slice = s.skip(s.len() - limit);
        let j = first_char_from(slice, '\n', 0);
        lemma_first_char_from_range(slice, '\n', 0);
        if j < slice.len() {
            assert(t =~= s.skip(s.len() - t.len()));
        } else {
            assert(t =~= s.skip(s.len() - t.len()));
        }
    } else {
        assert(s.skip(0) =~= s);
    }
}

proof fn lemma_first_char_from_range(s: Seq<char>, c: char, i: int)
    requires
        0 <= i,
    ensures
        i <= first_char_from(s, c, i) <= s.len() || first_char_from(s, c, i) == s.len(),
        first_char_from(s, c, i) >= 0,
    decreases s.len() - i,
{
    if i < s.len() && s[i] != c {
        lemma_first_char_from_range(s, c, i + 1);
    }
}

} // verus!
