//! Context collected from the terminal environment, and the packs it is
//! handed to the model in.

pub mod pack;

use vstd::prelude::*;
use crate::text::{chars_of, string_of};

verus! {

/// What is known of the git repository the terminal is in.
#[derive(Debug, Clone, Default)]
pub struct GitContext {
    /// The directory is inside a repository.
    pub is_repo: bool,
    pub branch: Option<String>,
    /// Hash of the latest commit.
    pub commit: Option<String>,
    pub commit_message: Option<String>,
    pub untracked_count: Option<u32>,
    pub modified_count: Option<u32>,
    pub staged_count: Option<u32>,
    pub status_summary: Option<String>,
}

/// The part of `s` after its last `c` (all of `s` when there is none).
pub open spec fn after_last(s: Seq<char>, c: char) -> Seq<char>
    decreases s.len(),
{
    if s.len() == 0 {
        s
    } else if s.last() == c {
        Seq::empty()
    } else {
        after_last(s.drop_last(), c).push(s.last())
    }
}

/// The current user: `USER` when it is set, else `USERNAME` without a
/// `DOMAIN\\` prefix (the values the caller read; `None` when unset).
pub fn user_name(user: Option<String>, username: Option<String>) -> (r: Option<String>)
    ensures
        match user {
            Some(u) => r == Some(u),
            None => match username {
                Some(n) => r matches Some(x) && x@ == after_last(n@, '\\'),
                None => r is None,
            },
        },
{
    match user {
        Some(u) => Some(u),
        None => match username {
            Some(n) => Some(strip_domain(n.as_str())),
            None => None,
        },
    }
}

fn strip_domain(n: &str) -> (r: String)
    ensures
        r@ == after_last(n@, '\\'),
{
    let v = chars_of(n);
    let mut start: usize = 0;
    let mut i: usize = 0;
    while i < v.len()
        invariant
            i <= v.len(),
            start <= i,
            v@ == n@,
            after_last(v@.take(i as int), '\\') == v@.subrange(start as int, i as int),
        decreases v.len() - i,
    {
        let ghost t = v@.take(i + 1);
        assert(t.drop_last() =~= v@.take(i as int));
        if v[i] == '\\' {
            start = i + 1;
            assert(v@.subrange(start as int, (i + 1) as int) =~= Seq::<char>::empty());
        } else {
            assert(v@.subrange(start as int, (i + 1) as int) =~= v@.subrange(start as int, i as int).push(v@[i as int]));
        }
        i += 1;
    }
    assert(v@.take(v.len() as int) =~= v@);
    let mut out: Vec<char> = Vec::new();
    let mut k: usize = start;
    while k < v.len()
        invariant
            start <= k <= v.len(),
            out@ == v@.subrange(start as int, k as int),
        decreases v.len() - k,
    {
        out.push(v[k]);
        assert(v@.subrange(start as int, (k + 1) as int) =~= v@.subrange(start as int, k as int).push(v@[k as int]));
        k += 1;
    }
    string_of(&out)
}

} // verus!
