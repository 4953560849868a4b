//! How memory enters the agent's context: the recent journal entries, and
//! the memories found for the user's request.

use vstd::prelude::*;
use crate::config::endpoints::MessageRole;
use crate::text::{chars_of, concat, decimal, push_decimal, push_str, string_of, to_owned};

verus! {

/// A journal entry as the hot memory shows it.
#[derive(Debug, Clone)]
pub struct JournalLine {
    pub timestamp: String,
    pub entry_type: String,
    pub content: String,
}

/// A stored memory as the context shows it.
#[derive(Debug, Clone)]
pub struct MemoryLine {
    /// The memory's type.
    pub kind: String,
    pub content: String,
    /// When it was made, formatted ("unknown time" when unknown).
    pub time_text: String,
}

/// The first line of a text (`str::lines().next()`, the whole text when it
/// has no line break): up to the first `\n`, without a `\r` before it.
pub open spec fn first_line(s: Seq<char>) -> Seq<char> {
    let j = crate::context::pack::first_char_from(s, '\n', 0);
    if j < s.len() {
        let l = s.take(j);
        if l.len() > 0 && l.last() == '\r' {
            l.drop_last()
        } else {
            l
        }
    } else {
        s
    }
}

fn first_line_of(s: &str) -> (r: String)
    ensures
        r@ == first_line(s@),
{
    let v = chars_of(s);
    let mut i: usize = 0;
    while i < v.len() && v[i] != '\n'
        invariant
            i <= v.len(),
            v@ == s@,
            crate::context::pack::first_char_from(s@, '\n', 0)
                == crate::context::pack::first_char_from(s@, '\n', i as int),
        decreases v.len() - i,
    {
        i += 1;
    }
    if i >= v.len() {
        return to_owned(s);
    }
    let end = if i > 0 && v[i - 1] == '\r' {
        i - 1
    } else {
        i
    };
    let mut w: Vec<char> = Vec::new();
    let mut k: usize = 0;
    while k < end
        invariant
            k <= end <= v.len(),
            w@ == v@.take(k as int),
        decreases end - k,
    {
        w.push(v[k]);
        k += 1;
    }
    assert(w@ =~= first_line(s@));
    string_of(&w)
}

/// "- [timestamp] type: first line\n" for each entry, in order.
pub open spec fn journal_lines(entries: Seq<JournalLine>) -> Seq<char>
    decreases entries.len(),
{
    if entries.len() == 0 {
        Seq::empty()
    } else {
        let e = entries.last();
        journal_lines(entries.drop_last()) + "- ["@ + e.timestamp@ + "] "@ + e.entry_type@ + ": "@
            + first_line(e.content@) + "\n"@
    }
}

/// The hot memory: the last `limit` entries of the journal.
pub open spec fn hot_memory_spec(entries: Seq<JournalLine>, limit: nat) -> Seq<char> {
    if entries.len() > limit {
        journal_lines(entries.skip(entries.len() - limit))
    } else {
        journal_lines(entries)
    }
}

/// "i. [type] content (time)\n" for each memory, numbered from `start + 1`.
pub open spec fn memory_lines(memories: Seq<MemoryLine>) -> Seq<char>
    decreases memories.len(),
{
    if memories.len() == 0 {
        Seq::empty()
    } else {
        let m = memories.last();
        memory_lines(memories.drop_last()) + decimal(memories.len()) + ". ["@ + m.kind@ + "] "@
            + m.content@ + " ("@ + m.time_text@ + ")\n"@
    }
}

/// The context built from found memories: nothing without memories.
pub open spec fn memories_context_spec(memories: Seq<MemoryLine>) -> Seq<char> {
    if memories.len() == 0 {
        Seq::empty()
    } else {
        "## Relevant Past Operations & Knowledge\n"@ + memory_lines(memories)
            + "\nUse this context to inform your actions and avoid repeating mistakes."@
    }
}

/// Whether memory enters the agent's context.
#[derive(Debug, Clone, Copy)]
pub struct MemoryManager {
    /// Incognito: no memory is read or written.
    pub disable_memory: bool,
}

impl MemoryManager {
    /// A manager; `disable_memory` turns memory off.
    pub fn new(disable_memory: bool) -> (r: Self)
        ensures
            r.disable_memory == disable_memory,
    {
        MemoryManager { disable_memory }
    }

    /// Memory is on.
    pub fn is_enabled(&self) -> (r: bool)
        ensures
            r == !self.disable_memory,
    {
        !self.disable_memory
    }

    /// The hot memory context from the journal's entries.
    pub fn get_hot_memory_context(&self, entries: &Vec<JournalLine>, limit: usize) -> (r: String)
        ensures
            r@ == hot_memory_spec(entries@, limit as nat),
    {
        let start: usize = if entries.len() > limit {
            entries.len() - limit
        } else {
            0
        };
        let ghost recent = entries@.skip(start as int);
        let mut out = String::new();
        let mut i = start;
        assert(recent.take(0) =~= Seq::<JournalLine>::empty());
        while i < entries.len()
            invariant
                start <= i <= entries.len(),
                recent == entries@.skip(start as int),
                out@ == journal_lines(recent.take(i - start)),
            decreases entries.len() - i,
        {
            let ghost t = recent.take(i + 1 - start);
            assert(t.drop_last() =~= recent.take(i - start));
            assert(t.last() == entries@[i as int]);
            push_str(&mut out, "- [");
            push_str(&mut out, entries[i].timestamp.as_str());
            push_str(&mut out, "] ");
            push_str(&mut out, entries[i].entry_type.as_str());
            push_str(&mut out, ": ");
            let line = first_line_of(entries[i].content.as_str());
            push_str(&mut out, line.as_str());
            push_str(&mut out, "\n");
            i += 1;
        }
        assert(recent.take(i - start) =~= recent);
        if entries.len() <= limit {
            assert(recent =~= entries@);
        }
        out
    }

    /// The system message that brings the hot memory in, if there is any.
    pub fn hot_memory_message(&self, hot_memory: &str) -> (r: Option<String>)
        ensures
            (self.disable_memory || hot_memory@.len() == 0) ==> r is None,
            !(self.disable_memory || hot_memory@.len() == 0) ==> (r matches Some(m) && m@
                == "## Recent Activity (Hot Memory)\n"@ + hot_memory@
                + "\n\nUse this context and proactively search memory for relevant information when needed."@),
    {
        if self.disable_memory || hot_memory.is_empty() {
            return None;
        }
        let mut m = concat("## Recent Activity (Hot Memory)\n", hot_memory);
        push_str(
            &mut m,
            "\n\nUse this context and proactively search memory for relevant information when needed.",
        );
        Some(m)
    }

    /// The context built from the memories found for a request.
    pub fn build_context_from_memories(&self, memories: &Vec<MemoryLine>) -> (r: String)
        requires
            memories.len() < u64::MAX,
        ensures
            r@ == memories_context_spec(memories@),
    {
        if memories.len() == 0 {
            return String::new();
        }
        let mut out = to_owned("## Relevant Past Operations & Knowledge\n");
        let ghost head = out@;
        let mut i: usize = 0;
        assert(memories@.take(0) =~= Seq::<MemoryLine>::empty());
        while i < memories.len()
            invariant
                i <= memories.len(),
                memories.len() < u64::MAX,
                out@ == head + memory_lines(memories@.take(i as int)),
            decreases memories.len() - i,
        {
            let ghost t = memories@.take(i + 1);
            assert(t.drop_last() =~= memories@.take(i as int));
            assert(t.last() == memories@[i as int]);
            push_decimal(&mut out, (i + 1) as u64);
            push_str(&mut out, ". [");
            push_str(&mut out, memories[i].kind.as_str());
            push_str(&mut out, "] ");
            push_str(&mut out, memories[i].content.as_str());
            push_str(&mut out, " (");
            push_str(&mut out, memories[i].time_text.as_str());
            push_str(&mut out, ")\n");
            assert(out@ =~= head + memory_lines(t));
            i += 1;
        }
        assert(memories@.take(i as int) =~= memories@);
        push_str(&mut out, "\nUse this context to inform your actions and avoid repeating mistakes.");
        out
    }
}

/// Puts a message right after the first one (the system prompt), or at the
/// end of a history of at most one message.
pub fn insert_after_first<T>(history: &mut Vec<T>, msg: T)
    ensures
        old(history).len() > 1 ==> final(history)@ == old(history)@.insert(1, msg),
        old(history).len() <= 1 ==> final(history)@ == old(history)@.push(msg),
{
    if history.len() > 1 {
        history.insert(1, msg);
    } else {
        history.push(msg);
    }
}

/// The position of the last user message of a history, by the roles of its
/// messages.
pub fn last_user_index(roles: &Vec<MessageRole>) -> (r: Option<usize>)
    ensures
        match r {
            Some(i) => i < roles.len() && roles@[i as int] == MessageRole::User && forall|k: int|
                i < k < roles.len() ==> roles@[k] != MessageRole::User,
            None => forall|k: int| 0 <= k < roles.len() ==> roles@[k] != MessageRole::User,
        },
{
    let mut i = roles.len();
    while i > 0
        invariant
            i <= roles.len(),
            forall|k: int| i <= k < roles.len() ==> roles@[k] != MessageRole::User,
        decreases i,
    {
        if roles[i - 1] == MessageRole::User {
            return Some(i - 1);
        }
        i -= 1;
    }
    None
}

/// A history needs the system prompt put first: it is empty or does not
/// start with a system message.
pub fn needs_system_prompt(roles: &Vec<MessageRole>) -> (r: bool)
    ensures
        r == (roles.len() == 0 || roles@[0] != MessageRole::System),
{
    roles.len() == 0 || roles[0] != MessageRole::System
}

} // verus!
