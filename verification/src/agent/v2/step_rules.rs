//! Decisions of one step of the v2 agent: warnings and limits checked before
//! the LLM call, and what its Short-Key reply turns into. The LLM call, the
//! memory, the history and the tool execution stay with the caller.

use vstd::prelude::*;
use crate::agent::v2::protocol::parser::ShortKeyAction;
use crate::text::{
    byte_len, char_pos_of_byte, chars_of, char_index_at_byte, concat, contains_seq, decimal,
    find_from, is_boundary, occurs_at, push_char, push_decimal, push_str, slice_chars, str_contains,
    string_of, to_owned, trim, trim_chars, trim_seq, views,
};

verus! {

/// The alert added to the history when the scratchpad exceeds 4000 characters.
pub fn scratchpad_alert(len: usize) -> (r: Option<String>)
    ensures
        len <= 4000 ==> r is None,
        len > 4000 ==> (r matches Some(m) && m@ == "SYSTEM ALERT: Scratchpad size is "@ + decimal(
            len as nat,
        )
            + "/4000. Please use `consolidate_memory` to save important facts to long-term memory and condense the scratchpad."@),
{
    if len <= 4000 {
        return None;
    }
    let mut m = to_owned("SYSTEM ALERT: Scratchpad size is ");
    push_decimal(&mut m, len as u64);
    push_str(
        &mut m,
        "/4000. Please use `consolidate_memory` to save important facts to long-term memory and condense the scratchpad.",
    );
    Some(m)
}

/// The reply once the iteration limit is reached.
pub fn iteration_limit_message(max_iterations: usize) -> (r: String)
    ensures
        r@ == "⚠️ Maximum iteration limit ("@ + decimal(max_iterations as nat) + ") reached."@,
{
    let mut m = to_owned("⚠️ Maximum iteration limit (");
    push_decimal(&mut m, max_iterations as u64);
    push_str(&mut m, ") reached.");
    m
}

/// The user message carrying an observation when no tool call is pending.
pub fn observation_message(obs: &str) -> (r: String)
    ensures
        r@ == "Observation: "@ + obs@,
{
    concat("Observation: ", obs)
}

/// The reply looks like Short-Key JSON (it has a `"t":` or `"a":` key).
pub open spec fn short_key_likely_spec(content: Seq<char>) -> bool {
    contains_seq(content, "\"t\":"@) || contains_seq(content, "\"a\":"@)
}

/// Whether the reply looks like Short-Key JSON.
pub fn is_short_key_likely(content: &str) -> (r: bool)
    ensures
        r == short_key_likely_spec(content@),
{
    str_contains(content, "\"t\":") || str_contains(content, "\"a\":")
}

/// What a reply that did not parse leads to.
#[derive(Debug, Clone, Copy, PartialEq, Eq, Structural)]
pub enum ParseFailureStep {
    /// It does not look like Short-Key JSON: handle it as plain text.
    Ignore,
    /// First failure: report a malformed action.
    Malformed,
    /// Repeated failure: ask the recovery worker.
    Recover,
}

/// Decides what an unparsable reply leads to; `failures` already counts this
/// failure when the reply looks like Short-Key JSON.
pub fn parse_failure_step(likely: bool, failures: usize) -> (r: ParseFailureStep)
    ensures
        !likely ==> r == ParseFailureStep::Ignore,
        likely && failures > 1 ==> r == ParseFailureStep::Recover,
        likely && failures <= 1 ==> r == ParseFailureStep::Malformed,
{
    if !likely {
        ParseFailureStep::Ignore
    } else if failures > 1 {
        ParseFailureStep::Recover
    } else {
        ParseFailureStep::Malformed
    }
}

/// A tool call to run, from a Short-Key action.
#[derive(Debug, Clone)]
pub struct ToolRequest {
    pub id: String,
    pub thought: String,
    pub action: String,
    /// The input; `None` stands for JSON `null`.
    pub input: Option<serde_json::Value>,
}

/// What the parsed actions of a reply lead to.
#[derive(Debug)]
pub enum ShortKeyDecision {
    /// A final answer (with the first action's thought).
    Final { message: String },
    /// No action names a tool: the reply is a plain message.
    Message { message: String },
    /// Run these tool calls in parallel.
    Execute { requests: Vec<ToolRequest> },
}

/// The index of the first action carrying a final answer.
pub open spec fn first_final(actions: Seq<ShortKeyAction>) -> Option<int>
    decreases actions.len(),
{
    if actions.len() == 0 {
        None
    } else {
        match first_final(actions.drop_last()) {
            Some(i) => Some(i),
            None => if actions.last().final_answer is Some {
                Some(actions.len() - 1)
            } else {
                None
            },
        }
    }
}

/// The actions that name a tool, in order.
pub open spec fn tool_actions(actions: Seq<ShortKeyAction>) -> Seq<ShortKeyAction> {
    actions.filter(|a: ShortKeyAction| a.action is Some)
}

/// The identifier of the `idx`-th tool call of iteration `iteration`.
pub open spec fn call_id(iteration: usize, idx: int) -> Seq<char> {
    "call_"@ + decimal(iteration as nat) + "_"@ + decimal(idx as nat)
}

proof fn lemma_first_final(actions: Seq<ShortKeyAction>, i: int)
    requires
        0 <= i <= actions.len(),
        forall|k: int| 0 <= k < i ==> actions[k].final_answer is None,
    ensures
        i < actions.len() && actions[i].final_answer is Some ==> first_final(actions) == Some(i),
        i == actions.len() ==> first_final(actions) is None,
    decreases actions.len(),
{
    if actions.len() > 0 {
        let d = actions.drop_last();
        if i < d.len() {
            lemma_first_final(d, i);
        } else {
            lemma_first_final(d, d.len() as int);
        }
    }
}

/// Turns the parsed actions of a reply into the step's decision: a final
/// answer wins; otherwise the actions naming a tool become calls with ids
/// `call_<iteration>_<index>`; without any, the reply is a plain message.
pub fn short_key_decision(content: &str, actions: Vec<ShortKeyAction>, iteration: usize) -> (r:
    ShortKeyDecision)
    ensures
        match first_final(actions@) {
            Some(i) => r matches ShortKeyDecision::Final { message } && message@ == "Thought: "@
                + actions@[0].thought@ + "\nFinal Answer: "@ + actions@[i].final_answer->0@,
            None => if tool_actions(actions@).len() == 0 {
                r matches ShortKeyDecision::Message { message } && message@ == content@
            } else {
                r matches ShortKeyDecision::Execute { requests } && requests@.len()
                    == tool_actions(actions@).len() && forall|k: int|
                    0 <= k < requests@.len() ==> {
                        let a = #[trigger] tool_actions(actions@)[k];
                        &&& requests@[k].id@ == call_id(iteration, k)
                        &&& requests@[k].thought@ == a.thought@
                        &&& requests@[k].action@ == a.action->0@
                        &&& requests@[k].input == a.input
                    }
            },
        },
{
    let mut i: usize = 0;
    while i < actions.len()
        invariant
            i <= actions.len(),
            forall|k: int| 0 <= k < i ==> actions@[k].final_answer is None,
        decreases actions.len() - i,
    {
        if let Some(f) = &actions[i].final_answer {
            proof {
                lemma_first_final(actions@, i as int);
            }
            let mut m = concat("Thought: ", actions[0].thought.as_str());
            push_str(&mut m, "\nFinal Answer: ");
            push_str(&mut m, f.as_str());
            return ShortKeyDecision::Final { message: m };
        }
        i += 1;
    }
    proof {
        lemma_first_final(actions@, i as int);
    }
    let ghost all = actions@;
    let mut requests: Vec<ToolRequest> = Vec::new();
    let mut j: usize = 0;
    let mut rest = actions;
    while j < rest.len()
        invariant
            j <= rest.len(),
            rest@ == all,
            requests@.len() == tool_actions(all.take(j as int)).len(),
            forall|k: int|
                0 <= k < requests@.len() ==> {
                    let a = #[trigger] tool_actions(all.take(j as int))[k];
                    &&& requests@[k].id@ == call_id(iteration, k)
                    &&& requests@[k].thought@ == a.thought@
                    &&& requests@[k].action@ == a.action->0@
                    &&& requests@[k].input == a.input
                },
        decreases rest.len() - j,
    {
        proof {
            reveal(Seq::filter);
            assert(all.take(j + 1).drop_last() =~= all.take(j as int));
        }
        if let Some(name) = &rest[j].action {
            let idx = requests.len();
            let mut id = to_owned("call_");
            push_decimal(&mut id, iteration as u64);
            push_str(&mut id, "_");
            push_decimal(&mut id, idx as u64);
            let req = ToolRequest {
                id,
                thought: rest[j].thought.clone(),
                action: name.clone(),
                input: clone_input(&rest[j].input),
            };
            requests.push(req);
        }
        j += 1;
    }
    assert(all.take(all.len() as int) =~= all);
    if requests.len() == 0 {
        ShortKeyDecision::Message { message: to_owned(content) }
    } else {
        ShortKeyDecision::Execute { requests }
    }
}

fn clone_input(v: &Option<serde_json::Value>) -> (r: Option<serde_json::Value>)
    ensures
        r == *v,
{
    match v {
        Some(x) => Some(x.clone()),
        None => None,
    }
}

/// The text of one parallel tool result: the result's JSON text, else the
/// error, else `No output`.
pub fn tool_output_text(result_text: Option<String>, error_message: Option<String>) -> (r: String)
    ensures
        match result_text {
            Some(t) => r@ == t@,
            None => match error_message {
                Some(e) => r@ == "Error: "@ + e@,
                None => r@ == "No output"@,
            },
        },
{
    match result_text {
        Some(t) => t,
        None => match error_message {
            Some(e) => concat("Error: ", e.as_str()),
            None => to_owned("No output"),
        },
    }
}

/// The summary message of a batch of parallel tool runs.
pub open spec fn parallel_summary(outputs: Seq<Seq<char>>) -> Seq<char>
    decreases outputs.len(),
{
    if outputs.len() == 0 {
        "Executed parallel tools:"@
    } else {
        parallel_summary(outputs.drop_last()) + "\n- "@ + outputs.last()
    }
}

/// The summary message of a batch of parallel tool runs.
pub fn parallel_tools_summary(outputs: &Vec<String>) -> (r: String)
    ensures
        r@ == parallel_summary(views(outputs@)),
{
    let mut s = to_owned("Executed parallel tools:");
    let mut i: usize = 0;
    while i < outputs.len()
        invariant
            i <= outputs.len(),
            s@ == parallel_summary(views(outputs@).take(i as int)),
        decreases outputs.len() - i,
    {
        assert(views(outputs@).take(i + 1).drop_last() =~= views(outputs@).take(i as int));
        assert(views(outputs@).take(i + 1).last() == outputs@[i as int]@);
        push_str(&mut s, "\n- ");
        push_str(&mut s, outputs[i].as_str());
        i += 1;
    }
    assert(views(outputs@).take(outputs.len() as int) =~= views(outputs@));
    s
}

/// A log field cut to `max_len` bytes (a character boundary), with `…` added
/// when it was longer.
pub fn truncate_for_log(s: &str, max_len: usize) -> (r: String)
    requires
        byte_len(s@) <= usize::MAX,
        byte_len(s@) > max_len ==> is_boundary(s@, max_len as int),
    ensures
        byte_len(s@) <= max_len ==> r@ == s@,
        byte_len(s@) > max_len ==> r@ == s@.take(char_pos_of_byte(s@, max_len as int)).push('…'),
{
    let v = chars_of(s);
    let n = crate::text::chars_byte_len(&v);
    if n <= max_len {
        return to_owned(s);
    }
    let k = char_index_at_byte(&v, max_len);
    let w = slice_chars(&v, 0, k);
    assert(w@ =~= v@.take(k as int));
    let mut out = string_of(&w);
    push_char(&mut out, '…');
    out
}

/// The step counters of an agent: steps taken, the hard iteration limit,
/// the configured budget and the current step limit.
#[derive(Debug, Clone, Copy, PartialEq, Eq, Structural)]
pub struct StepBudget {
    pub iteration_count: usize,
    pub max_iterations: usize,
    pub budget: usize,
    pub max_steps: usize,
}

impl StepBudget {
    /// No step taken; budget and step limit equal to the iteration limit.
    pub fn new(max_iterations: usize) -> (r: Self)
        ensures
            r.iteration_count == 0,
            r.max_iterations == max_iterations,
            r.budget == max_iterations,
            r.max_steps == max_iterations,
    {
        StepBudget { iteration_count: 0, max_iterations, budget: max_iterations, max_steps: max_iterations }
    }

    /// Sets the budget, which becomes the step limit too.
    pub fn with_budget(self, budget: usize) -> (r: Self)
        ensures
            r == (StepBudget { budget, max_steps: budget, ..self }),
    {
        StepBudget { budget, max_steps: budget, ..self }
    }

    /// Raises the step limit.
    pub fn increase_budget(&mut self, additional_steps: usize)
        requires
            old(self).max_steps + additional_steps <= usize::MAX,
        ensures
            *final(self) == (StepBudget { max_steps: (old(self).max_steps + additional_steps) as usize, ..*old(self) }),
    {
        self.max_steps = self.max_steps + additional_steps;
    }

    /// Steps taken, step limit and budget.
    pub fn budget_stats(&self) -> (r: (usize, usize, usize))
        ensures
            r == (self.iteration_count, self.max_steps, self.budget),
    {
        (self.iteration_count, self.max_steps, self.budget)
    }

    /// A new task: no step taken, the step limit back at the budget.
    pub fn reset(&mut self)
        ensures
            *final(self) == (StepBudget { iteration_count: 0, max_steps: old(self).budget, ..*old(self) }),
    {
        self.iteration_count = 0;
        self.max_steps = self.budget;
    }

    /// The hard iteration limit is reached.
    pub fn limit_reached(&self) -> (r: bool)
        ensures
            r == (self.iteration_count >= self.max_iterations),
    {
        self.iteration_count >= self.max_iterations
    }
}

/// The system message carrying recalled memory into a request.
pub fn recalled_context_message(recalled: &str) -> (r: String)
    ensures
        r@ == "## Recalled Context (Long-term & Recent Memory)\n"@ + recalled@
            + "\nUse this context to inform your decisions."@,
{
    let mut m = crate::text::concat("## Recalled Context (Long-term & Recent Memory)\n", recalled);
    crate::text::push_str(&mut m, "\nUse this context to inform your decisions.");
    m
}

/// The text after `Action:` on the first line that begins with it (the
/// first capture of `(?m)^Action:\s*(.*)`), if there is such a line.
pub uninterp spec fn react_action_capture(content: Seq<char>) -> Option<Seq<char>>;

/// The text after the first line beginning `Action Input:` up to the next
/// `Thought:`, `Observation:` or `Final Answer:` line or the end (the first
/// capture of `(?ms)^Action Input:\s*(.*?)(?:\nThought:|\nObservation:|\nFinal
/// Answer:|\z)`), if there is such a line.
pub uninterp spec fn react_input_capture(content: Seq<char>) -> Option<Seq<char>>;

/// `Regex::captures` with `(?m)^Action:\s*(.*)`: its first group, named
/// `react_action_capture` of the text.
#[verifier::external_body]
fn capture_react_action(content: &str) -> (r: Option<String>)
    ensures
        opt_text(r) == react_action_capture(content@),
{
    let re = regex::Regex::new(r"(?m)^Action:\s*(.*)").expect("valid regex");
    re.captures(content).map(|c| c[1].to_string())
}

/// `Regex::captures` with the `Action Input:` pattern: its first group,
/// named `react_input_capture` of the text.
#[verifier::external_body]
fn capture_react_input(content: &str) -> (r: Option<String>)
    ensures
        opt_text(r) == react_input_capture(content@),
{
    let re = regex::Regex::new(r"(?ms)^Action Input:\s*(.*?)(?:\nThought:|\nObservation:|\nFinal Answer:|\z)")
        .expect("valid regex");
    re.captures(content).map(|c| c[1].to_string())
}

/// The text of an optional string.
pub open spec fn opt_text(o: Option<String>) -> Option<Seq<char>> {
    match o {
        Some(s) => Some(s@),
        None => None,
    }
}

/// The first position at or after `i` where `pat` occurs in `s`.
pub open spec fn first_occurrence_from(s: Seq<char>, pat: Seq<char>, i: int) -> Option<int>
    decreases s.len() + 1 - i,
{
    if i < 0 || i > s.len() {
        None
    } else if occurs_at(s, pat, i) {
        Some(i)
    } else {
        first_occurrence_from(s, pat, i + 1)
    }
}

proof fn lemma_first_occurrence(s: Seq<char>, pat: Seq<char>, i: int, r: Option<int>)
    requires
        0 <= i,
        match r {
            Some(k) => i <= k && occurs_at(s, pat, k) && forall|j: int| i <= j < k ==> !occurs_at(s, pat, j),
            None => forall|j: int| i <= j ==> !occurs_at(s, pat, j),
        },
    ensures
        first_occurrence_from(s, pat, i) == r,
    decreases s.len() + 1 - i,
{
    if i <= s.len() && !occurs_at(s, pat, i) {
        if r != Some(i) {
            lemma_first_occurrence(s, pat, i + 1, r);
        }
    } else if i > s.len() {
        if r is Some {
            assert(occurs_at(s, pat, r->0));
        }
    }
}

/// What a ReAct-format reply leads to.
#[derive(Debug, Clone)]
pub enum ReactDecision {
    /// The reply also holds a final answer: it is shown as a message.
    FinalAnswer { message: String },
    /// Run the tool with these arguments.
    Action { tool: String, args: String },
    /// Show the thought written before `Action:` and hold the action until
    /// the user answers.
    ThoughtFirst { thought: String, tool: String, args: String },
}

/// The thought written before the first `Action:` of a reply, trimmed.
pub open spec fn react_thought(content: Seq<char>) -> Seq<char> {
    match first_occurrence_from(content, "Action:"@, 0) {
        Some(k) => trim_seq(content.take(k)),
        None => Seq::empty(),
    }
}

/// Decides a ReAct-format reply from its two captures: without both there
/// is no action; a reply that also holds `Final Answer:` is a message;
/// otherwise the trimmed tool name and arguments are run, after the trimmed
/// text before `Action:` is shown when there is any.
pub fn react_decision(content: &str, action: Option<String>, input: Option<String>) -> (r: Option<ReactDecision>)
    ensures
        (action is None || input is None) ==> r is None,
        action is Some && input is Some ==> {
            let tool = trim_seq(action->0@);
            let args = trim_seq(input->0@);
            if crate::text::contains_seq(content@, "Final Answer:"@) {
                r matches Some(ReactDecision::FinalAnswer { message }) && message@ == content@
            } else if react_thought(content@).len() > 0 {
                r matches Some(ReactDecision::ThoughtFirst { thought, tool: t, args: g }) && thought@
                    == react_thought(content@) && t@ == tool && g@ == args
            } else {
                r matches Some(ReactDecision::Action { tool: t, args: g }) && t@ == tool && g@ == args
            }
        },
{
    let a = match action {
        Some(a) => a,
        None => {
            return None;
        },
    };
    let i = match input {
        Some(i) => i,
        None => {
            return None;
        },
    };
    let tool = trim(a.as_str());
    let args = trim(i.as_str());
    if str_contains(content, "Final Answer:") {
        return Some(ReactDecision::FinalAnswer { message: to_owned(content) });
    }
    let v = chars_of(content);
    let pat = chars_of("Action:");
    let pos = find_from(&v, &pat, 0);
    proof {
        lemma_first_occurrence(v@, pat@, 0, match pos {
            Some(k) => Some(k as int),
            None => None,
        });
    }
    let tv: Vec<char> = match pos {
        Some(k) => {
            let pre = slice_chars(&v, 0, k);
            assert(pre@ =~= content@.take(k as int));
            trim_chars(&pre)
        },
        None => Vec::new(),
    };
    assert(tv@ == react_thought(content@));
    if tv.len() == 0 {
        Some(ReactDecision::Action { tool, args })
    } else {
        Some(ReactDecision::ThoughtFirst { thought: string_of(&tv), tool, args })
    }
}

/// The ReAct decision of a reply: its `Action:` and `Action Input:` captures
/// decided by `react_decision`.
pub fn react_step(content: &str) -> (r: Option<ReactDecision>)
    ensures
        (react_action_capture(content@) is None || react_input_capture(content@) is None) ==> r is None,
        react_action_capture(content@) is Some && react_input_capture(content@) is Some ==> {
            let a = react_action_capture(content@)->0;
            let i = react_input_capture(content@)->0;
            if crate::text::contains_seq(content@, "Final Answer:"@) {
                r matches Some(ReactDecision::FinalAnswer { message }) && message@ == content@
            } else if react_thought(content@).len() > 0 {
                r matches Some(ReactDecision::ThoughtFirst { thought, tool: t, args: g }) && thought@
                    == react_thought(content@) && t@ == trim_seq(a) && g@ == trim_seq(i)
            } else {
                r matches Some(ReactDecision::Action { tool: t, args: g }) && t@ == trim_seq(a) && g@
                    == trim_seq(i)
            }
        },
{
    let action = capture_react_action(content);
    let input = capture_react_input(content);
    react_decision(content, action, input)
}

/// What a native tool call of the model (the first, when there are several)
/// leads to.
#[derive(Debug, Clone)]
pub enum NativeToolStep {
    /// The tool is not registered: tell the model and let it try again.
    UnknownTool { message: String },
    /// The reply also has text: show it and hold the call until the user
    /// answers.
    Held { message: String },
    /// Run the call.
    Run,
}

/// Decides a native tool call: an unregistered tool gives a retry message;
/// a call that comes with text (not blank) is held behind that text;
/// otherwise it runs.
pub fn native_tool_step(content: &str, tool: &str, tool_registered: bool) -> (r: NativeToolStep)
    ensures
        !tool_registered ==> (r matches NativeToolStep::UnknownTool { message } && message@
            == "I attempted to call tool '"@ + tool@ + "' but it was not found. I will try again with a valid tool."@),
        tool_registered && trim_seq(content@).len() > 0 ==> (r matches NativeToolStep::Held { message }
            && message@ == content@),
        tool_registered && trim_seq(content@).len() == 0 ==> r is Run,
{
    if !tool_registered {
        let mut m = concat("I attempted to call tool '", tool);
        push_str(&mut m, "' but it was not found. I will try again with a valid tool.");
        return NativeToolStep::UnknownTool { message: m };
    }
    let t = trim(content);
    if t.as_str().is_empty() {
        NativeToolStep::Run
    } else {
        NativeToolStep::Held { message: to_owned(content) }
    }
}

} // verus!
