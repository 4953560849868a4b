//! Prompt rendering: a prompt configuration and a render context become the
//! system prompt text. Sections are ordered by priority, generated sections are
//! filled from the context, and `{variable}` placeholders are substituted.

use vstd::prelude::*;
use crate::config::prompt_schema::{config_view, section_view, IdentitySection, PromptConfig, Section};
use crate::named_map::{lookup, NamedMap, StringMap};
use crate::text::{
    clone_opt_string, opt_view, concat, contains_seq, contains_string, occurs_at, join, join_seq, push_str, replace_all, replace_seq, str_eq, to_owned, trim_seq,
    is_blank, views,
};

verus! {

/// Tool category, used to group tools.
#[derive(Clone, Debug)]
pub enum ToolCategory {
    Internal,
    Terminal,
    Web,
    Other(String),
}

/// A tool as shown in a prompt.
#[derive(Clone, Debug)]
pub struct ToolInfo {
    pub name: String,
    pub description: String,
    pub usage: String,
    pub category: ToolCategory,
}

/// Dynamic data for substitution and generated sections.
#[derive(Clone, Debug)]
pub struct RenderContext {
    pub working_directory: Option<String>,
    pub datetime: Option<String>,
    pub git_branch: Option<String>,
    pub mode: Option<String>,
    pub user_instructions: Option<String>,
    pub scratchpad: Option<String>,
    /// Available tools for the generated tools section.
    pub tools: Option<Vec<ToolInfo>>,
    /// Custom variables.
    pub variables: StringMap,
}

/// The value a placeholder name stands for in a context.
pub open spec fn context_value(ctx: RenderContext, key: Seq<char>) -> Option<Seq<char>> {
    if key == "working_directory"@ {
        opt_view(ctx.working_directory)
    } else if key == "datetime"@ {
        opt_view(ctx.datetime)
    } else if key == "git_branch"@ {
        opt_view(ctx.git_branch)
    } else if key == "mode"@ {
        opt_view(ctx.mode)
    } else if key == "user_instructions"@ {
        opt_view(ctx.user_instructions)
    } else if key == "scratchpad"@ {
        opt_view(ctx.scratchpad)
    } else if key == "tools"@ {
        if ctx.tools is Some {
            Some("[DYNAMIC_TOOLS]"@)
        } else {
            None
        }
    } else {
        opt_view(lookup(ctx.variables@, key))
    }
}

impl RenderContext {
    /// An empty context.
    pub fn new() -> (r: Self)
        ensures
            r.working_directory is None,
            r.datetime is None,
            r.git_branch is None,
            r.mode is None,
            r.user_instructions is None,
            r.scratchpad is None,
            r.tools is None,
            r.variables.wf(),
            r.variables@.len() == 0,
    {
        RenderContext {
            working_directory: None,
            datetime: None,
            git_branch: None,
            mode: None,
            user_instructions: None,
            scratchpad: None,
            tools: None,
            variables: NamedMap::new(),
        }
    }

    /// Set the working directory.
    pub fn with_working_directory(self, dir: &str) -> (r: Self)
        ensures
            r == (RenderContext { working_directory: r.working_directory, ..self }),
            opt_view(r.working_directory) == Some(dir@),
    {
        RenderContext { working_directory: Some(to_owned(dir)), ..self }
    }

    /// Set the date and time.
    pub fn with_datetime(self, dt: &str) -> (r: Self)
        ensures
            r == (RenderContext { datetime: r.datetime, ..self }),
            opt_view(r.datetime) == Some(dt@),
    {
        RenderContext { datetime: Some(to_owned(dt)), ..self }
    }

    /// Set the git branch.
    pub fn with_git_branch(self, branch: &str) -> (r: Self)
        ensures
            r == (RenderContext { git_branch: r.git_branch, ..self }),
            opt_view(r.git_branch) == Some(branch@),
    {
        RenderContext { git_branch: Some(to_owned(branch)), ..self }
    }

    /// Set the mode.
    pub fn with_mode(self, mode: &str) -> (r: Self)
        ensures
            r == (RenderContext { mode: r.mode, ..self }),
            opt_view(r.mode) == Some(mode@),
    {
        RenderContext { mode: Some(to_owned(mode)), ..self }
    }

    /// Set the user instructions.
    pub fn with_user_instructions(self, instructions: &str) -> (r: Self)
        ensures
            r == (RenderContext { user_instructions: r.user_instructions, ..self }),
            opt_view(r.user_instructions) == Some(instructions@),
    {
        RenderContext { user_instructions: Some(to_owned(instructions)), ..self }
    }

    /// Set the scratchpad content.
    pub fn with_scratchpad(self, content: &str) -> (r: Self)
        ensures
            r == (RenderContext { scratchpad: r.scratchpad, ..self }),
            opt_view(r.scratchpad) == Some(content@),
    {
        RenderContext { scratchpad: Some(to_owned(content)), ..self }
    }

    /// Set the tools.
    pub fn with_tools(self, tools: Vec<ToolInfo>) -> (r: Self)
        ensures
            r == (RenderContext { tools: Some(tools), ..self }),
    {
        RenderContext { tools: Some(tools), ..self }
    }

    /// Add a custom variable.
    pub fn with_variable(self, key: &str, value: &str) -> (r: Self)
        requires
            self.variables.wf(),
        ensures
            r == (RenderContext { variables: r.variables, ..self }),
            r.variables.wf(),
            opt_view(lookup(r.variables@, key@)) == Some(value@),
            forall|k: Seq<char>| k != key@ ==> lookup(r.variables@, k) == lookup(self.variables@, k),
    {
        let mut s = self;
        let _ = s.variables.insert(to_owned(key), to_owned(value));
        s
    }

    /// The value of a placeholder name.
    pub fn get(&self, key: &str) -> (r: Option<String>)
        requires
            self.variables.wf(),
        ensures
            opt_view(r) == context_value(*self, key@),
    {
        if str_eq(key, "working_directory") {
            clone_opt_string(&self.working_directory)
        } else if str_eq(key, "datetime") {
            clone_opt_string(&self.datetime)
        } else if str_eq(key, "git_branch") {
            clone_opt_string(&self.git_branch)
        } else if str_eq(key, "mode") {
            clone_opt_string(&self.mode)
        } else if str_eq(key, "user_instructions") {
            clone_opt_string(&self.user_instructions)
        } else if str_eq(key, "scratchpad") {
            clone_opt_string(&self.scratchpad)
        } else if str_eq(key, "tools") {
            match &self.tools {
                Some(_) => Some(to_owned("[DYNAMIC_TOOLS]")),
                None => None,
            }
        } else {
            match self.variables.get(key) {
                Some(v) => Some(v.clone()),
                None => None,
            }
        }
    }
}

impl Default for RenderContext {
    fn default() -> (r: Self)
        ensures
            r.working_directory is None,
            r.datetime is None,
            r.git_branch is None,
            r.mode is None,
            r.user_instructions is None,
            r.scratchpad is None,
            r.tools is None,
            r.variables.wf(),
            r.variables@.len() == 0,
    {
        RenderContext::new()
    }
}

// ---------------------------------------------------------------------------
// Placeholder substitution
// ---------------------------------------------------------------------------

/// The `{name}` placeholders of a text, in order, as `(whole match, name)`:
/// what `Regex::captures_iter` with the pattern `\{(\w+)\}` finds (leftmost,
/// non-overlapping matches; `\w` is Unicode word characters).
pub uninterp spec fn brace_placeholders(content: Seq<char>) -> Seq<(Seq<char>, Seq<char>)>;

/// The views of a list of string pairs.
pub open spec fn pair_views(v: Seq<(String, String)>) -> Seq<(Seq<char>, Seq<char>)> {
    v.map_values(|p: (String, String)| (p.0@, p.1@))
}

/// `Regex::captures_iter` with `\{(\w+)\}`: each match and its group, in
/// order. The result is named `brace_placeholders` of the text; each whole
/// match is the group (one or more characters) in braces.
#[verifier::external_body]
fn find_placeholders(content: &str) -> (r: Vec<(String, String)>)
    ensures
        pair_views(r@) == brace_placeholders(content@),
        forall|i: int|
            0 <= i < r@.len() ==> (#[trigger] r@[i]).0@ == "{"@ + r@[i].1@ + "}"@ && r@[i].1@.len()
                > 0,
{
    let re = regex::Regex::new(r"\{(\w+)\}").unwrap();
    re.captures_iter(content).map(|c| (c[0].to_string(), c[1].to_string())).collect()
}

/// The text after substituting, in order, each placeholder whose name has a
/// value in the context (every occurrence of its whole match); placeholders
/// without a value stay.
pub open spec fn substituted(
    content: Seq<char>,
    ps: Seq<(Seq<char>, Seq<char>)>,
    ctx: RenderContext,
) -> Seq<char>
    decreases ps.len(),
{
    if ps.len() == 0 {
        content
    } else {
        let prev = substituted(content, ps.drop_last(), ctx);
        match context_value(ctx, ps.last().1) {
            Some(v) => replace_seq(prev, ps.last().0, v),
            None => prev,
        }
    }
}

/// Substitutes the given placeholders of `content` from the context.
pub fn substitute_placeholders(
    content: &str,
    placeholders: &Vec<(String, String)>,
    ctx: &RenderContext,
) -> (r: String)
    requires
        ctx.variables.wf(),
        forall|i: int| 0 <= i < placeholders@.len() ==> (#[trigger] placeholders@[i]).0@.len() > 0,
    ensures
        r@ == substituted(content@, pair_views(placeholders@), *ctx),
{
    let mut result = to_owned(content);
    let mut i: usize = 0;
    while i < placeholders.len()
        invariant
            i <= placeholders.len(),
            ctx.variables.wf(),
            forall|k: int| 0 <= k < placeholders@.len() ==> (#[trigger] placeholders@[k]).0@.len() > 0,
            result@ == substituted(content@, pair_views(placeholders@).take(i as int), *ctx),
        decreases placeholders.len() - i,
    {
        let ghost ps = pair_views(placeholders@);
        assert(ps.take(i + 1).drop_last() =~= ps.take(i as int));
        assert(ps.take(i + 1).last() == (placeholders@[i as int].0@, placeholders@[i as int].1@));
        let (full, name) = (&placeholders[i].0, &placeholders[i].1);
        if let Some(value) = ctx.get(name.as_str()) {
            result = replace_all(result.as_str(), full.as_str(), value.as_str());
        }
        i += 1;
    }
    assert(pair_views(placeholders@).take(placeholders.len() as int) =~= pair_views(placeholders@));
    result
}

/// Substitute template variables (`{variable_name}`) in content; unknown
/// variables are left as they are.
pub fn substitute_variables(content: &str, ctx: &RenderContext) -> (r: String)
    requires
        ctx.variables.wf(),
    ensures
        r@ == substituted(content@, brace_placeholders(content@), *ctx),
{
    let ps = find_placeholders(content);
    substitute_placeholders(content, &ps, ctx)
}

// ---------------------------------------------------------------------------
// Tools section
// ---------------------------------------------------------------------------

/// One tool entry: name, description and usage.
pub open spec fn tool_entry(t: ToolInfo) -> Seq<char> {
    "- `"@ + t.name@ + "`: "@ + t.description@ + "\n  Usage: "@ + t.usage@
}

/// The category tests of the fixed groups.
pub open spec fn in_group(t: ToolInfo, g: int) -> bool {
    match t.category {
        ToolCategory::Internal => g == 0,
        ToolCategory::Terminal => g == 1,
        ToolCategory::Web => g == 2,
        ToolCategory::Other(_) => false,
    }
}

/// Entries of the tools in fixed group `g`, in order.
pub open spec fn group_entries(tools: Seq<ToolInfo>, g: int) -> Seq<Seq<char>>
    decreases tools.len(),
{
    if tools.len() == 0 {
        Seq::empty()
    } else if in_group(tools.last(), g) {
        group_entries(tools.drop_last(), g).push(tool_entry(tools.last()))
    } else {
        group_entries(tools.drop_last(), g)
    }
}

/// Entries of the tools of other category `c`, in order.
pub open spec fn other_entries(tools: Seq<ToolInfo>, c: Seq<char>) -> Seq<Seq<char>>
    decreases tools.len(),
{
    if tools.len() == 0 {
        Seq::empty()
    } else if tools.last().category matches ToolCategory::Other(x) && x@ == c {
        other_entries(tools.drop_last(), c).push(tool_entry(tools.last()))
    } else {
        other_entries(tools.drop_last(), c)
    }
}

/// The other categories, in order of first appearance.
pub open spec fn other_categories(tools: Seq<ToolInfo>) -> Seq<Seq<char>>
    decreases tools.len(),
{
    if tools.len() == 0 {
        Seq::empty()
    } else {
        let prev = other_categories(tools.drop_last());
        match tools.last().category {
            ToolCategory::Other(x) => if prev.contains(x@) {
                prev
            } else {
                prev.push(x@)
            },
            _ => prev,
        }
    }
}

/// A group's lines: its heading and entries, or nothing when it is empty.
pub open spec fn group_lines(heading: Seq<char>, entries: Seq<Seq<char>>) -> Seq<Seq<char>> {
    if entries.len() == 0 {
        Seq::empty()
    } else {
        seq![heading] + entries
    }
}

/// Lines of the other categories, each with its heading.
pub open spec fn other_lines(tools: Seq<ToolInfo>, cats: Seq<Seq<char>>) -> Seq<Seq<char>>
    decreases cats.len(),
{
    if cats.len() == 0 {
        Seq::empty()
    } else {
        other_lines(tools, cats.drop_last()) + seq!["## "@ + cats.last() + " Tools"@]
            + other_entries(tools, cats.last())
    }
}

/// All lines of the tools section body.
pub open spec fn tool_lines(tools: Seq<ToolInfo>) -> Seq<Seq<char>> {
    group_lines("## Internal Tools"@, group_entries(tools, 0)) + group_lines(
        "## Terminal Tools"@,
        group_entries(tools, 1),
    ) + group_lines("## Web Tools"@, group_entries(tools, 2)) + other_lines(
        tools,
        other_categories(tools),
    )
}

/// The tools section: a heading, then the tools grouped by category (internal,
/// terminal, web, then other categories in order of first appearance).
pub open spec fn tools_section(title: Seq<char>, tools: Seq<ToolInfo>) -> Seq<char> {
    "# "@ + title + "\n\n"@ + join_seq(tool_lines(tools), "\n"@)
}

fn format_tool_entry(t: &ToolInfo) -> (r: String)
    ensures
        r@ == tool_entry(*t),
{
    let mut s = concat("- `", t.name.as_str());
    push_str(&mut s, "`: ");
    push_str(&mut s, t.description.as_str());
    push_str(&mut s, "\n  Usage: ");
    push_str(&mut s, t.usage.as_str());
    s
}

fn group_index(c: &ToolCategory) -> (r: usize)
    ensures
        r < 4,
        forall|t: ToolInfo, g: int| 0 <= g < 3 && t.category == *c ==> (in_group(t, g) <==> g == r),
        (r == 3) == (*c is Other),
{
    match c {
        ToolCategory::Internal => 0,
        ToolCategory::Terminal => 1,
        ToolCategory::Web => 2,
        ToolCategory::Other(_) => 3,
    }
}

/// Appends the lines of fixed group `g`.
fn push_group(lines: &mut Vec<String>, tools: &Vec<ToolInfo>, g: usize, heading: &str)
    requires
        g < 3,
    ensures
        views(final(lines)@) == views(old(lines)@) + group_lines(heading@, group_entries(tools@, g as int)),
{
    let mut entries: Vec<String> = Vec::new();
    let mut i: usize = 0;
    while i < tools.len()
        invariant
            g < 3,
            i <= tools.len(),
            views(entries@) == group_entries(tools@.take(i as int), g as int),
        decreases tools.len() - i,
    {
        assert(tools@.take(i + 1).drop_last() =~= tools@.take(i as int));
        assert(tools@.take(i + 1).last() == tools@[i as int]);
        if group_index(&tools[i].category) == g {
            let e = format_tool_entry(&tools[i]);
            let ghost before = views(entries@);
            entries.push(e);
            assert(views(entries@) =~= before.push(e@));
        }
        i += 1;
    }
    assert(tools@.take(tools.len() as int) =~= tools@);
    if entries.len() > 0 {
        let ghost before = views(lines@);
        lines.push(to_owned(heading));
        let mut k: usize = 0;
        while k < entries.len()
            invariant
                k <= entries.len(),
                views(lines@) == before + seq![heading@] + views(entries@).take(k as int),
            decreases entries.len() - k,
        {
            let ghost b2 = views(lines@);
            lines.push(entries[k].clone());
            assert(views(entries@).take(k + 1) =~= views(entries@).take(k as int).push(entries@[k as int]@));
            assert(views(lines@) =~= b2.push(entries@[k as int]@));
            k += 1;
        }
        assert(views(entries@).take(entries.len() as int) =~= views(entries@));
        assert(views(lines@) =~= before + group_lines(heading@, group_entries(tools@, g as int)));
    } else {
        assert(views(lines@) =~= views(lines@) + group_lines(heading@, group_entries(tools@, g as int)));
    }
}


/// Appends the lines of the other categories.
fn push_others(lines: &mut Vec<String>, tools: &Vec<ToolInfo>)
    ensures
        views(final(lines)@) == views(old(lines)@) + other_lines(tools@, other_categories(tools@)),
{
    let mut cats: Vec<String> = Vec::new();
    let mut i: usize = 0;
    while i < tools.len()
        invariant
            i <= tools.len(),
            views(cats@) == other_categories(tools@.take(i as int)),
        decreases tools.len() - i,
    {
        assert(tools@.take(i + 1).drop_last() =~= tools@.take(i as int));
        assert(tools@.take(i + 1).last() == tools@[i as int]);
        if let ToolCategory::Other(c) = &tools[i].category {
            if !contains_string(&cats, c.as_str()) {
                let ghost before = views(cats@);
                cats.push(c.clone());
                assert(views(cats@) =~= before.push(c@));
            }
        }
        i += 1;
    }
    assert(tools@.take(tools.len() as int) =~= tools@);
    let ghost start = views(lines@);
    let mut k: usize = 0;
    while k < cats.len()
        invariant
            k <= cats.len(),
            views(lines@) == start + other_lines(tools@, views(cats@).take(k as int)),
        decreases cats.len() - k,
    {
        let ghost c = cats@[k as int]@;
        assert(views(cats@).take(k + 1).drop_last() =~= views(cats@).take(k as int));
        assert(views(cats@).take(k + 1).last() == c);
        let mut heading = concat("## ", cats[k].as_str());
        push_str(&mut heading, " Tools");
        let ghost b0 = views(lines@);
        lines.push(heading);
        let mut j: usize = 0;
        let ghost mid = views(lines@);
        assert(mid =~= b0 + seq!["## "@ + c + " Tools"@]);
        while j < tools.len()
            invariant
                j <= tools.len(),
                k < cats.len(),
                c == cats@[k as int]@,
                views(lines@) == mid + other_entries(tools@.take(j as int), c),
            decreases tools.len() - j,
        {
            assert(tools@.take(j + 1).drop_last() =~= tools@.take(j as int));
            assert(tools@.take(j + 1).last() == tools@[j as int]);
            if let ToolCategory::Other(x) = &tools[j].category {
                if str_eq(x.as_str(), cats[k].as_str()) {
                    let e = format_tool_entry(&tools[j]);
                    let ghost b1 = views(lines@);
                    lines.push(e);
                    assert(views(lines@) =~= b1.push(e@));
                }
            }
            j += 1;
        }
        assert(tools@.take(tools.len() as int) =~= tools@);
        assert(views(lines@) =~= start + other_lines(tools@, views(cats@).take(k + 1)));
        k += 1;
    }
    assert(views(cats@).take(cats.len() as int) =~= views(cats@));
}

proof fn lemma_group_has(tools: Seq<ToolInfo>, g: int, i: int)
    requires
        0 <= i < tools.len(),
        in_group(tools[i], g),
    ensures
        group_entries(tools, g).contains(tool_entry(tools[i])),
    decreases tools.len(),
{
    let d = tools.drop_last();
    if i < d.len() {
        assert(d[i] == tools[i]);
        lemma_group_has(d, g, i);
        let k = choose|k: int| 0 <= k < group_entries(d, g).len() && group_entries(d, g)[k] == tool_entry(d[i]);
        assert(group_entries(tools, g)[k] == group_entries(d, g)[k]);
        assert(0 <= k < group_entries(tools, g).len());
    } else {
        assert(tools.last() == tools[i]);
        let n = group_entries(d, g).len() as int;
        assert(group_entries(tools, g) == group_entries(d, g).push(tool_entry(tools[i])));
        assert(group_entries(tools, g)[n] == tool_entry(tools[i]));
    }
}

proof fn lemma_other_entries_has(tools: Seq<ToolInfo>, c: Seq<char>, i: int)
    requires
        0 <= i < tools.len(),
        tools[i].category matches ToolCategory::Other(x) && x@ == c,
    ensures
        other_entries(tools, c).contains(tool_entry(tools[i])),
    decreases tools.len(),
{
    let d = tools.drop_last();
    if i < d.len() {
        assert(d[i] == tools[i]);
        lemma_other_entries_has(d, c, i);
        let k = choose|k: int| 0 <= k < other_entries(d, c).len() && other_entries(d, c)[k] == tool_entry(d[i]);
        if tools.last().category matches ToolCategory::Other(x) && x@ == c {
            assert(other_entries(tools, c)[k] == other_entries(d, c)[k]);
        }
    } else {
        assert(other_entries(tools, c)[other_entries(d, c).len() as int] == tool_entry(tools[i]));
    }
}

proof fn lemma_other_categories_has(tools: Seq<ToolInfo>, i: int)
    requires
        0 <= i < tools.len(),
        tools[i].category is Other,
    ensures
        other_categories(tools).contains(tools[i].category->Other_0@),
    decreases tools.len(),
{
    let d = tools.drop_last();
    if i < d.len() {
        assert(d[i] == tools[i]);
        lemma_other_categories_has(d, i);
        let c = tools[i].category->Other_0@;
        let k = choose|k: int| 0 <= k < other_categories(d).len() && other_categories(d)[k] == c;
        match tools.last().category {
            ToolCategory::Other(x) => if !other_categories(d).contains(x@) {
                assert(other_categories(tools)[k] == other_categories(d)[k]);
            },
            _ => {},
        }
    } else {
        let x = tools.last().category->Other_0@;
        if !other_categories(d).contains(x) {
            assert(other_categories(tools)[other_categories(d).len() as int] == x);
        }
    }
}

proof fn lemma_other_lines_has(tools: Seq<ToolInfo>, cats: Seq<Seq<char>>, c: Seq<char>, e: Seq<char>)
    requires
        cats.contains(c),
        other_entries(tools, c).contains(e),
    ensures
        other_lines(tools, cats).contains(e),
    decreases cats.len(),
{
    let d = cats.drop_last();
    let prev = other_lines(tools, d);
    let tail = seq!["## "@ + cats.last() + " Tools"@] + other_entries(tools, cats.last());
    assert(other_lines(tools, cats) == prev + tail);
    if cats.last() == c {
        let k = choose|k: int| 0 <= k < other_entries(tools, c).len() && other_entries(tools, c)[k] == e;
        assert((prev + tail)[prev.len() + 1 + k] == e);
    } else {
        let j = choose|j: int| 0 <= j < cats.len() && cats[j] == c;
        assert(j < d.len());
        assert(d[j] == c);
        lemma_other_lines_has(tools, d, c, e);
        let k = choose|k: int| 0 <= k < prev.len() && prev[k] == e;
        assert((prev + tail)[k] == e);
    }
}

proof fn lemma_join_contains(items: Seq<Seq<char>>, sep: Seq<char>, k: int)
    requires
        0 <= k < items.len(),
    ensures
        contains_seq(join_seq(items, sep), items[k]),
    decreases items.len(),
{
    if items.len() == 1 {
        assert(join_seq(items, sep).subrange(0, items[0].len() as int) =~= items[0]);
        assert(occurs_at(join_seq(items, sep), items[k], 0));
    } else {
        let d = items.drop_last();
        let j = join_seq(d, sep);
        let whole = join_seq(items, sep);
        assert(whole == j + sep + items.last());
        if k == items.len() - 1 {
            let a: int = (j.len() + sep.len()) as int;
            assert(whole.subrange(a, a + items[k].len()) =~= items[k]);
            assert(occurs_at(whole, items[k], a));
        } else {
            assert(d[k] == items[k]);
            lemma_join_contains(d, sep, k);
            let a = choose|a: int| occurs_at(j, items[k], a);
            assert(whole.subrange(a, a + items[k].len()) =~= j.subrange(a, a + items[k].len()));
            assert(occurs_at(whole, items[k], a));
        }
    }
}

/// A law of the tools section: every tool of the list is shown by its entry
/// (name, description and usage), both as a line of the section and in its
/// text; a web tool's entry comes after the `## Web Tools` heading.
pub proof fn lemma_tools_section_lists_all(title: Seq<char>, tools: Seq<ToolInfo>)
    ensures
        forall|i: int| 0 <= i < tools.len() ==> #[trigger] tool_lines(tools).contains(tool_entry(tools[i])),
        forall|i: int| 0 <= i < tools.len() ==> contains_seq(tools_section(title, tools), #[trigger] tool_entry(tools[i])),
        forall|i: int|
            0 <= i < tools.len() && #[trigger] tools[i].category is Web ==> exists|a: int, b: int|
                0 <= a < b < tool_lines(tools).len() && tool_lines(tools)[a] == "## Web Tools"@
                    && tool_lines(tools)[b] == tool_entry(tools[i]),
{
    let lines = tool_lines(tools);
    let g0 = group_lines("## Internal Tools"@, group_entries(tools, 0));
    let g1 = group_lines("## Terminal Tools"@, group_entries(tools, 1));
    let g2 = group_lines("## Web Tools"@, group_entries(tools, 2));
    let o = other_lines(tools, other_categories(tools));
    assert(lines == g0 + g1 + g2 + o);
    assert forall|i: int| 0 <= i < tools.len() implies #[trigger] tool_lines(tools).contains(tool_entry(tools[i])) by {
        let t = tools[i];
        let e = tool_entry(t);
        match t.category {
            ToolCategory::Other(x) => {
                lemma_other_entries_has(tools, x@, i);
                lemma_other_categories_has(tools, i);
                lemma_other_lines_has(tools, other_categories(tools), x@, e);
                let k = choose|k: int| 0 <= k < o.len() && o[k] == e;
                assert(lines[g0.len() + g1.len() + g2.len() + k] == e);
            },
            _ => {
                let g: int = if t.category is Internal { 0 } else if t.category is Terminal { 1 } else { 2 };
                assert(in_group(t, g));
                lemma_group_has(tools, g, i);
                let k = choose|k: int| 0 <= k < group_entries(tools, g).len() && group_entries(tools, g)[k] == e;
                if g == 0 {
                    assert(lines[1 + k] == e);
                } else if g == 1 {
                    assert(lines[g0.len() + 1 + k] == e);
                } else {
                    assert(lines[g0.len() + g1.len() + 1 + k] == e);
                }
            },
        }
    }
    assert forall|i: int| 0 <= i < tools.len() implies contains_seq(tools_section(title, tools), #[trigger] tool_entry(tools[i])) by {
        let e = tool_entry(tools[i]);
        assert(tool_lines(tools).contains(e));
        let k = choose|k: int| 0 <= k < lines.len() && lines[k] == e;
        lemma_join_contains(lines, "\n"@, k);
        let j = join_seq(lines, "\n"@);
        let a = choose|a: int| occurs_at(j, e, a);
        let pre = "# "@ + title + "\n\n"@;
        let whole = tools_section(title, tools);
        assert(whole == pre + j);
        assert(whole.subrange(pre.len() + a, pre.len() + a + e.len()) =~= j.subrange(a, a + e.len()));
        assert(occurs_at(whole, e, pre.len() + a));
    }
    assert forall|i: int|
        0 <= i < tools.len() && #[trigger] tools[i].category is Web implies exists|a: int, b: int|
            0 <= a < b < tool_lines(tools).len() && tool_lines(tools)[a] == "## Web Tools"@
                && tool_lines(tools)[b] == tool_entry(tools[i]) by {
        assert(in_group(tools[i], 2));
        lemma_group_has(tools, 2, i);
        let k = choose|k: int| 0 <= k < group_entries(tools, 2).len() && group_entries(tools, 2)[k] == tool_entry(tools[i]);
        let a: int = (g0.len() + g1.len()) as int;
        assert(lines[a] == "## Web Tools"@);
        assert(lines[a + 1 + k] == tool_entry(tools[i]));
    }
}

/// Format the tools section, grouped by category.
pub fn format_tools_section(title: &str, tools: &Vec<ToolInfo>) -> (r: String)
    ensures
        r@ == tools_section(title@, tools@),
{
    let mut lines: Vec<String> = Vec::new();
    push_group(&mut lines, tools, 0, "## Internal Tools");
    push_group(&mut lines, tools, 1, "## Terminal Tools");
    push_group(&mut lines, tools, 2, "## Web Tools");
    push_others(&mut lines, tools);
    assert(views(lines@) =~= tool_lines(tools@));
    let body = join(&lines, "\n");
    let mut out = concat("# ", title);
    push_str(&mut out, "\n\n");
    push_str(&mut out, body.as_str());
    out
}

// ---------------------------------------------------------------------------
// Rendering a configuration
// ---------------------------------------------------------------------------

/// The sort key of a section: its priority, `d` when unset.
pub open spec fn priority_key_or(s: Section, d: u32) -> u32 {
    match s.priority {
        Some(p) => p,
        None => d,
    }
}

/// The sort key of a section: its priority, 50 when unset.
pub open spec fn priority_key(s: Section) -> u32 {
    priority_key_or(s, 50u32)
}

/// The first position from `i` on in `order` whose section key exceeds `k`.
pub open spec fn insert_pos(order: Seq<int>, keys: Seq<u32>, k: u32, i: int) -> int
    decreases order.len() - i,
{
    if i < 0 || i >= order.len() {
        order.len() as int
    } else if keys[order[i]] > k {
        i
    } else {
        insert_pos(order, keys, k, i + 1)
    }
}

/// The positions `0..n` ordered by key, ties in their original order (a
/// stable sort by insertion: each position goes after every earlier one whose
/// key is not greater).
pub open spec fn sort_order(keys: Seq<u32>, n: nat) -> Seq<int>
    decreases n,
{
    if n == 0 {
        Seq::empty()
    } else {
        let o = sort_order(keys, (n - 1) as nat);
        o.insert(insert_pos(o, keys, keys[n - 1], 0), n - 1)
    }
}

/// The sort keys of a list of sections.
pub open spec fn section_keys(secs: Seq<Section>) -> Seq<u32> {
    section_keys_or(secs, 50u32)
}

/// The sort keys of a list of sections, `d` standing for an unset priority.
pub open spec fn section_keys_or(secs: Seq<Section>, d: u32) -> Seq<u32> {
    secs.map_values(|s: Section| priority_key_or(s, d))
}

proof fn lemma_insert_pos_bounds(order: Seq<int>, keys: Seq<u32>, k: u32, i: int)
    requires
        0 <= i <= order.len(),
    ensures
        i <= insert_pos(order, keys, k, i) <= order.len(),
    decreases order.len() - i,
{
    if i < order.len() && !(keys[order[i]] > k) {
        lemma_insert_pos_bounds(order, keys, k, i + 1);
    }
}

proof fn lemma_sort_order_range(keys: Seq<u32>, n: nat)
    ensures
        sort_order(keys, n).len() == n,
        forall|i: int| 0 <= i < n ==> 0 <= #[trigger] sort_order(keys, n)[i] < n,
    decreases n,
{
    if n > 0 {
        let o = sort_order(keys, (n - 1) as nat);
        lemma_sort_order_range(keys, (n - 1) as nat);
        lemma_insert_pos_bounds(o, keys, keys[n - 1], 0);
        let p = insert_pos(o, keys, keys[n - 1], 0);
        assert forall|i: int| 0 <= i < n implies 0 <= #[trigger] sort_order(keys, n)[i] < n by {
            if i < p {
                assert(sort_order(keys, n)[i] == o[i]);
            } else if i > p {
                assert(sort_order(keys, n)[i] == o[i - 1]);
            }
        }
    }
}

fn section_key(s: &Section, d: u32) -> (r: u32)
    ensures
        r == priority_key_or(*s, d),
{
    match s.priority {
        Some(p) => p,
        None => d,
    }
}

/// The order in which sections are rendered (stable by priority).
pub(crate) fn sorted_section_order(secs: &Vec<Section>, d: u32) -> (r: Vec<usize>)
    ensures
        r@.map_values(|i: usize| i as int) == sort_order(section_keys_or(secs@, d), secs@.len()),
        forall|i: int| 0 <= i < r@.len() ==> #[trigger] r@[i] < secs@.len(),
{
    let ghost keys = section_keys_or(secs@, d);
    let mut order: Vec<usize> = Vec::new();
    let mut j: usize = 0;
    while j < secs.len()
        invariant
            j <= secs.len(),
            keys == section_keys_or(secs@, d),
            order@.map_values(|i: usize| i as int) == sort_order(keys, j as nat),
        decreases secs.len() - j,
    {
        let k: u32 = section_key(&secs[j], d);
        assert(k == keys[j as int]);
        let ghost o = order@.map_values(|i: usize| i as int);
        proof {
            lemma_sort_order_range(keys, j as nat);
        }
        let mut p: usize = 0;
        while p < order.len() && section_key(&secs[order[p]], d) <= k
            invariant
                p <= order.len(),
                o == order@.map_values(|i: usize| i as int),
                o.len() == j,
                forall|i: int| 0 <= i < j ==> 0 <= #[trigger] o[i] < j,
                j < secs.len(),
                keys == section_keys_or(secs@, d),
                k == keys[j as int],
                insert_pos(o, keys, k, 0) == insert_pos(o, keys, k, p as int),
            decreases order.len() - p,
        {
            assert(o[p as int] == order@[p as int] as int);
            p += 1;
        }
        if p < order.len() {
            assert(o[p as int] == order@[p as int] as int);
        }
        order.insert(p, j);
        assert(order@.map_values(|i: usize| i as int) =~= o.insert(p as int, j as int));
        j += 1;
    }
    proof {
        lemma_sort_order_range(keys, secs@.len());
        assert forall|i: int| 0 <= i < order@.len() implies #[trigger] order@[i] < secs@.len() by {
            assert(order@.map_values(|x: usize| x as int)[i] == order@[i] as int);
        }
    }
    order
}

/// The identity heading: name, description, and the capabilities when any.
pub open spec fn identity_text(id: IdentitySection) -> Seq<char> {
    "# "@ + id.name@ + "\n\n"@ + id.description@ + match id.capabilities {
        Some(c) => if c@.len() > 0 {
            "\nCapabilities: "@ + join_seq(views(c@), ", "@)
        } else {
            Seq::empty()
        },
        None => Seq::empty(),
    }
}

/// A section is left out when it requires an empty tool list or zero tools.
pub open spec fn included(s: Section) -> bool {
    match s.conditions {
        Some(c) => !(c.tools_required matches Some(v) && v@.len() == 0) && !(c.min_tools
            == Some(0usize)),
        None => true,
    }
}

/// A heading and a body.
pub open spec fn titled(title: Seq<char>, body: Seq<char>) -> Seq<char> {
    "# "@ + title + "\n\n"@ + body
}

/// The text of a generated section: the tools section when the context has
/// tools, the scratchpad when it is not blank, the static content (without
/// substitution) for other generators, nothing without a generator.
pub open spec fn dynamic_text(s: Section, ctx: RenderContext) -> Option<Seq<char>> {
    match s.generator {
        None => None,
        Some(g) => if g@ == "tools"@ {
            match ctx.tools {
                Some(t) => Some(tools_section(s.title@, t@)),
                None => None,
            }
        } else if g@ == "scratchpad"@ {
            match ctx.scratchpad {
                Some(sp) => if trim_seq(sp@).len() > 0 {
                    Some(titled(s.title@, sp@))
                } else {
                    None
                },
                None => None,
            }
        } else {
            match s.content {
                Some(c) => Some(titled(s.title@, c@)),
                None => None,
            }
        },
    }
}

/// The text of a section: generated, or its content with placeholders
/// substituted under its title.
pub open spec fn section_text(s: Section, ctx: RenderContext) -> Option<Seq<char>> {
    if s.dynamic == Some(true) {
        dynamic_text(s, ctx)
    } else {
        match s.content {
            Some(c) => Some(titled(s.title@, substituted(c@, brace_placeholders(c@), ctx))),
            None => None,
        }
    }
}

/// The rendered sections, in the given order: each included section whose
/// text is not blank.
pub open spec fn section_parts(secs: Seq<Section>, order: Seq<int>, ctx: RenderContext) -> Seq<
    Seq<char>,
>
    decreases order.len(),
{
    if order.len() == 0 {
        Seq::empty()
    } else {
        let prev = section_parts(secs, order.drop_last(), ctx);
        let s = secs[order.last()];
        match section_text(s, ctx) {
            Some(t) => if included(s) && trim_seq(t).len() > 0 {
                prev.push(t)
            } else {
                prev
            },
            None => prev,
        }
    }
}

/// The rendered prompt: the raw content with placeholders substituted when
/// there is one; otherwise the identity and the sections (stable by priority),
/// separated by blank lines.
pub open spec fn rendered(config: PromptConfig, ctx: RenderContext) -> Seq<char> {
    match config.raw_content {
        Some(raw) => substituted(raw@, brace_placeholders(raw@), ctx),
        None => join_seq(
            seq![identity_text(config.identity)] + section_parts(
                config.sections@,
                sort_order(section_keys(config.sections@), config.sections@.len()),
                ctx,
            ),
            "\n\n"@,
        ),
    }
}

proof fn lemma_section_same(a: Section, b: Section, ctx: RenderContext)
    requires
        section_view(a) == section_view(b),
    ensures
        section_text(a, ctx) == section_text(b, ctx),
        included(a) == included(b),
        priority_key(a) == priority_key(b),
{
    if a.conditions is Some {
        let ca = a.conditions->0;
        let cb = b.conditions->0;
        if ca.tools_required is Some {
            assert(views(ca.tools_required->0@).len() == ca.tools_required->0@.len());
            assert(views(cb.tools_required->0@).len() == cb.tools_required->0@.len());
        }
    }
}

proof fn lemma_parts_same(s1: Seq<Section>, s2: Seq<Section>, order: Seq<int>, ctx: RenderContext)
    requires
        s1.len() == s2.len(),
        forall|i: int| 0 <= i < s1.len() ==> section_view(#[trigger] s1[i]) == section_view(s2[i]),
        forall|i: int| 0 <= i < order.len() ==> 0 <= #[trigger] order[i] < s1.len(),
    ensures
        section_parts(s1, order, ctx) == section_parts(s2, order, ctx),
    decreases order.len(),
{
    if order.len() > 0 {
        lemma_parts_same(s1, s2, order.drop_last(), ctx);
        let k = order.last();
        assert(0 <= k < s1.len());
        lemma_section_same(s1[k], s2[k], ctx);
    }
}

/// A law of rendering: what a configuration renders to depends only on what
/// it holds (its full view), so two configurations with the same view render
/// the same text in every context.
pub proof fn lemma_rendered_by_view(c1: PromptConfig, c2: PromptConfig, ctx: RenderContext)
    requires
        config_view(c1) == config_view(c2),
    ensures
        rendered(c1, ctx) == rendered(c2, ctx),
{
    let s1 = c1.sections@;
    let s2 = c2.sections@;
    assert(s1.len() == s2.len()) by {
        assert(s1.map_values(|s: Section| section_view(s)).len() == s2.map_values(|s: Section| section_view(s)).len());
    }
    assert forall|i: int| 0 <= i < s1.len() implies section_view(#[trigger] s1[i]) == section_view(s2[i]) by {
        assert(s1.map_values(|s: Section| section_view(s))[i] == s2.map_values(|s: Section| section_view(s))[i]);
    }
    assert(section_keys(s1) =~= section_keys(s2)) by {
        assert forall|i: int| 0 <= i < s1.len() implies section_keys(s1)[i] == section_keys(s2)[i] by {
            lemma_section_same(s1[i], s2[i], ctx);
        }
    }
    let order = sort_order(section_keys(s1), s1.len());
    lemma_sort_order_range(section_keys(s1), s1.len());
    lemma_parts_same(s1, s2, order, ctx);
    if c1.identity.capabilities is Some {
        let v1 = c1.identity.capabilities->0;
        let v2 = c2.identity.capabilities->0;
        assert(views(v1@).len() == v1@.len() && views(v2@).len() == v2@.len());
    }
    assert(identity_text(c1.identity) == identity_text(c2.identity));
}

/// The renderer of prompt configurations.
pub struct PromptRenderer;

fn render_identity(identity: &IdentitySection) -> (r: String)
    ensures
        r@ == identity_text(*identity),
{
    let mut out = concat("# ", identity.name.as_str());
    push_str(&mut out, "\n\n");
    push_str(&mut out, identity.description.as_str());
    if let Some(caps) = &identity.capabilities {
        if caps.len() > 0 {
            push_str(&mut out, "\nCapabilities: ");
            let j = join(caps, ", ");
            push_str(&mut out, j.as_str());
        }
    }
    out
}

fn should_include_section(section: &Section) -> (r: bool)
    ensures
        r == included(*section),
{
    if let Some(conditions) = &section.conditions {
        if let Some(tools_required) = &conditions.tools_required {
            if tools_required.len() == 0 {
                return false;
            }
        }
        if let Some(min_tools) = conditions.min_tools {
            if min_tools == 0 {
                return false;
            }
        }
    }
    true
}

fn titled_text(title: &str, body: &str) -> (r: String)
    ensures
        r@ == titled(title@, body@),
{
    let mut out = concat("# ", title);
    push_str(&mut out, "\n\n");
    push_str(&mut out, body);
    out
}

fn render_dynamic_section(section: &Section, ctx: &RenderContext) -> (r: Option<String>)
    ensures
        opt_view(r) == dynamic_text(*section, *ctx),
{
    match &section.generator {
        None => None,
        Some(g) => {
            if str_eq(g.as_str(), "tools") {
                match &ctx.tools {
                    Some(t) => Some(format_tools_section(section.title.as_str(), t)),
                    None => None,
                }
            } else if str_eq(g.as_str(), "scratchpad") {
                match &ctx.scratchpad {
                    Some(sp) => if !is_blank(sp.as_str()) {
                        Some(titled_text(section.title.as_str(), sp.as_str()))
                    } else {
                        None
                    },
                    None => None,
                }
            } else {
                match &section.content {
                    Some(c) => Some(titled_text(section.title.as_str(), c.as_str())),
                    None => None,
                }
            }
        },
    }
}

fn render_section(section: &Section, ctx: &RenderContext) -> (r: Option<String>)
    requires
        ctx.variables.wf(),
    ensures
        opt_view(r) == section_text(*section, *ctx),
{
    if section.dynamic == Some(true) {
        return render_dynamic_section(section, ctx);
    }
    match &section.content {
        Some(c) => {
            let sub = substitute_variables(c.as_str(), ctx);
            Some(titled_text(section.title.as_str(), sub.as_str()))
        },
        None => None,
    }
}

impl PromptRenderer {
    /// Render a prompt configuration to a string.
    pub fn render(config: &PromptConfig, ctx: &RenderContext) -> (r: String)
        requires
            ctx.variables.wf(),
        ensures
            r@ == rendered(*config, *ctx),
    {
        if let Some(raw) = &config.raw_content {
            return substitute_variables(raw.as_str(), ctx);
        }
        let order = sorted_section_order(&config.sections, 50);
        let ghost ord = order@.map_values(|i: usize| i as int);
        let mut parts: Vec<String> = Vec::new();
        parts.push(render_identity(&config.identity));
        let mut k: usize = 0;
        while k < order.len()
            invariant
                k <= order.len(),
                ctx.variables.wf(),
                ord == order@.map_values(|i: usize| i as int),
                forall|i: int| 0 <= i < order@.len() ==> #[trigger] order@[i] < config.sections@.len(),
                views(parts@) == seq![identity_text(config.identity)] + section_parts(
                    config.sections@,
                    ord.take(k as int),
                    *ctx,
                ),
            decreases order.len() - k,
        {
            let idx = order[k];
            assert(ord.take(k + 1).drop_last() =~= ord.take(k as int));
            assert(ord.take(k + 1).last() == idx as int);
            let section = &config.sections[idx];
            if should_include_section(section) {
                if let Some(content) = render_section(section, ctx) {
                    if !is_blank(content.as_str()) {
                        let ghost before = views(parts@);
                        parts.push(content);
                        assert(views(parts@) =~= before.push(content@));
                    }
                }
            }
            k += 1;
        }
        assert(ord.take(order.len() as int) =~= ord);
        join(&parts, "\n\n")
    }

    /// Render just the tools section.
    pub fn render_tools(tools: &Vec<ToolInfo>) -> (r: String)
        ensures
            r@ == tools_section("Available Tools"@, tools@),
    {
        format_tools_section("Available Tools", tools)
    }
}

} // verus!
