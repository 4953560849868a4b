//! Prompt texts of configuration v2: the capabilities section generated
//! from the available tools, and the rendering of a prompt configuration.

use vstd::prelude::*;
use crate::agent::v2::protocol::ToolKind;
use crate::text::opt_view;
use crate::config::prompt::renderer::{sort_order, section_keys_or, sorted_section_order};
use crate::config::prompt_schema::{IdentitySection, PromptConfig, Section};
use crate::named_map::lookup;
use crate::text::{concat, is_blank, join, join_seq, push_str, replace_all, replace_seq, str_eq,
    to_owned, trim_seq, views};

verus! {

/// What the capabilities prompt tells of a tool.
#[derive(Debug, Clone)]
pub struct ToolDescriptor {
    pub name: String,
    pub description: String,
    pub usage: String,
    pub kind: ToolKind,
}

/// The capabilities text when no tool is available.
pub const CAPABILITIES_PROMPT_MINIMAL: &'static str = "# YOUR CAPABILITIES\n\nYou are MYLM (My Local Model), an autonomous AI agent.\n\nNo tools are currently available. Respond to the user with your knowledge only.\n";

/// The text standing for an empty scratchpad.
pub const EMPTY_SCRATCHPAD: &'static str = "(Empty - will be populated during session)";

/// "- `name` - description\n" for each tool of the kind, in order.
pub open spec fn kind_lines(tools: Seq<ToolDescriptor>, kind: ToolKind) -> Seq<char>
    decreases tools.len(),
{
    if tools.len() == 0 {
        Seq::empty()
    } else {
        let t = tools.last();
        kind_lines(tools.drop_last(), kind) + if t.kind == kind {
            "- `"@ + t.name@ + "` - "@ + t.description@ + "\n"@
        } else {
            Seq::empty()
        }
    }
}

/// Some tool has the kind.
pub open spec fn has_kind(tools: Seq<ToolDescriptor>, kind: ToolKind) -> bool {
    exists|i: int| 0 <= i < tools.len() && #[trigger] tools[i].kind == kind
}

/// A heading over the tools of one kind, or nothing when there are none.
pub open spec fn kind_block(tools: Seq<ToolDescriptor>, kind: ToolKind, heading: Seq<char>) -> Seq<
    char,
> {
    if has_kind(tools, kind) {
        heading + kind_lines(tools, kind) + "\n"@
    } else {
        Seq::empty()
    }
}

/// The usage details of each tool, in order.
pub open spec fn usage_details(tools: Seq<ToolDescriptor>) -> Seq<char>
    decreases tools.len(),
{
    if tools.len() == 0 {
        Seq::empty()
    } else {
        let t = tools.last();
        usage_details(tools.drop_last()) + "### `"@ + t.name@ + "`\n"@ + "- **Description**: "@
            + t.description@ + "\n"@ + "- **Usage**: "@ + t.usage@ + "\n"@ + "\n"@
    }
}

/// The delegation guide, shown when an internal tool is named `delegate`.
pub open spec fn delegate_guide() -> Seq<char> {
    "## Background Jobs (Parallel Execution)\nUse the `delegate` tool to spawn parallel workers for subtasks:\n- Workers run in the background automatically\n- Continue with YOUR own work while they run\n- The system will notify you when workers complete\n- DO NOT try to manage workers via terminal commands\n- DO NOT wait idle for workers - do other useful work\n- Use `list_jobs` tool to check worker status anytime\n"@
}

/// An internal tool is named `delegate`.
pub open spec fn has_delegate(tools: Seq<ToolDescriptor>) -> bool {
    exists|i: int|
        0 <= i < tools.len() && tools[i].kind == ToolKind::Internal && #[trigger] tools[i].name@
            == "delegate"@
}

/// The capabilities prompt for a tool list: tools grouped by kind, their
/// usage, the workflow, and the delegation guide where it applies; a short
/// text without tools.
pub open spec fn capabilities_spec(tools: Seq<ToolDescriptor>) -> Seq<char> {
    if tools.len() == 0 {
        CAPABILITIES_PROMPT_MINIMAL@
    } else {
        "# YOUR CAPABILITIES\n\nYou are MYLM (My Local Model), an autonomous AI agent with access to tools and memory.\n\n## Tools Available\n\n"@
            + kind_block(tools, ToolKind::Internal, "### Memory & State (USE FIRST)\n"@)
            + kind_block(tools, ToolKind::Terminal, "### Terminal & Execution\n"@) + kind_block(
            tools,
            ToolKind::Web,
            "### Web & External\n"@,
        ) + "## Tool Usage Details\n\n"@ + usage_details(tools)
            + "## Operational Workflow\n1. **Recall**: Check `memory` for past lessons.\n2. **Search**: Use `grep` to find relevant code.\n3. **Plan**: Use `scratchpad` to outline steps.\n4. **Act**: Execute tools.\n5. **Record**: Save new insights to `memory`.\n\n"@
            + if has_delegate(tools) {
            delegate_guide()
        } else {
            Seq::empty()
        }
    }
}

fn push_kind_block(out: &mut String, tools: &Vec<ToolDescriptor>, kind: ToolKind, heading: &str)
    ensures
        final(out)@ == old(out)@ + kind_block(tools@, kind, heading@),
{
    let mut lines = String::new();
    let mut any = false;
    let mut i: usize = 0;
    while i < tools.len()
        invariant
            i <= tools.len(),
            lines@ == kind_lines(tools@.take(i as int), kind),
            any == has_kind(tools@.take(i as int), kind),
        decreases tools.len() - i,
    {
        let ghost t = tools@.take(i + 1);
        assert(t.drop_last() =~= tools@.take(i as int));
        assert(t.last() == tools@[i as int]);
        if tools[i].kind == kind {
            push_str(&mut lines, "- `");
            push_str(&mut lines, tools[i].name.as_str());
            push_str(&mut lines, "` - ");
            push_str(&mut lines, tools[i].description.as_str());
            push_str(&mut lines, "\n");
            any = true;
            assert(t[i as int].kind == kind);
        } else {
            assert(has_kind(t, kind) == has_kind(tools@.take(i as int), kind)) by {
                if has_kind(t, kind) {
                    let w = choose|w: int| 0 <= w < t.len() && #[trigger] t[w].kind == kind;
                    assert(tools@.take(i as int)[w].kind == kind);
                }
                if has_kind(tools@.take(i as int), kind) {
                    let w = choose|w: int|
                        0 <= w < tools@.take(i as int).len() && #[trigger] tools@.take(
                            i as int,
                        )[w].kind == kind;
                    assert(t[w].kind == kind);
                }
            }
        }
        i += 1;
    }
    assert(tools@.take(i as int) =~= tools@);
    if any {
        push_str(out, heading);
        push_str(out, lines.as_str());
        push_str(out, "\n");
    }
}

fn push_usage_details(out: &mut String, tools: &Vec<ToolDescriptor>)
    ensures
        final(out)@ == old(out)@ + usage_details(tools@),
{
    let mut i: usize = 0;
    assert(old(out)@ + usage_details(tools@.take(0)) =~= old(out)@);
    while i < tools.len()
        invariant
            i <= tools.len(),
            out@ == old(out)@ + usage_details(tools@.take(i as int)),
        decreases tools.len() - i,
    {
        let ghost t = tools@.take(i + 1);
        assert(t.drop_last() =~= tools@.take(i as int));
        assert(t.last() == tools@[i as int]);
        push_str(out, "### `");
        push_str(out, tools[i].name.as_str());
        push_str(out, "`\n");
        push_str(out, "- **Description**: ");
        push_str(out, tools[i].description.as_str());
        push_str(out, "\n");
        push_str(out, "- **Usage**: ");
        push_str(out, tools[i].usage.as_str());
        push_str(out, "\n");
        push_str(out, "\n");
        assert(out@ =~= old(out)@ + usage_details(t));
        i += 1;
    }
    assert(tools@.take(i as int) =~= tools@);
}

fn find_delegate(tools: &Vec<ToolDescriptor>) -> (r: bool)
    ensures
        r == has_delegate(tools@),
{
    let mut i: usize = 0;
    while i < tools.len()
        invariant
            i <= tools.len(),
            forall|j: int|
                0 <= j < i ==> !(tools@[j].kind == ToolKind::Internal && #[trigger] tools@[j].name@
                    == "delegate"@),
        decreases tools.len() - i,
    {
        if tools[i].kind == ToolKind::Internal && str_eq(tools[i].name.as_str(), "delegate") {
            return true;
        }
        i += 1;
    }
    false
}

/// Generates the capabilities prompt from the available tools.
pub fn generate_capabilities_prompt(tools: &Vec<ToolDescriptor>) -> (r: String)
    ensures
        r@ == capabilities_spec(tools@),
{
    if tools.len() == 0 {
        return to_owned(CAPABILITIES_PROMPT_MINIMAL);
    }
    let mut out = to_owned(
        "# YOUR CAPABILITIES\n\nYou are MYLM (My Local Model), an autonomous AI agent with access to tools and memory.\n\n## Tools Available\n\n",
    );
    push_kind_block(&mut out, tools, ToolKind::Internal, "### Memory & State (USE FIRST)\n");
    push_kind_block(&mut out, tools, ToolKind::Terminal, "### Terminal & Execution\n");
    push_kind_block(&mut out, tools, ToolKind::Web, "### Web & External\n");
    push_str(&mut out, "## Tool Usage Details\n\n");
    push_usage_details(&mut out, tools);
    push_str(
        &mut out,
        "## Operational Workflow\n1. **Recall**: Check `memory` for past lessons.\n2. **Search**: Use `grep` to find relevant code.\n3. **Plan**: Use `scratchpad` to outline steps.\n4. **Act**: Execute tools.\n5. **Record**: Save new insights to `memory`.\n\n",
    );
    if find_delegate(tools) {
        push_str(
            &mut out,
            "## Background Jobs (Parallel Execution)\nUse the `delegate` tool to spawn parallel workers for subtasks:\n- Workers run in the background automatically\n- Continue with YOUR own work while they run\n- The system will notify you when workers complete\n- DO NOT try to manage workers via terminal commands\n- DO NOT wait idle for workers - do other useful work\n- Use `list_jobs` tool to check worker status anytime\n",
        );
    }
    out
}

/// What the environment supplies to a rendering.
#[derive(Debug, Clone)]
pub struct PromptEnvironment {
    /// The local date and time, formatted.
    pub datetime: String,
    pub working_directory: Option<String>,
    pub git_branch: Option<String>,
}

/// The body of a section, if it is rendered: the generated text of a
/// dynamic section (tools when they are given, the scratchpad or its
/// placeholder), else its content.
pub open spec fn section_body(s: Section, tools: Option<Seq<ToolDescriptor>>, scratchpad: Option<
    Seq<char>,
>) -> Option<Seq<char>> {
    if s.dynamic == Some(true) {
        match s.generator {
            Some(g) => if g@ == "tools"@ {
                match tools {
                    Some(t) => Some(capabilities_spec(t)),
                    None => None,
                }
            } else if g@ == "scratchpad"@ {
                let pad = match scratchpad {
                    Some(p) => p,
                    None => EMPTY_SCRATCHPAD@,
                };
                if trim_seq(pad).len() == 0 {
                    Some(EMPTY_SCRATCHPAD@)
                } else {
                    Some(pad)
                }
            } else {
                None
            },
            None => None,
        }
    } else {
        opt_view(s.content)
    }
}

/// The rendered sections in the given order: "## title\n\nbody" for each
/// section that has a body.
pub open spec fn v2_parts(
    secs: Seq<Section>,
    order: Seq<int>,
    tools: Option<Seq<ToolDescriptor>>,
    scratchpad: Option<Seq<char>>,
) -> Seq<Seq<char>>
    decreases order.len(),
{
    if order.len() == 0 {
        Seq::empty()
    } else {
        let prev = v2_parts(secs, order.drop_last(), tools, scratchpad);
        let s = secs[order.last()];
        match section_body(s, tools, scratchpad) {
            Some(b) => prev.push("## "@ + s.title@ + "\n\n"@ + b),
            None => prev,
        }
    }
}

/// The values put in for the placeholders, in the order they are replaced.
pub open spec fn placeholder_values(
    config: PromptConfig,
    tools: Option<Seq<ToolDescriptor>>,
    scratchpad: Option<Seq<char>>,
    env: PromptEnvironment,
) -> Seq<(Seq<char>, Seq<char>)> {
    seq![
        ("{datetime}"@, env.datetime@),
        ("{working_directory}"@, match env.working_directory {
            Some(w) => w@,
            None => "unknown"@,
        }),
        ("{git_branch}"@, match env.git_branch {
            Some(b) => b@,
            None => "unknown"@,
        }),
        ("{mode}"@, "default"@),
        ("{user_instructions}"@, match config.placeholders {
            Some(m) => match lookup(m@, "user_instructions"@) {
                Some(v) => v@,
                None => Seq::empty(),
            },
            None => Seq::empty(),
        }),
        ("{tools}"@, match tools {
            Some(t) => capabilities_spec(t),
            None => Seq::empty(),
        }),
        ("{scratchpad}"@, match scratchpad {
            Some(p) => p,
            None => EMPTY_SCRATCHPAD@,
        }),
    ]
}

/// The text after each placeholder in turn is replaced by its value.
pub open spec fn replace_each(text: Seq<char>, pairs: Seq<(Seq<char>, Seq<char>)>) -> Seq<char>
    decreases pairs.len(),
{
    if pairs.len() == 0 {
        text
    } else {
        replace_each(replace_seq(text, pairs[0].0, pairs[0].1), pairs.drop_first())
    }
}

/// The rendered prompt: the sections in stable priority order (100 where
/// unset), joined by rules, with the placeholders replaced.
pub open spec fn v2_rendered(
    config: PromptConfig,
    tools: Option<Seq<ToolDescriptor>>,
    scratchpad: Option<Seq<char>>,
    env: PromptEnvironment,
) -> Seq<char> {
    replace_each(
        join_seq(
            v2_parts(
                config.sections@,
                sort_order(section_keys_or(config.sections@, 100u32), config.sections@.len()),
                tools,
                scratchpad,
            ),
            "\n\n---\n\n"@,
        ),
        placeholder_values(config, tools, scratchpad, env),
    )
}

fn render_body(
    section: &Section,
    tools: Option<&Vec<ToolDescriptor>>,
    scratchpad: Option<&str>,
) -> (r: Option<String>)
    ensures
        opt_view(r) == section_body(*section, match tools {
            Some(t) => Some(t@),
            None => None,
        }, match scratchpad {
            Some(p) => Some(p@),
            None => None,
        }),
{
    if section.dynamic == Some(true) {
        match &section.generator {
            Some(g) => {
                if str_eq(g.as_str(), "tools") {
                    match tools {
                        Some(t) => Some(generate_capabilities_prompt(t)),
                        None => None,
                    }
                } else if str_eq(g.as_str(), "scratchpad") {
                    let pad = match scratchpad {
                        Some(p) => p,
                        None => EMPTY_SCRATCHPAD,
                    };
                    if is_blank(pad) {
                        Some(to_owned(EMPTY_SCRATCHPAD))
                    } else {
                        Some(to_owned(pad))
                    }
                } else {
                    None
                }
            },
            None => None,
        }
    } else {
        match &section.content {
            Some(c) => Some(c.clone()),
            None => None,
        }
    }
}

/// Renders a prompt configuration with the given tools, scratchpad and
/// environment.
pub fn render_config(
    config: &PromptConfig,
    tools: Option<&Vec<ToolDescriptor>>,
    scratchpad: Option<&str>,
    env: &PromptEnvironment,
) -> (r: String)
    requires
        match config.placeholders {
            Some(m) => m.wf(),
            None => true,
        },
    ensures
        r@ == v2_rendered(*config, match tools {
            Some(t) => Some(t@),
            None => None,
        }, match scratchpad {
            Some(p) => Some(p@),
            None => None,
        }, *env),
{
    let ghost tv = match tools {
        Some(t) => Some(t@),
        None => None,
    };
    let ghost sv = match scratchpad {
        Some(p) => Some(p@),
        None => None,
    };
    let order = sorted_section_order(&config.sections, 100);
    let ghost ord = order@.map_values(|i: usize| i as int);
    let mut parts: Vec<String> = Vec::new();
    let mut k: usize = 0;
    while k < order.len()
        invariant
            k <= order.len(),
            ord == order@.map_values(|i: usize| i as int),
            forall|i: int| 0 <= i < order@.len() ==> #[trigger] order@[i] < config.sections@.len(),
            tv == match tools {
                Some(t) => Some(t@),
                None => None::<Seq<ToolDescriptor>>,
            },
            sv == match scratchpad {
                Some(p) => Some(p@),
                None => None::<Seq<char>>,
            },
            views(parts@) == v2_parts(config.sections@, ord.take(k as int), tv, sv),
        decreases order.len() - k,
    {
        let idx = order[k];
        assert(ord.take(k + 1).drop_last() =~= ord.take(k as int));
        assert(ord.take(k + 1).last() == idx as int);
        let section = &config.sections[idx];
        match render_body(section, tools, scratchpad) {
            Some(body) => {
                let mut part = concat("## ", section.title.as_str());
                push_str(&mut part, "\n\n");
                push_str(&mut part, body.as_str());
                let ghost before = views(parts@);
                parts.push(part);
                assert(views(parts@) =~= before.push(part@));
            },
            None => {},
        }
        k += 1;
    }
    assert(ord.take(order.len() as int) =~= ord);
    let joined = join(&parts, "\n\n---\n\n");
    let wd = match &env.working_directory {
        Some(w) => w.clone(),
        None => to_owned("unknown"),
    };
    let branch = match &env.git_branch {
        Some(b) => b.clone(),
        None => to_owned("unknown"),
    };
    let instructions = match &config.placeholders {
        Some(m) => match m.get("user_instructions") {
            Some(v) => v.clone(),
            None => String::new(),
        },
        None => String::new(),
    };
    let tools_text = match tools {
        Some(t) => generate_capabilities_prompt(t),
        None => String::new(),
    };
    let pad = match scratchpad {
        Some(p) => p,
        None => EMPTY_SCRATCHPAD,
    };
    let ghost pairs = placeholder_values(*config, tv, sv, *env);
    proof {
        reveal_strlit("{datetime}");
        reveal_strlit("{working_directory}");
        reveal_strlit("{git_branch}");
        reveal_strlit("{mode}");
        reveal_strlit("{user_instructions}");
        reveal_strlit("{tools}");
        reveal_strlit("{scratchpad}");
    }
    let r1 = replace_all(joined.as_str(), "{datetime}", env.datetime.as_str());
    let r2 = replace_all(r1.as_str(), "{working_directory}", wd.as_str());
    let r3 = replace_all(r2.as_str(), "{git_branch}", branch.as_str());
    let r4 = replace_all(r3.as_str(), "{mode}", "default");
    let r5 = replace_all(r4.as_str(), "{user_instructions}", instructions.as_str());
    let r6 = replace_all(r5.as_str(), "{tools}", tools_text.as_str());
    let r7 = replace_all(r6.as_str(), "{scratchpad}", pad);
    proof {
        reveal_strlit("");
        assert(pairs.drop_first().drop_first().drop_first().drop_first().drop_first().drop_first().drop_first()
            =~= Seq::<(Seq<char>, Seq<char>)>::empty());
        reveal_with_fuel(replace_each, 8);
    }
    r7
}

/// The note left where the identity prompt used to be.
pub fn get_identity_prompt() -> (r: &'static str)
    ensures
        r@ == "Identity prompt is now loaded from config. Use build_system_prompt()."@,
{
    "Identity prompt is now loaded from config. Use build_system_prompt()."
}

/// The note left where the memory protocol used to be.
pub fn get_memory_protocol() -> (r: &'static str)
    ensures
        r@ == "Memory protocol is now loaded from config. Use build_memory_prompt()."@,
{
    "Memory protocol is now loaded from config. Use build_memory_prompt()."
}

/// The note left where the ReAct protocol used to be.
pub fn get_react_protocol() -> (r: &'static str)
    ensures
        r@
            == "ReAct protocol is now loaded from config. Check the protocols section of your prompt config."@,
{
    "ReAct protocol is now loaded from config. Check the protocols section of your prompt config."
}

/// The user's prompts directory, `mylm/prompts` under the configuration
/// directory, else the project's `assets/prompts`.
pub fn get_user_prompts_dir() -> std::path::PathBuf {
    match crate::config::prompt::loader::user_config_dir() {
        Some(dir) => {
            let base = crate::config::prompt::loader::join_path(&dir, "mylm");
            crate::config::prompt::loader::join_path(&base, "prompts")
        },
        None => {
            let base = crate::config::prompt::loader::path_from("assets");
            crate::config::prompt::loader::join_path(&base, "prompts")
        },
    }
}

/// How a prompt configuration file is read.
#[derive(Debug, Clone, Copy, PartialEq, Eq, Structural)]
pub enum ConfigFormat {
    Json,
    Yaml,
    Markdown,
}

impl ConfigFormat {
    /// The format of a configuration file by its extension: `yaml` and `yml`
    /// are YAML, anything else JSON.
    pub fn from_extension(ext: &str) -> (r: ConfigFormat)
        ensures
            r == if ext@ == "yaml"@ || ext@ == "yml"@ {
                ConfigFormat::Yaml
            } else {
                ConfigFormat::Json
            },
    {
        if str_eq(ext, "yaml") || str_eq(ext, "yml") {
            ConfigFormat::Yaml
        } else {
            ConfigFormat::Json
        }
    }
}

/// The directories prompt configurations are looked for in.
#[derive(Debug, Clone, Copy, PartialEq, Eq, Structural)]
pub enum PromptDir {
    /// `mylm/prompts` under the user's configuration directory.
    User,
    /// The project's `assets/prompts`.
    Project,
}

/// A file that may hold a prompt configuration: its directory, whether it
/// sits in that directory's `config` subdirectory, its name and format.
#[derive(Debug, Clone)]
pub struct PromptFileCandidate {
    pub dir: PromptDir,
    pub in_config_subdir: bool,
    pub file_name: String,
    pub format: ConfigFormat,
}

/// The view of a candidate.
pub open spec fn candidate_view(c: PromptFileCandidate) -> (PromptDir, bool, Seq<char>, ConfigFormat) {
    (c.dir, c.in_config_subdir, c.file_name@, c.format)
}

/// The structured candidates of a directory, in the order `json`, `yaml`,
/// `yml`.
pub open spec fn structured_candidates(dir: PromptDir, name: Seq<char>) -> Seq<(PromptDir, bool, Seq<char>, ConfigFormat)> {
    seq![
        (dir, true, name + ".json"@, ConfigFormat::Json),
        (dir, true, name + ".yaml"@, ConfigFormat::Yaml),
        (dir, true, name + ".yml"@, ConfigFormat::Yaml),
    ]
}

/// Where the configuration `name` is looked for, in order (the first file
/// that exists wins): the user's `config` files, then the project's, then
/// the markdown files of the user's and the project's prompts directories.
/// The user's directories are left out when there is none.
pub open spec fn prompt_file_plan(name: Seq<char>, has_user_dir: bool) -> Seq<(PromptDir, bool, Seq<char>, ConfigFormat)> {
    let md = (PromptDir::Project, false, name + ".md"@, ConfigFormat::Markdown);
    if has_user_dir {
        structured_candidates(PromptDir::User, name) + structured_candidates(PromptDir::Project, name)
            + seq![(PromptDir::User, false, name + ".md"@, ConfigFormat::Markdown), md]
    } else {
        structured_candidates(PromptDir::Project, name) + seq![md]
    }
}

fn candidate(dir: PromptDir, in_config_subdir: bool, name: &str, ext: &str, format: ConfigFormat) -> (r: PromptFileCandidate)
    ensures
        candidate_view(r) == (dir, in_config_subdir, name@ + ext@, format),
{
    PromptFileCandidate { dir, in_config_subdir, file_name: concat(name, ext), format }
}

fn push_structured(plan: &mut Vec<PromptFileCandidate>, dir: PromptDir, name: &str)
    ensures
        final(plan)@.map_values(|c: PromptFileCandidate| candidate_view(c)) == old(plan)@.map_values(
            |c: PromptFileCandidate| candidate_view(c),
        ) + structured_candidates(dir, name@),
{
    let ghost before = plan@.map_values(|c: PromptFileCandidate| candidate_view(c));
    plan.push(candidate(dir, true, name, ".json", ConfigFormat::Json));
    plan.push(candidate(dir, true, name, ".yaml", ConfigFormat::Yaml));
    plan.push(candidate(dir, true, name, ".yml", ConfigFormat::Yaml));
    assert(plan@.map_values(|c: PromptFileCandidate| candidate_view(c)) =~= before + structured_candidates(dir, name@));
}

/// The files to look for the configuration `name` in, in order (see
/// `prompt_file_plan`).
pub fn prompt_file_candidates(name: &str, has_user_dir: bool) -> (r: Vec<PromptFileCandidate>)
    ensures
        r@.map_values(|c: PromptFileCandidate| candidate_view(c)) == prompt_file_plan(name@, has_user_dir),
{
    let mut plan: Vec<PromptFileCandidate> = Vec::new();
    assert(plan@.map_values(|c: PromptFileCandidate| candidate_view(c)) =~= Seq::empty());
    if has_user_dir {
        push_structured(&mut plan, PromptDir::User, name);
    }
    push_structured(&mut plan, PromptDir::Project, name);
    let ghost mid = plan@.map_values(|c: PromptFileCandidate| candidate_view(c));
    if has_user_dir {
        plan.push(candidate(PromptDir::User, false, name, ".md", ConfigFormat::Markdown));
    }
    plan.push(candidate(PromptDir::Project, false, name, ".md", ConfigFormat::Markdown));
    proof {
        let v = plan@.map_values(|c: PromptFileCandidate| candidate_view(c));
        if has_user_dir {
            assert(v =~= mid + seq![(PromptDir::User, false, name@ + ".md"@, ConfigFormat::Markdown), (
                PromptDir::Project,
                false,
                name@ + ".md"@,
                ConfigFormat::Markdown,
            )]);
        } else {
            assert(v =~= mid + seq![(PromptDir::Project, false, name@ + ".md"@, ConfigFormat::Markdown)]);
        }
    }
    plan
}

/// The configuration a markdown prompt file stands for: version `1.0`, the
/// `MYLM` identity, no sections, and the file's text as raw content.
pub fn markdown_prompt_config(content: String) -> (r: PromptConfig)
    ensures
        r.version@ == "1.0"@,
        r.identity.name@ == "MYLM"@,
        r.identity.description@ == "Autonomous AI assistant"@,
        r.identity.capabilities is None,
        r.sections@.len() == 0,
        r.placeholders is None,
        r.protocols is None,
        r.variables is None,
        r.raw_content == Some(content),
{
    PromptConfig {
        version: "1.0".to_string(),
        identity: IdentitySection {
            name: "MYLM".to_string(),
            description: "Autonomous AI assistant".to_string(),
            capabilities: None,
        },
        sections: Vec::new(),
        placeholders: None,
        protocols: None,
        variables: None,
        raw_content: Some(content),
    }
}

} // verus!
