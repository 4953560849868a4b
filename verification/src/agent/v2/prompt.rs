//! The system prompt of the agent: its prefix, the tools, the scratchpad,
//! the Short-Key JSON protocol and the capabilities context.

use vstd::prelude::*;
use crate::config::v2::prompts::ToolDescriptor;
use crate::text::{concat, push_str, to_owned};

verus! {

/// The protocol part of the system prompt, after the tools and the
/// scratchpad.
pub const RESPONSE_FORMAT_GUIDE: &'static str = "\n# Response Format: Short-Key JSON Protocol\nYou MUST respond using the Short-Key JSON protocol. This format minimizes token usage and ensures structural integrity.\n\n## Schema\n- `t`: Thought. Your internal reasoning and next steps (optional; may be omitted for a direct final answer).\n- `a`: Action. The name of the tool to execute (optional if providing final answer).\n- `i`: Input. The arguments for the tool in strict JSON format (optional).\n- `f`: Final Answer. Your final response to the user (optional).\n\n## Examples\n### Single Tool Call\n```json\n{\"t\": \"I need to list files in the current directory.\", \"a\": \"execute_command\", \"i\": \"ls\"}\n```\n\n### Parallel Tool Calls\nYou can execute multiple tools in parallel by returning an array of objects. Use this for independent operations like reading multiple files or searching different sources.\n```json\n[\n{\"t\": \"Checking config...\", \"a\": \"execute_command\", \"i\": \"cat config.json\"},\n{\"t\": \"Checking logs...\", \"a\": \"execute_command\", \"i\": \"tail -n 20 error.log\"}\n]\n```\n\n### Final Answer\n```json\n{\"f\": \"The project has been successfully initialized.\"}\n```\n\nIMPORTANT: Always wrap your JSON in a code block or return it as the raw response. Ensure all tool inputs are valid JSON objects.\n\nBegin!";

/// Builds the system prompt from a prefix, the tools and an optional
/// capabilities context.
#[derive(Debug, Clone)]
pub struct PromptBuilder {
    pub system_prompt_prefix: String,
    pub tools: Vec<ToolDescriptor>,
    pub capabilities_context: Option<String>,
}

/// "- name: description\n  Usage: usage\n" for each tool, in order.
pub open spec fn tools_description_spec(tools: Seq<ToolDescriptor>) -> Seq<char>
    decreases tools.len(),
{
    if tools.len() == 0 {
        Seq::empty()
    } else {
        let t = tools.last();
        tools_description_spec(tools.drop_last()) + "- "@ + t.name@ + ": "@ + t.description@
            + "\n  Usage: "@ + t.usage@ + "\n"@
    }
}

/// The scratchpad section, empty for an empty scratchpad.
pub open spec fn scratchpad_section_spec(content: Seq<char>) -> Seq<char> {
    if content.len() == 0 {
        Seq::empty()
    } else {
        "\n\n## CURRENT SCRATCHPAD (Working Memory)\n"@ + content + "\n"@
    }
}

/// The capabilities section, empty without a context.
pub open spec fn capabilities_section_spec(ctx: Option<String>) -> Seq<char> {
    match ctx {
        Some(c) => "\n\n"@ + c@ + "\n"@,
        None => Seq::empty(),
    }
}

/// The system prompt.
pub open spec fn system_prompt_spec(b: PromptBuilder, scratchpad: Seq<char>) -> Seq<char> {
    b.system_prompt_prefix@ + "\n\n# Available Tools\n"@ + tools_description_spec(b.tools@)
        + "\n"@ + scratchpad_section_spec(scratchpad) + RESPONSE_FORMAT_GUIDE@
        + capabilities_section_spec(b.capabilities_context)
}

impl PromptBuilder {
    /// A builder.
    pub fn new(
        system_prompt_prefix: String,
        tools: Vec<ToolDescriptor>,
        capabilities_context: Option<String>,
    ) -> (r: Self)
        ensures
            r.system_prompt_prefix@ == system_prompt_prefix@,
            r.tools@ == tools@,
            r.capabilities_context == capabilities_context,
    {
        PromptBuilder { system_prompt_prefix, tools, capabilities_context }
    }

    /// The tools section.
    pub fn format_tools_description(&self) -> (r: String)
        ensures
            r@ == tools_description_spec(self.tools@),
    {
        let mut out = String::new();
        let mut i: usize = 0;
        while i < self.tools.len()
            invariant
                i <= self.tools.len(),
                out@ == tools_description_spec(self.tools@.take(i as int)),
            decreases self.tools.len() - i,
        {
            let ghost t = self.tools@.take(i + 1);
            assert(t.drop_last() =~= self.tools@.take(i as int));
            assert(t.last() == self.tools@[i as int]);
            push_str(&mut out, "- ");
            push_str(&mut out, self.tools[i].name.as_str());
            push_str(&mut out, ": ");
            push_str(&mut out, self.tools[i].description.as_str());
            push_str(&mut out, "\n  Usage: ");
            push_str(&mut out, self.tools[i].usage.as_str());
            push_str(&mut out, "\n");
            i += 1;
        }
        assert(self.tools@.take(i as int) =~= self.tools@);
        out
    }

    /// The capabilities section.
    pub fn format_capabilities_section(&self) -> (r: String)
        ensures
            r@ == capabilities_section_spec(self.capabilities_context),
    {
        match &self.capabilities_context {
            Some(c) => {
                let mut s = concat("\n\n", c.as_str());
                push_str(&mut s, "\n");
                s
            },
            None => String::new(),
        }
    }

    /// The scratchpad section.
    pub fn format_scratchpad_section(&self, scratchpad_content: &str) -> (r: String)
        ensures
            r@ == scratchpad_section_spec(scratchpad_content@),
    {
        if scratchpad_content.is_empty() {
            String::new()
        } else {
            let mut s = concat("\n\n## CURRENT SCRATCHPAD (Working Memory)\n", scratchpad_content);
            push_str(&mut s, "\n");
            s
        }
    }

    /// The system prompt with the current scratchpad.
    pub fn build(&self, scratchpad_content: &str) -> (r: String)
        ensures
            r@ == system_prompt_spec(*self, scratchpad_content@),
    {
        let tools_desc = self.format_tools_description();
        let capabilities = self.format_capabilities_section();
        let scratchpad = self.format_scratchpad_section(scratchpad_content);
        let mut s = to_owned(self.system_prompt_prefix.as_str());
        push_str(&mut s, "\n\n# Available Tools\n");
        push_str(&mut s, tools_desc.as_str());
        push_str(&mut s, "\n");
        push_str(&mut s, scratchpad.as_str());
        push_str(&mut s, RESPONSE_FORMAT_GUIDE);
        push_str(&mut s, capabilities.as_str());
        s
    }
}

} // verus!
