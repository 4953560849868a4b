//! The template engine that combines several model responses into one
//! synthesis prompt, rendered by Tera.

use vstd::prelude::*;
use crate::text::{concat, push_str, str_eq, views};

verus! {

/// The name under which the synthesis template is registered.
pub const SYNTHESIS_TEMPLATE_NAME: &'static str = "synthesis_prompt";

/// The synthesis template: the problem and the numbered reference
/// responses, then the task.
pub const SYNTHESIS_TEMPLATE: &'static str = "\nYou are given a problem and {{ ref_responses|length }} reference responses.\nSome responses may contain errors, some may be incomplete.\n\nProblem:\n{{ original_content }}\n\nReference responses:\n{% for resp in ref_responses %}\n---\nResponse {{ loop.index }}:\n{{ resp }}\n{% endfor %}\n\nTask: Synthesize a correct and complete answer. Incorporate correct insights\nfrom any responses and resolve contradictions. Return only the final answer.\n";

/// What `Tera::one_off` renders (without autoescaping) from the synthesis
/// template over a context whose `original_content` is a text and whose
/// `ref_responses` is a list of texts; `None` where Tera reports an error.
/// The template reads nothing but those two values, so the result is a
/// function of them.
pub uninterp spec fn synthesis_rendered(
    original_content: Seq<char>,
    ref_responses: Seq<Seq<char>>,
) -> Option<Seq<char>>;

/// `tera::Tera::one_off` on the synthesis template, with a context holding
/// `original_content` and `ref_responses`: the rendered text is named
/// `synthesis_rendered` of the two values; an error is returned as its
/// message. Only the synthesis template is admitted: other templates may
/// read the environment (Tera's `get_env`).
#[verifier::external_body]
fn render_one_off(template: &str, original_content: &str, ref_responses: &Vec<String>) -> (r: Result<String, String>)
    requires
        template@ == SYNTHESIS_TEMPLATE@,
    ensures
        match r {
            Ok(t) => synthesis_rendered(original_content@, views(ref_responses@)) == Some(t@),
            Err(_) => synthesis_rendered(original_content@, views(ref_responses@)) is None,
        },
{
    let mut context = tera::Context::new();
    context.insert("original_content", original_content);
    context.insert("ref_responses", ref_responses);
    tera::Tera::one_off(template, &context, false).map_err(|e| e.to_string())
}

/// Renders the synthesis prompt from a problem and its reference responses.
#[derive(Debug, Clone, Copy, Default)]
pub struct TemplateEngine;

impl TemplateEngine {
    pub fn new() -> (r: Self) {
        TemplateEngine
    }

    /// Renders the template registered under `template_name` (only the
    /// synthesis template is) with the problem and the responses; an
    /// unknown name is an error.
    pub fn render(&self, template_name: &str, original_content: &str, ref_responses: &Vec<String>) -> (r: Result<String, String>)
        ensures
            template_name@ == SYNTHESIS_TEMPLATE_NAME@ ==> match synthesis_rendered(
                original_content@,
                views(ref_responses@),
            ) {
                Some(t) => r matches Ok(s) && s@ == t,
                None => r is Err,
            },
            template_name@ != SYNTHESIS_TEMPLATE_NAME@ ==> (r matches Err(m) && m@ == "Template '"@
                + template_name@ + "' not found"@),
    {
        if str_eq(template_name, SYNTHESIS_TEMPLATE_NAME) {
            render_one_off(SYNTHESIS_TEMPLATE, original_content, ref_responses)
        } else {
            let mut m = concat("Template '", template_name);
            push_str(&mut m, "' not found");
            Err(m)
        }
    }
}

} // verus!
