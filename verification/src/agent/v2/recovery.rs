//! Recovery from replies that could not be parsed: the prompts that ask a
//! model to restate the reply in the Short-Key JSON protocol.

use vstd::prelude::*;
use crate::text::{concat, push_str, to_owned};
use crate::agent::v2::protocol::parser::{ShortKeyAction, ShortKeyParseError};
use crate::config::endpoints::{Message, MessageRole};

verus! {

/// What the recovery model is told.
#[derive(Debug, Clone)]
pub struct RecoveryContext {
    pub task: String,
    pub available_tools: String,
    pub failed_content: String,
    pub error_message: String,
}

/// The opening of the recovery system prompt, before the tools.
pub const RECOVERY_INTRO: &'static str = "You are a recovery specialist for an AI agent. The agent failed to produce a valid Short-Key JSON response. Your task is to analyze the failed content and the error message, and produce the CORRECTED Short-Key JSON response that the agent intended.\n\n# Available Tools\n";

/// The protocol part of the recovery system prompt, after the task.
pub const RECOVERY_SCHEMA: &'static str = "\n\n# Short-Key JSON Protocol Schema\n- `t`: Thought. Your internal reasoning and next steps.\n- `a`: Action. The name of the tool to execute (optional if providing final answer).\n- `i`: Input. The arguments for the tool in strict JSON format (optional).\n- `f`: Final Answer. Your final response to the user (optional).\n\nOutput ONLY the valid JSON (either a single object or an array of objects) wrapped in a code block or as raw text.";

/// The recovery system prompt: the intro, the tools, the task, the schema.
pub open spec fn recovery_system_prompt_spec(c: RecoveryContext) -> Seq<char> {
    RECOVERY_INTRO@ + c.available_tools@ + "\n\n# Original Task\n"@ + c.task@ + RECOVERY_SCHEMA@
}

impl RecoveryContext {
    /// The system prompt of the recovery request.
    pub fn system_prompt(&self) -> (r: String)
        ensures
            r@ == recovery_system_prompt_spec(*self),
    {
        let mut s = to_owned(RECOVERY_INTRO);
        push_str(&mut s, self.available_tools.as_str());
        push_str(&mut s, "\n\n# Original Task\n");
        push_str(&mut s, self.task.as_str());
        push_str(&mut s, RECOVERY_SCHEMA);
        s
    }

    /// The user prompt of the recovery request: the failed content and the
    /// error.
    pub fn user_prompt(&self) -> (r: String)
        ensures
            r@ == "FAILED CONTENT:\n"@ + self.failed_content@ + "\n\nERROR MESSAGE:\n"@
                + self.error_message@,
    {
        let mut s = concat("FAILED CONTENT:\n", self.failed_content.as_str());
        push_str(&mut s, "\n\nERROR MESSAGE:\n");
        push_str(&mut s, self.error_message.as_str());
        s
    }
}

/// The error when the recovery reply does not parse either.
pub fn recovery_failed_message(parse_error: &str) -> (r: String)
    ensures
        r@ == "Recovery failed to produce valid JSON: "@ + parse_error@,
{
    concat("Recovery failed to produce valid JSON: ", parse_error)
}

/// The model of a recovery request: the override, else the client's model.
pub fn recovery_model(model_override: Option<String>, client_model: &str) -> (r: String)
    ensures
        r@ == match model_override {
            Some(m) => m@,
            None => client_model@,
        },
{
    match model_override {
        Some(m) => m,
        None => to_owned(client_model),
    }
}

/// Asks a model to restate a reply that did not parse. It holds the model
/// of its client; the chat call itself is made by the caller.
#[derive(Debug, Clone)]
pub struct RecoveryWorker {
    pub client_model: String,
}

/// A chat request of the recovery worker: the model and the messages.
#[derive(Debug, Clone)]
pub struct RecoveryRequest {
    pub model: String,
    pub messages: Vec<Message>,
}

impl RecoveryWorker {
    pub fn new(client_model: String) -> (r: Self)
        ensures
            r.client_model == client_model,
    {
        RecoveryWorker { client_model }
    }

    /// The request for `context`: the override model or the client's, a
    /// system message with the recovery prompt and a user message with the
    /// failed content and the error.
    pub fn request(&self, context: &RecoveryContext, model_override: Option<String>) -> (r: RecoveryRequest)
        ensures
            r.model@ == match model_override {
                Some(m) => m@,
                None => self.client_model@,
            },
            r.messages@.len() == 2,
            r.messages@[0].role == MessageRole::System,
            r.messages@[0].content@ == recovery_system_prompt_spec(*context),
            r.messages@[0].name is None,
            r.messages@[1].role == MessageRole::User,
            r.messages@[1].content@ == "FAILED CONTENT:\n"@ + context.failed_content@
                + "\n\nERROR MESSAGE:\n"@ + context.error_message@,
            r.messages@[1].name is None,
    {
        let model = recovery_model(model_override, self.client_model.as_str());
        let system = Message { role: MessageRole::System, content: context.system_prompt(), name: None };
        let user = Message { role: MessageRole::User, content: context.user_prompt(), name: None };
        let mut messages: Vec<Message> = Vec::new();
        messages.push(system);
        messages.push(user);
        RecoveryRequest { model, messages }
    }

    /// The outcome of a recovery: the actions parsed from the model's reply,
    /// or the recovery error carrying the parse error's message.
    pub fn finish(parsed: Result<Vec<ShortKeyAction>, ShortKeyParseError>) -> (r: Result<Vec<ShortKeyAction>, String>)
        ensures
            match parsed {
                Ok(actions) => r == Ok::<Vec<ShortKeyAction>, String>(actions),
                Err(e) => r matches Err(m) && m@ == "Recovery failed to produce valid JSON: "@ + e.message@,
            },
    {
        match parsed {
            Ok(actions) => Ok(actions),
            Err(e) => Err(recovery_failed_message(e.message.as_str())),
        }
    }
}

} // verus!
