//! The shapes of OpenAI-compatible chat exchanges.

use vstd::prelude::*;

verus! {

/// Who wrote a chat message.
#[derive(Debug, Clone, Copy, PartialEq, Eq, Structural)]
pub enum MessageRole {
    System,
    User,
    Assistant,
    Tool,
}

/// A message of a conversation.
#[derive(Debug, Clone)]
pub struct Message {
    pub role: MessageRole,
    pub content: String,
    /// The author's name, if given.
    pub name: Option<String>,
}

/// What a message holds: its role, content and author's name.
pub open spec fn message_view(m: Message) -> (MessageRole, Seq<char>, Option<Seq<char>>) {
    (m.role, m.content@, match m.name {
        Some(n) => Some(n@),
        None => None,
    })
}

/// The views of a list of messages.
pub open spec fn message_views(v: Seq<Message>) -> Seq<(MessageRole, Seq<char>, Option<Seq<char>>)> {
    v.map_values(|m: Message| message_view(m))
}

impl Message {
    /// A user message with the given content.
    pub fn user(content: &str) -> (r: Message)
        ensures
            message_view(r) == (MessageRole::User, content@, None::<Seq<char>>),
    {
        Message { role: MessageRole::User, content: content.to_string(), name: None }
    }

    /// A system message with the given content.
    pub fn system(content: &str) -> (r: Message)
        ensures
            message_view(r) == (MessageRole::System, content@, None::<Seq<char>>),
    {
        Message { role: MessageRole::System, content: content.to_string(), name: None }
    }

    /// A copy of the message.
    pub fn copy(&self) -> (r: Message)
        ensures
            message_view(r) == message_view(*self),
    {
        Message { role: self.role, content: self.content.clone(), name: crate::text::clone_opt_string(&self.name) }
    }
}

/// The messages of a request: the history, then the query as a user
/// message.
pub fn build_messages(history: &Vec<Message>, query: &str) -> (r: Vec<Message>)
    ensures
        message_views(r@) == message_views(history@).push((MessageRole::User, query@, None::<Seq<char>>)),
{
    let mut out: Vec<Message> = Vec::new();
    let mut i: usize = 0;
    while i < history.len()
        invariant
            i <= history.len(),
            message_views(out@) == message_views(history@.take(i as int)),
        decreases history.len() - i,
    {
        let m = history[i].copy();
        let ghost prev = out@;
        out.push(m);
        proof {
            let h = history@.take(i + 1);
            assert(h =~= history@.take(i as int).push(history@[i as int]));
            assert(message_views(out@) =~= message_views(prev).push(message_view(history@[i as int])));
            assert(message_views(h) =~= message_views(history@.take(i as int)).push(
                message_view(history@[i as int]),
            ));
        }
        i += 1;
    }
    out.push(Message::user(query));
    proof {
        assert(history@.take(history.len() as int) =~= history@);
    }
    assert(message_views(out@) =~= message_views(history@).push((MessageRole::User, query@, None::<Seq<char>>)));
    out
}

/// Token counts of a completion.
#[derive(Debug, Clone, Copy, PartialEq, Eq, Structural)]
pub struct Usage {
    pub prompt_tokens: u32,
    pub completion_tokens: u32,
    pub total_tokens: u32,
}

/// One completion of a response.
#[derive(Debug, Clone)]
pub struct Choice {
    pub index: u32,
    pub message: Message,
    /// Why generation stopped.
    pub finish_reason: Option<String>,
}

/// A chat completion response.
#[derive(Debug, Clone)]
pub struct ChatResponse {
    pub id: String,
    /// The kind of response ("chat.completion").
    pub object: String,
    /// Unix time of creation.
    pub created: u64,
    pub model: String,
    pub choices: Vec<Choice>,
    pub usage: Option<Usage>,
}

impl ChatResponse {
    /// The content of the first completion, if there is one.
    pub fn first_content(&self) -> (r: Option<&String>)
        ensures
            self.choices@.len() == 0 ==> r is None,
            self.choices@.len() > 0 ==> r == Some(&self.choices@[0].message.content),
    {
        if self.choices.len() == 0 {
            None
        } else {
            Some(&self.choices[0].message.content)
        }
    }
}

/// Whether an endpoint with this API key needs authentication: the key is
/// set and is not `none`.
pub fn requires_auth(api_key: &str) -> (r: bool)
    ensures
        r == (api_key@.len() > 0 && api_key@ != "none"@),
{
    !api_key.is_empty() && !crate::text::str_eq(api_key, "none")
}

/// The API key to use: the endpoint's own when it is set (and not `none`),
/// else `OPENAI_API_KEY`, else `ANTHROPIC_API_KEY` (the values the caller
/// read, `None` when unset), else empty.
pub fn effective_api_key(api_key: &str, openai_key: Option<String>, anthropic_key: Option<String>) -> (r: String)
    ensures
        r@ == if api_key@.len() > 0 && api_key@ != "none"@ {
            api_key@
        } else {
            match openai_key {
                Some(k) => k@,
                None => match anthropic_key {
                    Some(k) => k@,
                    None => Seq::empty(),
                },
            }
        },
{
    if requires_auth(api_key) {
        return api_key.to_string();
    }
    match openai_key {
        Some(k) => k,
        None => match anthropic_key {
            Some(k) => k,
            None => String::new(),
        },
    }
}

} // verus!
