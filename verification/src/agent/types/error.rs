//! Central error type of the agent layers.

use vstd::prelude::*;
use crate::agent::types::ids::IntentId;
use crate::text::{concat, decimal, push_decimal, push_str, to_owned};

verus! {

/// Errors of the agent system.
#[derive(Clone, Debug)]
pub enum AgentError {
    InvalidIntentId(String),
    CyclicDependency(Vec<IntentId>),
    UnknownDependency(IntentId),
    InvalidState(String),
    Transport(String),
    Kernel(String),
    Runtime(String),
}

/// Result with an agent error.
pub type AgentResult<T> = Result<T, AgentError>;

/// The debug form of an intent id: `IntentId(<n>)`.
pub open spec fn intent_debug(id: IntentId) -> Seq<char> {
    "IntentId("@ + decimal(id.0 as nat) + ")"@
}

/// The debug form of a list of intent ids: `[IntentId(1), IntentId(2)]`.
pub open spec fn intents_debug_items(ids: Seq<IntentId>) -> Seq<char>
    decreases ids.len(),
{
    if ids.len() == 0 {
        Seq::empty()
    } else if ids.len() == 1 {
        intent_debug(ids[0])
    } else {
        intents_debug_items(ids.drop_last()) + ", "@ + intent_debug(ids.last())
    }
}

fn push_intent_debug(s: &mut String, id: IntentId)
    ensures
        final(s)@ == old(s)@ + intent_debug(id),
{
    push_str(s, "IntentId(");
    push_decimal(s, id.0);
    push_str(s, ")");
}

impl AgentError {
    /// The error message.
    pub fn to_string(&self) -> (r: String)
        ensures
            r@ == match *self {
                AgentError::InvalidIntentId(id) => "Invalid intent ID: "@ + id@,
                AgentError::CyclicDependency(ids) => "Cyclic dependency detected: ["@
                    + intents_debug_items(ids@) + "]"@,
                AgentError::UnknownDependency(id) => "Unknown dependency: "@ + intent_debug(id),
                AgentError::InvalidState(m) => "Invalid state: "@ + m@,
                AgentError::Transport(m) => "Transport error: "@ + m@,
                AgentError::Kernel(m) => "Kernel error: "@ + m@,
                AgentError::Runtime(m) => "Runtime error: "@ + m@,
            },
    {
        match self {
            AgentError::InvalidIntentId(id) => concat("Invalid intent ID: ", id.as_str()),
            AgentError::CyclicDependency(ids) => {
                let mut s = to_owned("Cyclic dependency detected: [");
                let ghost start = s@;
                let mut i: usize = 0;
                while i < ids.len()
                    invariant
                        i <= ids.len(),
                        s@ == start + intents_debug_items(ids@.take(i as int)),
                    decreases ids.len() - i,
                {
                    assert(ids@.take(i + 1).drop_last() =~= ids@.take(i as int));
                    assert(ids@.take(i + 1).last() == ids@[i as int]);
                    if i > 0 {
                        push_str(&mut s, ", ");
                    } else {
                        assert(ids@.take(1)[0] == ids@[0]);
                    }
                    push_intent_debug(&mut s, ids[i]);
                    i += 1;
                }
                assert(ids@.take(ids.len() as int) =~= ids@);
                push_str(&mut s, "]");
                s
            },
            AgentError::UnknownDependency(id) => {
                let mut s = to_owned("Unknown dependency: ");
                push_intent_debug(&mut s, *id);
                s
            },
            AgentError::InvalidState(m) => concat("Invalid state: ", m.as_str()),
            AgentError::Transport(m) => concat("Transport error: ", m.as_str()),
            AgentError::Kernel(m) => concat("Kernel error: ", m.as_str()),
            AgentError::Runtime(m) => concat("Runtime error: ", m.as_str()),
        }
    }
}

} // verus!
