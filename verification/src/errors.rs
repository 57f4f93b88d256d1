//! Error taxonomy: chain-level and agent-level failures, each carrying a
//! human-readable description.

use vstd::prelude::*;

verus! {

use crate::text::concat_str;

/// A failure while running a chain.
#[derive(Debug)]
pub enum ChainError {
    AgentError(String),
    MissingObject(String),
    LLMError(String),
    OtherError(String),
}

impl ChainError {
    pub open spec fn message_spec(&self) -> Seq<char> {
        match self {
            ChainError::AgentError(s) => "Agent error: "@ + s@,
            ChainError::MissingObject(s) => "Missing Object On Builder: "@ + s@,
            ChainError::LLMError(s) => "LLM error: "@ + s@,
            ChainError::OtherError(s) => "Error: "@ + s@,
        }
    }

    /// A description of the failure, prefixed with its category.
    pub fn message(&self) -> (r: String)
        ensures
            r@ == self.message_spec(),
    {
        match self {
            ChainError::AgentError(s) => concat_str("Agent error: ", s.as_str()),
            ChainError::MissingObject(s) => concat_str("Missing Object On Builder: ", s.as_str()),
            ChainError::LLMError(s) => concat_str("LLM error: ", s.as_str()),
            ChainError::OtherError(s) => concat_str("Error: ", s.as_str()),
        }
    }
}

/// A failure while planning or dispatching agent work.
#[derive(Debug)]
pub enum AgentError {
    LLMError(String),
    ChainError(String),
    PromptError(String),
    ToolError(String),
    MissingObject(String),
    MissingInputVariable(String),
    SerdeJsonError(String),
    OtherError(String),
}

impl AgentError {
    pub open spec fn message_spec(&self) -> Seq<char> {
        match self {
            AgentError::LLMError(s) => "LLM error: "@ + s@,
            AgentError::ChainError(s) => "Chain error: "@ + s@,
            AgentError::PromptError(s) => "Prompt error: "@ + s@,
            AgentError::ToolError(s) => "Tool error: "@ + s@,
            AgentError::MissingObject(s) => "Missing Object On Builder: "@ + s@,
            AgentError::MissingInputVariable(s) => "Missing input variable: "@ + s@,
            AgentError::SerdeJsonError(s) => "Serde json error: "@ + s@,
            AgentError::OtherError(s) => "Error: "@ + s@,
        }
    }

    /// A description of the failure, prefixed with its category.
    pub fn message(&self) -> (r: String)
        ensures
            r@ == self.message_spec(),
    {
        match self {
            AgentError::LLMError(s) => concat_str("LLM error: ", s.as_str()),
            AgentError::ChainError(s) => concat_str("Chain error: ", s.as_str()),
            AgentError::PromptError(s) => concat_str("Prompt error: ", s.as_str()),
            AgentError::ToolError(s) => concat_str("Tool error: ", s.as_str()),
            AgentError::MissingObject(s) => concat_str("Missing Object On Builder: ", s.as_str()),
            AgentError::MissingInputVariable(s) => concat_str(
                "Missing input variable: ",
                s.as_str(),
            ),
            AgentError::SerdeJsonError(s) => concat_str("Serde json error: ", s.as_str()),
            AgentError::OtherError(s) => concat_str("Error: ", s.as_str()),
        }
    }
}

} // verus!
