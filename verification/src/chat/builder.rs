//! Builder for the conversational agent.

use vstd::prelude::*;

verus! {

use vstd::string::StringExecFns;
use crate::chain::{Chain, ChainCallOptions};
use crate::errors::AgentError;
use crate::tools::Tool;
use super::chat_agent::{ConversationalAgent, conversational_prompt_spec, tool_fields};
use super::output_parser::ChatOutputParser;
use super::prompt::{PREFIX, SUFFIX};

/// Collects the tools, prompt text and options of a conversational agent,
/// falling back to the fixed defaults for whatever is left unset.
pub struct ConversationalAgentBuilder<T: Tool> {
    pub tools: Option<Vec<T>>,
    pub prefix: Option<String>,
    pub suffix: Option<String>,
    pub options: Option<ChainCallOptions>,
}

impl<T: Tool> ConversationalAgentBuilder<T> {
    pub fn new() -> (r: Self)
        ensures
            r.tools is None,
            r.prefix is None,
            r.suffix is None,
            r.options is None,
    {
        ConversationalAgentBuilder { tools: None, prefix: None, suffix: None, options: None }
    }

    pub fn tools(self, tools: Vec<T>) -> (r: Self)
        ensures
            r.tools == Some(tools),
            r.prefix == self.prefix,
            r.suffix == self.suffix,
            r.options == self.options,
    {
        ConversationalAgentBuilder { tools: Some(tools), ..self }
    }

    pub fn prefix(self, prefix: &str) -> (r: Self)
        ensures
            r.prefix matches Some(p) && p@ == prefix@,
            r.tools == self.tools,
            r.suffix == self.suffix,
            r.options == self.options,
    {
        ConversationalAgentBuilder { prefix: Some(String::from_str(prefix)), ..self }
    }

    pub fn suffix(self, suffix: &str) -> (r: Self)
        ensures
            r.suffix matches Some(s) && s@ == suffix@,
            r.tools == self.tools,
            r.prefix == self.prefix,
            r.options == self.options,
    {
        ConversationalAgentBuilder { suffix: Some(String::from_str(suffix)), ..self }
    }

    pub fn options(self, options: ChainCallOptions) -> (r: Self)
        ensures
            r.options == Some(options),
            r.tools == self.tools,
            r.prefix == self.prefix,
            r.suffix == self.suffix,
    {
        ConversationalAgentBuilder { options: Some(options), ..self }
    }

    /// Builds the agent around the given generation capability: unset
    /// tools default to none, unset prompt text to the fixed prefix and
    /// suffix, unset options to a fresh set capped at 1000 tokens.
    pub fn build<C: Chain>(self, llm: C) -> (r: Result<ConversationalAgent<C, T>, AgentError>)
        ensures
            r matches Ok(a) && ({
                &&& a.tools@ == (match self.tools {
                    Some(t) => t@,
                    None => Seq::<T>::empty(),
                })
                &&& a.prompt@ == conversational_prompt_spec(
                    tool_fields(a.tools@),
                    match self.suffix {
                        Some(s) => s@,
                        None => SUFFIX@,
                    },
                    match self.prefix {
                        Some(p) => p@,
                        None => PREFIX@,
                    },
                )
                &&& a.options == (match self.options {
                    Some(o) => o,
                    None => ChainCallOptions { max_tokens: Some(1000u32) },
                })
            }),
    {
        let tools = match self.tools {
            Some(t) => t,
            None => Vec::new(),
        };
        let prefix = match self.prefix {
            Some(p) => p,
            None => String::from_str(PREFIX),
        };
        let suffix = match self.suffix {
            Some(s) => s,
            None => String::from_str(SUFFIX),
        };
        let prompt = match ConversationalAgent::<C, T>::create_prompt(
            &tools,
            suffix.as_str(),
            prefix.as_str(),
        ) {
            Ok(p) => p,
            Err(e) => return Err(e),
        };
        let default_options = ChainCallOptions::default().with_max_tokens(1000);
        let options = match self.options {
            Some(o) => o,
            None => default_options,
        };
        Ok(
            ConversationalAgent {
                chain: llm,
                tools,
                output_parser: ChatOutputParser::new(),
                prompt,
                options,
            },
        )
    }
}

} // verus!
