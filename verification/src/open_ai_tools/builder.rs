//! Builder for the call-batch agent.

use vstd::prelude::*;

verus! {

use vstd::string::StringExecFns;
use crate::chain::{Chain, ChainCallOptions};
use crate::errors::AgentError;
use crate::tools::{FunctionDefinition, Tool};
use super::agent::{OpenAiToolAgent, open_ai_prompt_spec};
use super::prompt::PREFIX;

/// Collects the tools, prefix text and options of a call-batch agent,
/// falling back to the fixed defaults for whatever is left unset.
pub struct OpenAiToolAgentBuilder<T: Tool> {
    pub tools: Option<Vec<T>>,
    pub prefix: Option<String>,
    pub options: Option<ChainCallOptions>,
}

impl<T: Tool> OpenAiToolAgentBuilder<T> {
    pub fn new() -> (r: Self)
        ensures
            r.tools is None,
            r.prefix is None,
            r.options is None,
    {
        OpenAiToolAgentBuilder { tools: None, prefix: None, options: None }
    }

    pub fn tools(self, tools: Vec<T>) -> (r: Self)
        ensures
            r.tools == Some(tools),
            r.prefix == self.prefix,
            r.options == self.options,
    {
        OpenAiToolAgentBuilder { tools: Some(tools), ..self }
    }

    pub fn prefix(self, prefix: &str) -> (r: Self)
        ensures
            r.prefix matches Some(p) && p@ == prefix@,
            r.tools == self.tools,
            r.options == self.options,
    {
        OpenAiToolAgentBuilder { prefix: Some(String::from_str(prefix)), ..self }
    }

    pub fn options(self, options: ChainCallOptions) -> (r: Self)
        ensures
            r.options == Some(options),
            r.tools == self.tools,
            r.prefix == self.prefix,
    {
        OpenAiToolAgentBuilder { options: Some(options), ..self }
    }

    /// Builds the agent around the given generation capability: unset
    /// tools default to none, an unset prefix to the fixed one, unset
    /// options to a fresh set capped at 1000 tokens; every tool is also
    /// advertised to the backend as a function definition.
    pub fn build<C: Chain>(self, llm: C) -> (r: Result<OpenAiToolAgent<C, T>, AgentError>)
        ensures
            r matches Ok(a) && ({
                &&& a.tools@ == (match self.tools {
                    Some(t) => t@,
                    None => Seq::<T>::empty(),
                })
                &&& a.prompt@ == open_ai_prompt_spec(
                    match self.prefix {
                        Some(p) => p@,
                        None => PREFIX@,
                    },
                )
                &&& a.functions@.len() == a.tools@.len()
                &&& (forall|k: int|
                    0 <= k < a.tools@.len() ==> a.functions@[k]@ == (
                    crate::tools::FunctionDefinitionView {
                        name: a.tools@[k].name_spec(),
                        description: a.tools@[k].description_spec(),
                    }))
                &&& a.options == (match self.options {
                    Some(o) => o,
                    None => ChainCallOptions { max_tokens: Some(1000u32) },
                })
            }),
    {
        let tools = match self.tools {
            Some(t) => t,
            None => Vec::new(),
        };
        let prefix = match self.prefix {
            Some(p) => p,
            None => String::from_str(PREFIX),
        };
        let prompt = match OpenAiToolAgent::<C, T>::create_prompt(prefix.as_str()) {
            Ok(p) => p,
            Err(e) => return Err(e),
        };
        let default_options = ChainCallOptions::default().with_max_tokens(1000);
        let options = match self.options {
            Some(o) => o,
            None => default_options,
        };
        let mut functions: Vec<FunctionDefinition> = Vec::new();
        let mut i: usize = 0;
        while i < tools.len()
            invariant
                0 <= i <= tools@.len(),
                functions@.len() == i,
                forall|k: int|
                    0 <= k < i ==> functions@[k]@ == (crate::tools::FunctionDefinitionView {
                        name: tools@[k].name_spec(),
                        description: tools@[k].description_spec(),
                    }),
            decreases tools@.len() - i,
        {
            functions.push(FunctionDefinition::from_langchain_tool(&tools[i]));
            i += 1;
        }
        Ok(OpenAiToolAgent { chain: llm, tools, prompt, functions, options })
    }
}

} // verus!
