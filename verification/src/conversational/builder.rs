//! Builder for the conversational chain.

use vstd::prelude::*;

verus! {

use vstd::string::StringExecFns;
use crate::chain::{Chain, ChainCallOptions, DEFAULT_OUTPUT_KEY};
use crate::errors::ChainError;
use crate::memory::{BaseMemory, SimpleMemory};
use crate::output_parsers::{OutputParser, SimpleOutputParser};
use crate::prompt::{PromptTemplate, PromptTemplateView};
use super::chain::{ConversationalChain, DEFAULT_INPUT_VARIABLE};
use super::prompt::DEFAULT_TEMPLATE;

/// Collects the parts of a conversational chain; everything but the
/// generation capability has a default.
pub struct ConversationalChainBuilder<
    C: Chain,
    M: BaseMemory = SimpleMemory,
    P: OutputParser = SimpleOutputParser,
> {
    pub llm: Option<C>,
    pub options: Option<ChainCallOptions>,
    pub memory: Option<M>,
    pub output_key: Option<String>,
    pub output_parser: Option<P>,
    pub input_key: Option<String>,
    pub prompt: Option<PromptTemplate>,
}

impl<C: Chain, M: BaseMemory, P: OutputParser> ConversationalChainBuilder<C, M, P> {
    pub fn new() -> (r: Self)
        ensures
            r.llm is None,
            r.options is None,
            r.memory is None,
            r.output_key is None,
            r.output_parser is None,
            r.input_key is None,
            r.prompt is None,
    {
        ConversationalChainBuilder {
            llm: None,
            options: None,
            memory: None,
            output_key: None,
            output_parser: None,
            input_key: None,
            prompt: None,
        }
    }

    pub fn llm(self, llm: C) -> (r: Self)
        ensures
            r.llm == Some(llm),
            r.options == self.options,
            r.memory == self.memory,
            r.output_key == self.output_key,
            r.output_parser == self.output_parser,
            r.input_key == self.input_key,
            r.prompt == self.prompt,
    {
        ConversationalChainBuilder { llm: Some(llm), ..self }
    }

    pub fn options(self, options: ChainCallOptions) -> (r: Self)
        ensures
            r.options == Some(options),
            r.llm == self.llm,
            r.memory == self.memory,
            r.output_key == self.output_key,
            r.output_parser == self.output_parser,
            r.input_key == self.input_key,
            r.prompt == self.prompt,
    {
        ConversationalChainBuilder { options: Some(options), ..self }
    }

    pub fn input_key(self, input_key: &str) -> (r: Self)
        ensures
            r.input_key matches Some(k) && k@ == input_key@,
            r.llm == self.llm,
            r.options == self.options,
            r.memory == self.memory,
            r.output_key == self.output_key,
            r.output_parser == self.output_parser,
            r.prompt == self.prompt,
    {
        ConversationalChainBuilder { input_key: Some(String::from_str(input_key)), ..self }
    }

    pub fn output_parser(self, output_parser: P) -> (r: Self)
        ensures
            r.output_parser == Some(output_parser),
            r.llm == self.llm,
            r.options == self.options,
            r.memory == self.memory,
            r.output_key == self.output_key,
            r.input_key == self.input_key,
            r.prompt == self.prompt,
    {
        ConversationalChainBuilder { output_parser: Some(output_parser), ..self }
    }

    pub fn memory(self, memory: M) -> (r: Self)
        ensures
            r.memory == Some(memory),
            r.llm == self.llm,
            r.options == self.options,
            r.output_key == self.output_key,
            r.output_parser == self.output_parser,
            r.input_key == self.input_key,
            r.prompt == self.prompt,
    {
        ConversationalChainBuilder { memory: Some(memory), ..self }
    }

    pub fn output_key(self, output_key: &str) -> (r: Self)
        ensures
            r.output_key matches Some(k) && k@ == output_key@,
            r.llm == self.llm,
            r.options == self.options,
            r.memory == self.memory,
            r.output_parser == self.output_parser,
            r.input_key == self.input_key,
            r.prompt == self.prompt,
    {
        ConversationalChainBuilder { output_key: Some(String::from_str(output_key)), ..self }
    }

    /// Sets a custom prompt; its variables must match what the chain
    /// provides: the conversation history and the user input.
    pub fn prompt(self, prompt: PromptTemplate) -> (r: Self)
        ensures
            r.prompt == Some(prompt),
            r.llm == self.llm,
            r.options == self.options,
            r.memory == self.memory,
            r.output_key == self.output_key,
            r.output_parser == self.output_parser,
            r.input_key == self.input_key,
    {
        ConversationalChainBuilder { prompt: Some(prompt), ..self }
    }

    /// Builds the chain: the generation capability is required, the prompt
    /// defaults to the fixed conversation template over `history` and
    /// `input`, and the keys default to the fixed ones.
    pub fn build(self) -> (r: Result<ConversationalChain<C, M, P>, ChainError>)
        ensures
            self.llm is None ==> (r matches Err(ChainError::MissingObject(m)) && m@
                == "LLM must be set"@),
            self.llm matches Some(l) ==> (r matches Ok(c) && ({
                &&& c.llm == l
                &&& c.options == self.options
                &&& c.output_parser == self.output_parser
                &&& c.memory == self.memory
                &&& c.output_key@ == (match self.output_key {
                    Some(k) => k@,
                    None => DEFAULT_OUTPUT_KEY@,
                })
                &&& c.input_key@ == (match self.input_key {
                    Some(k) => k@,
                    None => DEFAULT_INPUT_VARIABLE@,
                })
                &&& c.prompt@ == (match self.prompt {
                    Some(p) => p@,
                    None => (PromptTemplateView {
                        text: DEFAULT_TEMPLATE@,
                        variables: seq!["history"@, "input"@],
                    }),
                })
            })),
    {
        let llm = match self.llm {
            Some(l) => l,
            None => {
                return Err(ChainError::MissingObject(String::from_str("LLM must be set")));
            },
        };
        let prompt = match self.prompt {
            Some(p) => p,
            None => {
                let mut variables: Vec<String> = Vec::new();
                variables.push(String::from_str("history"));
                variables.push(String::from_str("input"));
                let t = PromptTemplate { text: String::from_str(DEFAULT_TEMPLATE), variables };
                proof {
                    assert(t@.variables =~= seq!["history"@, "input"@]);
                }
                t
            },
        };
        let output_key = match self.output_key {
            Some(k) => k,
            None => String::from_str(DEFAULT_OUTPUT_KEY),
        };
        let input_key = match self.input_key {
            Some(k) => k,
            None => String::from_str(DEFAULT_INPUT_VARIABLE),
        };
        Ok(
            ConversationalChain {
                llm,
                prompt,
                options: self.options,
                output_parser: self.output_parser,
                output_key,
                memory: self.memory,
                input_key,
            },
        )
    }
}

} // verus!
