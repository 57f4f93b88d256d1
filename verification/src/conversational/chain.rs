//! The built conversational chain.

use vstd::prelude::*;

verus! {

use crate::chain::{Chain, ChainCallOptions};
use crate::memory::BaseMemory;
use crate::output_parsers::OutputParser;
use crate::prompt::PromptTemplate;

pub const DEFAULT_INPUT_VARIABLE: &'static str = "input";

/// A generation capability bound to a prompt template, call options, an
/// output parser, an optional transcript memory, and the keys under which
/// it reads its input and writes its output. An unset memory stands for a
/// fresh, empty transcript.
pub struct ConversationalChain<C: Chain, M: BaseMemory, P: OutputParser> {
    pub llm: C,
    pub prompt: PromptTemplate,
    pub options: Option<ChainCallOptions>,
    pub output_parser: Option<P>,
    pub output_key: String,
    pub memory: Option<M>,
    pub input_key: String,
}

} // verus!
