//! The chain capability: the generation step that turns an argument
//! mapping into text, and the options a caller can attach to it.

use vstd::prelude::*;

verus! {

use crate::errors::ChainError;
use crate::prompt::PromptArgs;
use crate::schemas::GenerateResult;

pub const DEFAULT_OUTPUT_KEY: &'static str = "output";

/// Options attached to a chain call.
pub struct ChainCallOptions {
    pub max_tokens: Option<u32>,
}

impl core::default::Default for ChainCallOptions {
    fn default() -> (r: Self)
        ensures
            r.max_tokens is None,
    {
        ChainCallOptions { max_tokens: None }
    }
}

impl ChainCallOptions {
    pub fn with_max_tokens(self, max_tokens: u32) -> (r: Self)
        ensures
            r.max_tokens == Some(max_tokens),
    {
        ChainCallOptions { max_tokens: Some(max_tokens) }
    }
}

/// The generation capability: maps an argument mapping to generated text.
/// Implementations live outside this library; nothing is assumed of what
/// they generate.
pub trait Chain {
    fn call(&self, input_variables: PromptArgs) -> (r: Result<GenerateResult, ChainError>);
}

} // verus!
