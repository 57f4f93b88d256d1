//! The tool capability: an externally registered function the executor can
//! invoke by name with a string payload.

use vstd::prelude::*;

verus! {

use crate::text::concat_str;

/// A capability registered with an executor. Implementations live outside
/// this library; an implementation promises that `name` and `description`
/// are fixed, while what `call` returns is its own business.
pub trait Tool {
    /// The fixed name of the tool.
    spec fn name_spec(&self) -> Seq<char>;

    /// The fixed description of the tool.
    spec fn description_spec(&self) -> Seq<char>;

    fn name(&self) -> (r: String)
        ensures
            r@ == self.name_spec(),
    ;

    fn description(&self) -> (r: String)
        ensures
            r@ == self.description_spec(),
    ;

    /// Runs the tool on `input`, yielding an observation or a failure
    /// description.
    fn call(&self, input: &str) -> (r: Result<String, String>);
}

/// The function signature advertised to a generation backend that batches
/// tool calls natively.
pub struct FunctionDefinitionView {
    pub name: Seq<char>,
    pub description: Seq<char>,
}

pub struct FunctionDefinition {
    pub name: String,
    pub description: String,
}

impl View for FunctionDefinition {
    type V = FunctionDefinitionView;

    open spec fn view(&self) -> FunctionDefinitionView {
        FunctionDefinitionView { name: self.name@, description: self.description@ }
    }
}

impl FunctionDefinition {
    /// The definition advertising `tool`.
    pub fn from_langchain_tool<T: Tool>(tool: &T) -> (r: Self)
        ensures
            r@.name == tool.name_spec(),
            r@.description == tool.description_spec(),
    {
        FunctionDefinition { name: tool.name(), description: tool.description() }
    }
}

/// The observation recorded for one tool outcome under the default failure
/// policy, or the fatal error under the strict one: a success is recorded
/// as returned; a failure is folded into an observation unless
/// `break_if_error` is set, in which case it surfaces as a tool error.
pub fn tool_observation(outcome: Result<String, String>, break_if_error: bool) -> (r: Result<
    String,
    crate::errors::AgentError,
>)
    ensures
        match outcome {
            Ok(o) => r matches Ok(s) && s@ == o@,
            Err(e) => if break_if_error {
                r matches Err(crate::errors::AgentError::ToolError(m)) && m@ == e@
            } else {
                r matches Ok(s) && s@ == "The tool return the following error: "@ + e@
            },
        },
{
    match outcome {
        Ok(o) => Ok(o),
        Err(e) => {
            if break_if_error {
                Err(crate::errors::AgentError::ToolError(e))
            } else {
                Ok(concat_str("The tool return the following error: ", e.as_str()))
            }
        },
    }
}

} // verus!
