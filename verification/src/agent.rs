//! The agent capability: maps prior steps and inputs to the next planning
//! event.

use vstd::prelude::*;

verus! {

use crate::errors::AgentError;
use crate::prompt::PromptArgs;
use crate::schemas::{AgentAction, AgentActionView, AgentEvent, AgentEventView, steps_view};
use crate::tools::Tool;

/// A planner: from the steps taken so far and the call's inputs it yields
/// the next event, an action batch or a final answer. Each implementation
/// says through its spec members what holds of every event it yields, on
/// which step histories it must fail before consulting the generation
/// capability, and which errors it can surface.
pub trait Agent {
    type ToolT: Tool;

    /// What holds of every event this agent can yield.
    spec fn planned_event(&self, ev: AgentEventView) -> bool;

    /// The step histories this agent rejects before consulting the
    /// generation capability.
    spec fn plan_rejects(&self, steps: Seq<(AgentActionView, Seq<char>)>) -> bool;

    /// What holds of every error this agent can surface.
    spec fn planned_error(&self, e: AgentError) -> bool;

    /// The tools this agent plans over, as the contracts see them.
    spec fn tools_spec(&self) -> Seq<Self::ToolT>;

    fn plan(&self, intermediate_steps: &Vec<(AgentAction, String)>, inputs: PromptArgs) -> (r:
        Result<AgentEvent, AgentError>)
        ensures
            r matches Ok(ev) ==> self.planned_event(ev@),
            self.plan_rejects(steps_view(intermediate_steps@)) ==> r is Err,
            r matches Err(e) ==> self.planned_error(e),
    ;

    /// The tools this agent plans over.
    fn get_tools(&self) -> (r: &Vec<Self::ToolT>)
        ensures
            r@ == self.tools_spec(),
    ;
}

} // verus!
