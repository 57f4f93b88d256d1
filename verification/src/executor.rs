//! The executor: drives the think-act-observe loop. Each round it asks the
//! agent to plan; an action batch is dispatched tool by tool through a
//! normalized name registry, a final answer writes the one user/assistant
//! pair into memory and returns, and an iteration bound soft-stops the loop
//! with a fixed sentinel.

use vstd::prelude::*;

verus! {

use vstd::string::StringExecFns;
use crate::agent::Agent;
use crate::errors::{AgentError, ChainError};
use crate::memory::{BaseMemory, SimpleMemory};
use crate::prompt::{args_lookup, PromptArgs, PromptValue, PromptValueView};
use crate::schemas::{AgentAction, AgentEvent, GenerateResult, MessageType, MessageView, plain_message_view};
use crate::text::{concat_str, replace_spec, replace_str, str_eq, trim_spec, trim_str};
use crate::tools::{Tool, tool_observation};

/// A tool name as the registry holds it: trimmed, with spaces turned into
/// underscores.
pub open spec fn normalize_name_spec(s: Seq<char>) -> Seq<char> {
    replace_spec(trim_spec(s), " "@, "_"@)
}

pub fn normalize_tool_name(name: &str) -> (r: String)
    ensures
        r@ == normalize_name_spec(name@),
{
    proof {
        reveal_strlit(" ");
    }
    replace_str(trim_str(name), " ", "_")
}

/// The registry entry that a name resolves to: the index of the last
/// entry equal to the name, registration order deciding ties.
pub open spec fn resolve_spec(names: Seq<Seq<char>>, target: Seq<char>) -> Option<int>
    decreases names.len(),
{
    if names.len() == 0 {
        None
    } else if names.last() == target {
        Some(names.len() - 1)
    } else {
        resolve_spec(names.drop_last(), target)
    }
}

/// Resolves `target` against the registry: the last registered tool under
/// that exact name wins; an unknown name resolves to nothing.
pub fn resolve_tool(names: &Vec<String>, target: &str) -> (r: Option<usize>)
    ensures
        match r {
            Some(i) => i < names@.len() && resolve_spec(
                names@.map_values(|s: String| s@),
                target@,
            ) == Some(i as int),
            None => resolve_spec(names@.map_values(|s: String| s@), target@) is None,
        },
{
    let ghost nv = names@.map_values(|s: String| s@);
    let mut i = names.len();
    proof {
        assert(nv.subrange(0, i as int) =~= nv);
    }
    while i > 0
        invariant
            0 <= i <= names@.len(),
            nv == names@.map_values(|s: String| s@),
            resolve_spec(nv, target@) == resolve_spec(nv.subrange(0, i as int), target@),
        decreases i,
    {
        proof {
            let pre = nv.subrange(0, i as int);
            assert(pre.last() == nv[i - 1]);
            assert(pre.drop_last() =~= nv.subrange(0, i - 1));
        }
        if str_eq(names[i - 1].as_str(), target) {
            return Some(i - 1);
        }
        i -= 1;
    }
    proof {
        assert(nv.subrange(0, 0) =~= Seq::<Seq<char>>::empty());
    }
    None
}

/// The iteration bound has fired: a bound is configured, is not negative,
/// and the steps taken have reached it. An unset bound never fires.
pub open spec fn reached_max_spec(max_iterations: Option<i32>, steps_len: nat) -> bool {
    match max_iterations {
        None => false,
        Some(m) => m >= 0 && steps_len >= m,
    }
}

pub fn reached_max(max_iterations: Option<i32>, steps_len: usize) -> (r: bool)
    ensures
        r == reached_max_spec(max_iterations, steps_len as nat),
{
    match max_iterations {
        None => false,
        Some(m) => m >= 0 && steps_len >= (m as usize),
    }
}

/// The transcript held by an optional memory.
pub open spec fn memory_history_of<M: BaseMemory>(m: Option<M>) -> Option<Seq<MessageView>> {
    match m {
        Some(mm) => Some(mm.history()),
        None => None,
    }
}

/// What the finish transition does to the transcript: without memory,
/// nothing; with memory, exactly the triggering input as a user message
/// and the output as an assistant message, in that order.
pub open spec fn history_after_finish(
    old_h: Option<Seq<MessageView>>,
    new_h: Option<Seq<MessageView>>,
    inputs: Seq<(Seq<char>, PromptValueView)>,
    out: Seq<char>,
) -> bool {
    match old_h {
        None => new_h is None,
        Some(h) => args_lookup(inputs, "input"@) matches Some(PromptValueView::Text(t)) && new_h
            == Some(
            h.push(plain_message_view(MessageType::HumanMessage, t)).push(
                plain_message_view(MessageType::AIMessage, out),
            ),
        ),
    }
}

/// The event is a final answer carrying `out`.
pub open spec fn finish_event_output(ev: crate::schemas::AgentEventView, out: Seq<char>) -> bool {
    match ev {
        crate::schemas::AgentEventView::Finish(f) => f.output == out,
        _ => false,
    }
}

/// The event is an action batch.
pub open spec fn action_event(ev: crate::schemas::AgentEventView) -> bool {
    ev matches crate::schemas::AgentEventView::Action(_)
}

/// Drives an agent against its tools until it finishes, fails, or hits
/// the iteration bound.
pub struct AgentExecutor<A: Agent, M: BaseMemory = SimpleMemory> {
    pub agent: A,
    pub max_iterations: Option<i32>,
    pub break_if_error: bool,
    pub memory: Option<M>,
}

impl<A: Agent, M: BaseMemory> AgentExecutor<A, M> {
    /// An executor over `agent` with the default configuration: a bound of
    /// ten rounds, recoverable tool failures, no memory.
    pub fn from_agent(agent: A) -> (r: Self)
        ensures
            r.agent == agent,
            r.max_iterations == Some(10i32),
            r.break_if_error == false,
            r.memory is None,
    {
        AgentExecutor { agent, max_iterations: Some(10), break_if_error: false, memory: None }
    }

    pub fn with_max_iterations(self, max_iterations: i32) -> (r: Self)
        ensures
            r.max_iterations == Some(max_iterations),
            r.agent == self.agent,
            r.break_if_error == self.break_if_error,
            r.memory == self.memory,
    {
        AgentExecutor { max_iterations: Some(max_iterations), ..self }
    }

    pub fn with_memory(self, memory: M) -> (r: Self)
        ensures
            r.memory == Some(memory),
            r.agent == self.agent,
            r.max_iterations == self.max_iterations,
            r.break_if_error == self.break_if_error,
    {
        AgentExecutor { memory: Some(memory), ..self }
    }

    pub fn with_break_if_error(self, break_if_error: bool) -> (r: Self)
        ensures
            r.break_if_error == break_if_error,
            r.agent == self.agent,
            r.max_iterations == self.max_iterations,
            r.memory == self.memory,
    {
        AgentExecutor { break_if_error, ..self }
    }

    /// The registry: each tool's name, normalized, in registration order.
    pub fn get_name_to_tools(&self) -> (r: Vec<String>)
        ensures
            r@.len() == self.agent.tools_spec().len(),
            forall|k: int|
                0 <= k < r@.len() ==> r@[k]@ == normalize_name_spec(
                    self.agent.tools_spec()[k].name_spec(),
                ),
    {
        let tools = self.agent.get_tools();
        let mut names: Vec<String> = Vec::new();
        let mut i: usize = 0;
        while i < tools.len()
            invariant
                0 <= i <= tools@.len(),
                tools@ == self.agent.tools_spec(),
                names@.len() == i,
                forall|k: int|
                    0 <= k < i ==> names@[k]@ == normalize_name_spec(tools@[k].name_spec()),
            decreases tools@.len() - i,
        {
            let name = tools[i].name();
            names.push(normalize_tool_name(name.as_str()));
            i += 1;
        }
        names
    }

    /// Runs the loop: plan, dispatch, observe, until a final answer, a
    /// fatal error, or the iteration bound. Each planned name is looked up
    /// normalized, so a natural-language name reaches the tool it was
    /// registered under. Memory is written exactly on the finish
    /// transition, and only then. Every failure is an agent-error wrapped
    /// for the caller.
    pub fn call(&mut self, input_variables: PromptArgs) -> (r: Result<GenerateResult, ChainError>)
        requires
            old(self).memory is Some ==> args_lookup(input_variables@, "input"@) matches Some(
                PromptValueView::Text(_),
            ),
        ensures
            final(self).agent == old(self).agent,
            final(self).max_iterations == old(self).max_iterations,
            final(self).break_if_error == old(self).break_if_error,
            r matches Err(_) ==> memory_history_of(final(self).memory) == memory_history_of(
                old(self).memory,
            ),
            r matches Ok(g) ==> ((g.generation@ == "Max iterations reached"@ && memory_history_of(
                final(self).memory,
            ) == memory_history_of(old(self).memory)) || history_after_finish(
                memory_history_of(old(self).memory),
                memory_history_of(final(self).memory),
                input_variables@,
                g.generation@,
            )),
            r matches Ok(g) ==> (exists|ev: crate::schemas::AgentEventView|
                #[trigger] old(self).agent.planned_event(ev) && (finish_event_output(
                    ev,
                    g.generation@,
                ) || (g.generation@ == "Max iterations reached"@ && action_event(ev)))),
            r matches Err(e) ==> e matches ChainError::AgentError(_),
    {
        let ghost inputs0 = input_variables@;
        let mut vars = input_variables.duplicate();
        let names = self.get_name_to_tools();
        let mut steps: Vec<(AgentAction, String)> = Vec::new();
        match &self.memory {
            Some(memory) => {
                let history = memory.messages();
                vars.insert("chat_history", PromptValue::Messages(history));
            },
            None => {
                let empty_memory = SimpleMemory::new();
                vars.insert("chat_history", PromptValue::Messages(empty_memory.messages()));
            },
        }
        proof {
            reveal_strlit("chat_history");
            reveal_strlit("input");
            assert("chat_history"@ != "input"@) by {
                assert("chat_history"@.len() == 12);
                assert("input"@.len() == 5);
            }
            assert(vars@.drop_last() =~= inputs0);
        }
        // The loop needs a termination measure; a round budget far beyond
        // any configurable bound serves as one, and exhausting it is the
        // same soft stop as the iteration bound.
        let mut rounds_left: u64 = u64::MAX;
        // Once a round has run without returning, its event was an action
        // batch; it witnesses that a later soft stop follows real planning.
        let ghost mut action_witness = crate::schemas::AgentEventView::Action(
            Seq::<crate::schemas::AgentActionView>::empty(),
        );
        loop
            invariant
                self.agent == old(self).agent,
                self.max_iterations == old(self).max_iterations,
                self.break_if_error == old(self).break_if_error,
                memory_history_of(self.memory) == memory_history_of(old(self).memory),
                names@.len() == self.agent.tools_spec().len(),
                inputs0 == input_variables@,
                args_lookup(vars@, "input"@) == args_lookup(inputs0, "input"@),
                old(self).memory is Some ==> args_lookup(inputs0, "input"@) matches Some(
                    PromptValueView::Text(_),
                ),
                rounds_left < u64::MAX ==> (old(self).agent.planned_event(action_witness)
                    && action_event(action_witness)),
            decreases rounds_left,
        {
            if rounds_left == 0 {
                proof {
                    assert(old(self).agent.planned_event(action_witness) && action_event(
                        action_witness,
                    ));
                }
                return Ok(GenerateResult { generation: String::from_str("Max iterations reached") });
            }
            rounds_left = rounds_left - 1;
            let event = match self.agent.plan(&steps, vars.duplicate()) {
                Ok(ev) => ev,
                Err(e) => {
                    return Err(
                        ChainError::AgentError(
                            concat_str("Error in agent planning: ", e.message().as_str()),
                        ),
                    );
                },
            };
            let ghost planned = event@;
            proof {
                assert(self.agent.planned_event(planned));
            }
            match event {
                AgentEvent::Action(actions) => {
                    let mut ai: usize = 0;
                    while ai < actions.len()
                        invariant
                            0 <= ai <= actions@.len(),
                            self.agent == old(self).agent,
                            self.max_iterations == old(self).max_iterations,
                            self.break_if_error == old(self).break_if_error,
                            memory_history_of(self.memory) == memory_history_of(old(self).memory),
                            names@.len() == self.agent.tools_spec().len(),
                        decreases actions@.len() - ai,
                    {
                        let action = &actions[ai];
                        let lookup_key = normalize_tool_name(action.tool.as_str());
                        let idx = match resolve_tool(&names, lookup_key.as_str()) {
                            Some(idx) => idx,
                            None => {
                                let msg = concat_str(
                                    concat_str("Tool ", action.tool.as_str()).as_str(),
                                    " not found",
                                );
                                let not_found = AgentError::ToolError(msg);
                                return Err(ChainError::AgentError(not_found.message()));
                            },
                        };
                        let tools = self.agent.get_tools();
                        let outcome = tools[idx].call(action.tool_input.as_str());
                        let observation = match tool_observation(outcome, self.break_if_error) {
                            Ok(o) => o,
                            Err(e) => {
                                return Err(ChainError::AgentError(e.message()));
                            },
                        };
                        steps.push((action.duplicate(), observation));
                        ai += 1;
                    }
                    proof {
                        action_witness = planned;
                    }
                },
                AgentEvent::Finish(finish) => {
                    match self.memory.take() {
                        Some(mut memory) => {
                            let input_text = match vars.get("input") {
                                Some(v) => match v {
                                    PromptValue::Text(t) => t.clone(),
                                    PromptValue::Messages(_) => {
                                        proof {
                                            assert(false);
                                        }
                                        vstd::pervasive::unreached()
                                    },
                                },
                                None => {
                                    proof {
                                        assert(false);
                                    }
                                    vstd::pervasive::unreached()
                                },
                            };
                            memory.add_user_message(input_text.as_str());
                            memory.add_ai_message(finish.output.as_str());
                            self.memory = Some(memory);
                            proof {
                                assert(inputs0 == input_variables@);
                                assert(history_after_finish(
                                    memory_history_of(old(self).memory),
                                    memory_history_of(self.memory),
                                    input_variables@,
                                    finish.output@,
                                ));
                            }
                        },
                        None => {
                            proof {
                                assert(inputs0 == input_variables@);
                                assert(history_after_finish(
                                    memory_history_of(old(self).memory),
                                    memory_history_of(self.memory),
                                    input_variables@,
                                    finish.output@,
                                ));
                            }
                        },
                    }
                    proof {
                        assert(finish_event_output(planned, finish.output@));
                    }
                    return Ok(GenerateResult { generation: finish.output });
                },
            }
            if reached_max(self.max_iterations, steps.len()) {
                proof {
                    assert(old(self).agent.planned_event(action_witness) && action_event(
                        action_witness,
                    ));
                }
                return Ok(GenerateResult { generation: String::from_str("Max iterations reached") });
            }
        }
    }

    /// Runs the loop and hands back the output text alone.
    pub fn invoke(&mut self, input_variables: PromptArgs) -> (r: Result<String, ChainError>)
        requires
            old(self).memory is Some ==> args_lookup(input_variables@, "input"@) matches Some(
                PromptValueView::Text(_),
            ),
        ensures
            final(self).agent == old(self).agent,
            final(self).max_iterations == old(self).max_iterations,
            final(self).break_if_error == old(self).break_if_error,
            r matches Err(_) ==> memory_history_of(final(self).memory) == memory_history_of(
                old(self).memory,
            ),
            r matches Ok(out) ==> ((out@ == "Max iterations reached"@ && memory_history_of(
                final(self).memory,
            ) == memory_history_of(old(self).memory)) || history_after_finish(
                memory_history_of(old(self).memory),
                memory_history_of(final(self).memory),
                input_variables@,
                out@,
            )),
            r matches Ok(out) ==> (exists|ev: crate::schemas::AgentEventView|
                #[trigger] old(self).agent.planned_event(ev) && (finish_event_output(ev, out@) || (
                out@ == "Max iterations reached"@ && action_event(ev)))),
            r matches Err(e) ==> e matches ChainError::AgentError(_),
    {
        match self.call(input_variables) {
            Ok(g) => Ok(g.generation),
            Err(e) => Err(e),
        }
    }
}

} // verus!
