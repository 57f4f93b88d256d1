use std::cell::RefCell;
use std::rc::Rc;

use agent_chain::agent::Agent;
use agent_chain::errors::AgentError;
use agent_chain::executor::{normalize_tool_name, resolve_tool, AgentExecutor};
use agent_chain::memory::SimpleMemory;
use agent_chain::prompt::{PromptArgs, PromptValue};
use agent_chain::schemas::{AgentAction, AgentEvent, AgentFinish, MessageType};
use agent_chain::tools::{tool_observation, Tool};

struct ScriptTool {
    name: String,
    outcome: Result<String, String>,
    calls: Rc<RefCell<Vec<String>>>,
}

impl Tool for ScriptTool {
    fn name_spec(&self) -> vstd::seq::Seq<char> {
        unreachable!()
    }

    fn description_spec(&self) -> vstd::seq::Seq<char> {
        unreachable!()
    }

    fn name(&self) -> String {
        self.name.clone()
    }

    fn description(&self) -> String {
        "a scripted capability".to_string()
    }

    fn call(&self, input: &str) -> Result<String, String> {
        self.calls.borrow_mut().push(input.to_string());
        self.outcome.clone()
    }
}

/// Yields the scripted events one by one, recording every planning round's
/// steps; after the script runs out it keeps planning the same action.
struct ScriptedAgent {
    tools: Vec<ScriptTool>,
    script: RefCell<Vec<ScriptedEvent>>,
    plans: Rc<RefCell<Vec<Vec<(String, String)>>>>,
}

enum ScriptedEvent {
    Act(Vec<(String, String)>),
    Finish(String),
}

impl Agent for ScriptedAgent {
    type ToolT = ScriptTool;

    fn planned_event(&self, _ev: agent_chain::schemas::AgentEventView) -> bool {
        unreachable!()
    }

    fn plan_rejects(
        &self,
        _steps: vstd::seq::Seq<(agent_chain::schemas::AgentActionView, vstd::seq::Seq<char>)>,
    ) -> bool {
        unreachable!()
    }

    fn planned_error(&self, _e: AgentError) -> bool {
        unreachable!()
    }

    fn tools_spec(&self) -> vstd::seq::Seq<ScriptTool> {
        unreachable!()
    }

    fn plan(
        &self,
        intermediate_steps: &Vec<(AgentAction, String)>,
        _inputs: PromptArgs,
    ) -> Result<AgentEvent, AgentError> {
        self.plans.borrow_mut().push(
            intermediate_steps
                .iter()
                .map(|(a, o)| (a.tool.clone(), o.clone()))
                .collect(),
        );
        let mut script = self.script.borrow_mut();
        if script.is_empty() {
            return Ok(AgentEvent::Action(vec![AgentAction::new("tool", "x", "log")]));
        }
        match script.remove(0) {
            ScriptedEvent::Act(calls) => Ok(AgentEvent::Action(
                calls
                    .into_iter()
                    .map(|(tool, input)| AgentAction::new(&tool, &input, "trace"))
                    .collect(),
            )),
            ScriptedEvent::Finish(out) => Ok(AgentEvent::Finish(AgentFinish { output: out })),
        }
    }

    fn get_tools(&self) -> &Vec<ScriptTool> {
        &self.tools
    }
}

fn tool(name: &str, outcome: Result<String, String>) -> (ScriptTool, Rc<RefCell<Vec<String>>>) {
    let calls = Rc::new(RefCell::new(Vec::new()));
    (
        ScriptTool { name: name.to_string(), outcome, calls: calls.clone() },
        calls,
    )
}

fn agent(
    tools: Vec<ScriptTool>,
    script: Vec<ScriptedEvent>,
) -> (ScriptedAgent, Rc<RefCell<Vec<Vec<(String, String)>>>>) {
    let plans = Rc::new(RefCell::new(Vec::new()));
    (
        ScriptedAgent { tools, script: RefCell::new(script), plans: plans.clone() },
        plans,
    )
}

fn input_args(text: &str) -> PromptArgs {
    let mut args = PromptArgs::new();
    args.insert("input", PromptValue::Text(text.to_string()));
    args
}

#[test]
fn n_actions_mean_n_tool_calls_and_one_memory_pair() {
    let (t, calls) = tool("tool", Ok("25".to_string()));
    let (a, _plans) = agent(
        vec![t],
        vec![
            ScriptedEvent::Act(vec![("tool".to_string(), "first".to_string())]),
            ScriptedEvent::Act(vec![("tool".to_string(), "second".to_string())]),
            ScriptedEvent::Finish("done".to_string()),
        ],
    );
    let mut executor =
        AgentExecutor::<ScriptedAgent, SimpleMemory>::from_agent(a).with_memory(SimpleMemory::new());
    let result = executor.invoke(input_args("hello")).expect("a finish");
    assert_eq!(result, "done");
    assert_eq!(calls.borrow().len(), 2);
    assert_eq!(calls.borrow()[0], "first");
    assert_eq!(calls.borrow()[1], "second");
    let memory = executor.memory.expect("memory kept");
    assert_eq!(memory.messages.len(), 2);
    assert_eq!(memory.messages[0].message_type, MessageType::HumanMessage);
    assert_eq!(memory.messages[0].content, "hello");
    assert_eq!(memory.messages[1].message_type, MessageType::AIMessage);
    assert_eq!(memory.messages[1].content, "done");
}

#[test]
fn unconfigured_memory_stays_unconfigured() {
    let (t, _calls) = tool("tool", Ok("25".to_string()));
    let (a, _plans) = agent(vec![t], vec![ScriptedEvent::Finish("done".to_string())]);
    let mut executor = AgentExecutor::<ScriptedAgent, SimpleMemory>::from_agent(a);
    let result = executor.invoke(input_args("hello")).expect("a finish");
    assert_eq!(result, "done");
    assert!(executor.memory.is_none());
}

#[test]
fn max_iterations_soft_stops_with_the_sentinel() {
    let (t, calls) = tool("tool", Ok("25".to_string()));
    let (a, plans) = agent(vec![t], vec![]);
    let mut executor =
        AgentExecutor::<ScriptedAgent, SimpleMemory>::from_agent(a).with_max_iterations(2);
    let result = executor.invoke(input_args("hello")).expect("a soft stop");
    assert_eq!(result, "Max iterations reached");
    assert_eq!(calls.borrow().len(), 2);
    assert_eq!(plans.borrow().len(), 2);
}

#[test]
fn one_batch_with_two_actions_dispatches_both_in_order() {
    let (t, calls) = tool("tool", Ok("25".to_string()));
    let (a, _plans) = agent(
        vec![t],
        vec![
            ScriptedEvent::Act(vec![
                ("tool".to_string(), "first".to_string()),
                ("tool".to_string(), "second".to_string()),
            ]),
            ScriptedEvent::Finish("done".to_string()),
        ],
    );
    let mut executor = AgentExecutor::<ScriptedAgent, SimpleMemory>::from_agent(a);
    assert_eq!(executor.invoke(input_args("hi")).expect("a finish"), "done");
    assert_eq!(calls.borrow().as_slice(), ["first".to_string(), "second".to_string()]);
}

#[test]
fn a_zero_bound_is_a_real_bound() {
    let (t, calls) = tool("tool", Ok("25".to_string()));
    let (a, plans) = agent(vec![t], vec![]);
    let mut executor =
        AgentExecutor::<ScriptedAgent, SimpleMemory>::from_agent(a).with_max_iterations(0);
    let result = executor.invoke(input_args("hello")).expect("a soft stop");
    assert_eq!(result, "Max iterations reached");
    assert_eq!(plans.borrow().len(), 1);
    assert_eq!(calls.borrow().len(), 1);
}

#[test]
fn break_if_error_surfaces_a_fatal_tool_error() {
    let (t, _calls) = tool("tool", Err("boom".to_string()));
    let (a, plans) = agent(
        vec![t],
        vec![ScriptedEvent::Act(vec![("tool".to_string(), "x".to_string())])],
    );
    let mut executor = AgentExecutor::<ScriptedAgent, SimpleMemory>::from_agent(a)
        .with_break_if_error(true)
        .with_memory(SimpleMemory::new());
    let err = executor.invoke(input_args("hello")).expect_err("a fatal error");
    assert_eq!(err.message(), "Agent error: Tool error: boom");
    assert_eq!(plans.borrow().len(), 1);
    assert_eq!(executor.memory.expect("memory kept").messages.len(), 0);
}

#[test]
fn recoverable_tool_error_becomes_an_observation() {
    let (t, _calls) = tool("tool", Err("boom".to_string()));
    let (a, plans) = agent(
        vec![t],
        vec![
            ScriptedEvent::Act(vec![("tool".to_string(), "x".to_string())]),
            ScriptedEvent::Finish("recovered".to_string()),
        ],
    );
    let mut executor = AgentExecutor::<ScriptedAgent, SimpleMemory>::from_agent(a);
    let result = executor.invoke(input_args("hello")).expect("a finish");
    assert_eq!(result, "recovered");
    let plans = plans.borrow();
    assert_eq!(plans.len(), 2);
    assert_eq!(plans[1].len(), 1);
    assert_eq!(plans[1][0].1, "The tool return the following error: boom");
}

#[test]
fn unknown_tool_is_fatal_whatever_the_failure_policy() {
    for break_if_error in [false, true] {
        let (t, _calls) = tool("tool", Ok("25".to_string()));
        let (a, _plans) = agent(
            vec![t],
            vec![ScriptedEvent::Act(vec![("ghost".to_string(), "x".to_string())])],
        );
        let mut executor = AgentExecutor::<ScriptedAgent, SimpleMemory>::from_agent(a)
            .with_break_if_error(break_if_error);
        let err = executor.invoke(input_args("hello")).expect_err("a fatal error");
        assert_eq!(err.message(), "Agent error: Tool error: Tool ghost not found");
    }
}

#[test]
fn tool_names_are_normalized_in_the_registry() {
    let (t, calls) = tool(" My Tool ", Ok("fine".to_string()));
    let (a, _plans) = agent(
        vec![t],
        vec![
            ScriptedEvent::Act(vec![("My_Tool".to_string(), "x".to_string())]),
            ScriptedEvent::Finish("ok".to_string()),
        ],
    );
    let mut executor = AgentExecutor::<ScriptedAgent, SimpleMemory>::from_agent(a);
    assert_eq!(executor.invoke(input_args("hi")).expect("a finish"), "ok");
    assert_eq!(calls.borrow().len(), 1);
}

#[test]
fn a_natural_language_tool_name_resolves_after_normalization() {
    let (t, calls) = tool(" My Tool ", Ok("fine".to_string()));
    let (a, _plans) = agent(
        vec![t],
        vec![
            ScriptedEvent::Act(vec![("My Tool".to_string(), "x".to_string())]),
            ScriptedEvent::Finish("ok".to_string()),
        ],
    );
    let mut executor = AgentExecutor::<ScriptedAgent, SimpleMemory>::from_agent(a);
    assert_eq!(executor.invoke(input_args("hi")).expect("a finish"), "ok");
    assert_eq!(calls.borrow().len(), 1);
}

#[test]
fn default_configuration_matches_from_agent() {
    let (t, _calls) = tool("tool", Ok("25".to_string()));
    let (a, _plans) = agent(vec![t], vec![]);
    let executor = AgentExecutor::<ScriptedAgent, SimpleMemory>::from_agent(a);
    assert_eq!(executor.max_iterations, Some(10));
    assert!(!executor.break_if_error);
    assert!(executor.memory.is_none());
}

#[test]
fn normalization_trims_and_replaces_spaces() {
    assert_eq!(normalize_tool_name("  My Fancy Tool \n"), "My_Fancy_Tool");
    assert_eq!(normalize_tool_name("plain"), "plain");
    assert_eq!(normalize_tool_name("   "), "");
}

#[test]
fn resolution_prefers_the_last_registration() {
    let names = vec!["a".to_string(), "b".to_string(), "a".to_string()];
    assert_eq!(resolve_tool(&names, "a"), Some(2));
    assert_eq!(resolve_tool(&names, "b"), Some(1));
    assert_eq!(resolve_tool(&names, "c"), None);
}

#[test]
fn tool_outcomes_follow_the_failure_policy() {
    assert_eq!(tool_observation(Ok("fine".to_string()), true).unwrap(), "fine");
    assert_eq!(
        tool_observation(Err("boom".to_string()), false).unwrap(),
        "The tool return the following error: boom"
    );
    let err = tool_observation(Err("boom".to_string()), true).expect_err("fatal");
    assert_eq!(err.message(), "Tool error: boom");
}
