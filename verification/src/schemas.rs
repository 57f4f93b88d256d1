//! Core data model: planned actions, planning events, chat messages and
//! generation results, each with a mathematical view for contracts.

use vstd::prelude::*;

verus! {

use vstd::string::StringExecFns;

/// The role attached to one chat message.
#[derive(Clone, Copy, PartialEq, Eq, Structural, Debug)]
pub enum MessageType {
    SystemMessage,
    AIMessage,
    HumanMessage,
    ToolMessage,
}

/// One tool call requested by the generation capability: a call identifier,
/// the function name and its raw argument payload.
pub struct FunctionCall {
    pub id: String,
    pub name: String,
    pub arguments: String,
}

impl View for FunctionCall {
    type V = (Seq<char>, Seq<char>, Seq<char>);

    open spec fn view(&self) -> (Seq<char>, Seq<char>, Seq<char>) {
        (self.id@, self.name@, self.arguments@)
    }
}

impl FunctionCall {
    pub fn new(id: &str, name: &str, arguments: &str) -> (r: Self)
        ensures
            r@ == (id@, name@, arguments@),
    {
        FunctionCall { id: String::from_str(id), name: String::from_str(name), arguments: String::from_str(arguments) }
    }

    pub fn duplicate(&self) -> (r: Self)
        ensures
            r@ == self@,
    {
        FunctionCall {
            id: self.id.clone(),
            name: self.name.clone(),
            arguments: self.arguments.clone(),
        }
    }
}

pub struct MessageView {
    pub message_type: MessageType,
    pub content: Seq<char>,
    pub id: Option<Seq<char>>,
    pub tool_calls: Option<Seq<(Seq<char>, Seq<char>, Seq<char>)>>,
}

/// One chat message: a role, its text, and, for tool results and batched
/// tool requests, an optional call identifier and the requested calls.
pub struct Message {
    pub message_type: MessageType,
    pub content: String,
    pub id: Option<String>,
    pub tool_calls: Option<Vec<FunctionCall>>,
}

pub open spec fn opt_string_view(o: Option<String>) -> Option<Seq<char>> {
    match o {
        Some(s) => Some(s@),
        None => None,
    }
}

pub open spec fn opt_calls_view(o: Option<Vec<FunctionCall>>) -> Option<
    Seq<(Seq<char>, Seq<char>, Seq<char>)>,
> {
    match o {
        Some(v) => Some(v@.map_values(|c: FunctionCall| c@)),
        None => None,
    }
}

impl View for Message {
    type V = MessageView;

    open spec fn view(&self) -> MessageView {
        MessageView {
            message_type: self.message_type,
            content: self.content@,
            id: opt_string_view(self.id),
            tool_calls: opt_calls_view(self.tool_calls),
        }
    }
}

/// The view of a plain message of role `t` with text `content`.
pub open spec fn plain_message_view(t: MessageType, content: Seq<char>) -> MessageView {
    MessageView { message_type: t, content: content, id: None, tool_calls: None }
}

impl Message {
    pub fn new_system_message(content: &str) -> (r: Self)
        ensures
            r@ == plain_message_view(MessageType::SystemMessage, content@),
    {
        Message {
            message_type: MessageType::SystemMessage,
            content: String::from_str(content),
            id: None,
            tool_calls: None,
        }
    }

    pub fn new_ai_message(content: &str) -> (r: Self)
        ensures
            r@ == plain_message_view(MessageType::AIMessage, content@),
    {
        Message {
            message_type: MessageType::AIMessage,
            content: String::from_str(content),
            id: None,
            tool_calls: None,
        }
    }

    pub fn new_human_message(content: &str) -> (r: Self)
        ensures
            r@ == plain_message_view(MessageType::HumanMessage, content@),
    {
        Message {
            message_type: MessageType::HumanMessage,
            content: String::from_str(content),
            id: None,
            tool_calls: None,
        }
    }

    pub fn new_tool_message(content: &str, id: &str) -> (r: Self)
        ensures
            r@ == (MessageView {
                message_type: MessageType::ToolMessage,
                content: content@,
                id: Some(id@),
                tool_calls: None,
            }),
    {
        Message {
            message_type: MessageType::ToolMessage,
            content: String::from_str(content),
            id: Some(String::from_str(id)),
            tool_calls: None,
        }
    }

    pub fn with_tool_calls(self, tool_calls: Vec<FunctionCall>) -> (r: Self)
        ensures
            r@ == (MessageView {
                message_type: self.message_type,
                content: self@.content,
                id: self@.id,
                tool_calls: Some(tool_calls@.map_values(|c: FunctionCall| c@)),
            }),
    {
        Message {
            message_type: self.message_type,
            content: self.content,
            id: self.id,
            tool_calls: Some(tool_calls),
        }
    }

    pub fn duplicate(&self) -> (r: Self)
        ensures
            r@ == self@,
    {
        let id = match &self.id {
            Some(s) => Some(s.clone()),
            None => None,
        };
        let tool_calls = match &self.tool_calls {
            Some(calls) => {
                let mut out: Vec<FunctionCall> = Vec::new();
                let mut i: usize = 0;
                while i < calls.len()
                    invariant
                        0 <= i <= calls@.len(),
                        out@.len() == i,
                        forall|k: int| 0 <= k < i ==> out@[k]@ == calls@[k]@,
                    decreases calls@.len() - i,
                {
                    out.push(calls[i].duplicate());
                    i += 1;
                }
                proof {
                    assert(out@.map_values(|c: FunctionCall| c@) =~= calls@.map_values(
                        |c: FunctionCall| c@,
                    ));
                }
                Some(out)
            },
            None => None,
        };
        Message {
            message_type: self.message_type,
            content: self.content.clone(),
            id,
            tool_calls,
        }
    }
}

/// The views of the steps taken so far: each planned action and its
/// observation.
pub open spec fn steps_view(steps: Seq<(AgentAction, String)>) -> Seq<(AgentActionView, Seq<
    char,
>)> {
    steps.map_values(|p: (AgentAction, String)| (p.0@, p.1@))
}

pub struct AgentActionView {
    pub tool: Seq<char>,
    pub tool_input: Seq<char>,
    pub log: Seq<char>,
}

/// One planned tool invocation: the tool's name, its string payload, and the
/// raw planning trace the action was extracted from.
pub struct AgentAction {
    pub tool: String,
    pub tool_input: String,
    pub log: String,
}

impl View for AgentAction {
    type V = AgentActionView;

    open spec fn view(&self) -> AgentActionView {
        AgentActionView { tool: self.tool@, tool_input: self.tool_input@, log: self.log@ }
    }
}

impl AgentAction {
    pub fn new(tool: &str, tool_input: &str, log: &str) -> (r: Self)
        ensures
            r@ == (AgentActionView { tool: tool@, tool_input: tool_input@, log: log@ }),
    {
        AgentAction {
            tool: String::from_str(tool),
            tool_input: String::from_str(tool_input),
            log: String::from_str(log),
        }
    }

    pub fn duplicate(&self) -> (r: Self)
        ensures
            r@ == self@,
    {
        AgentAction {
            tool: self.tool.clone(),
            tool_input: self.tool_input.clone(),
            log: self.log.clone(),
        }
    }
}

pub struct AgentFinishView {
    pub output: Seq<char>,
}

/// The final answer of one executor call.
pub struct AgentFinish {
    pub output: String,
}

impl View for AgentFinish {
    type V = AgentFinishView;

    open spec fn view(&self) -> AgentFinishView {
        AgentFinishView { output: self.output@ }
    }
}

pub enum AgentEventView {
    Action(Seq<AgentActionView>),
    Finish(AgentFinishView),
}

/// The outcome of one planning round: a batch of actions to dispatch, or a
/// final answer.
pub enum AgentEvent {
    Action(Vec<AgentAction>),
    Finish(AgentFinish),
}

impl View for AgentEvent {
    type V = AgentEventView;

    open spec fn view(&self) -> AgentEventView {
        match self {
            AgentEvent::Action(actions) => AgentEventView::Action(
                actions@.map_values(|a: AgentAction| a@),
            ),
            AgentEvent::Finish(finish) => AgentEventView::Finish(finish@),
        }
    }
}

/// What one chain call produced: the generated text.
pub struct GenerateResult {
    pub generation: String,
}

impl View for GenerateResult {
    type V = Seq<char>;

    open spec fn view(&self) -> Seq<char> {
        self.generation@
    }
}

impl core::default::Default for GenerateResult {
    fn default() -> (r: Self)
        ensures
            r@ == Seq::<char>::empty(),
    {
        GenerateResult { generation: String::new() }
    }
}

} // verus!
