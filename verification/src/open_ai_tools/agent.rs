//! The call-batch agent: decodes the batched tool calls a backend emits,
//! carries them through each action's log as an encoded trace, and
//! reconstructs a structured scratchpad from that trace.

use vstd::prelude::*;

verus! {

use vstd::string::StringExecFns;
use crate::agent::Agent;
use crate::chain::{Chain, ChainCallOptions};
use crate::errors::AgentError;
use crate::json::{
    function_calls_of,
    json_encode_log_tools,
    json_function_calls,
    json_log_tools,
    log_tools_doc,
    log_tools_of,
};
use crate::prompt::{
    MessageFormatterStruct,
    MessageOrTemplate,
    MessageOrTemplateView,
    PromptArgs,
    PromptTemplate,
    PromptTemplateView,
    PromptValue,
};
use crate::schemas::{
    AgentAction,
    AgentActionView,
    AgentEvent,
    AgentEventView,
    AgentFinish,
    AgentFinishView,
    FunctionCall,
    Message,
    MessageType,
    MessageView,
    plain_message_view,
    steps_view,
};
use crate::tools::{FunctionDefinition, Tool};

/// The prompt plan of the call-batch agent: the system prefix, the
/// conversation so far, the user input, and the scratchpad.
pub open spec fn open_ai_prompt_spec(prefix: Seq<char>) -> Seq<MessageOrTemplateView> {
    seq![
        MessageOrTemplateView::Message(plain_message_view(MessageType::SystemMessage, prefix)),
        MessageOrTemplateView::MessagesPlaceholder("chat_history"@),
        MessageOrTemplateView::Template(
            PromptTemplateView { text: "{{input}}"@, variables: seq!["input"@] },
        ),
        MessageOrTemplateView::MessagesPlaceholder("agent_scratchpad"@),
    ]
}

/// The event planned from generated text: the decoded call batch, each
/// call carrying the whole batch in its encoded log, or a final answer
/// when the text is no call batch.
pub open spec fn open_ai_plan_spec(output: Seq<char>) -> AgentEventView {
    match function_calls_of(output) {
        None => AgentEventView::Finish(AgentFinishView { output: output }),
        Some(calls) => AgentEventView::Action(
            calls.map_values(
                |c: (Seq<char>, Seq<char>, Seq<char>)| AgentActionView {
                    tool: c.1,
                    tool_input: c.2,
                    log: log_tools_doc(c.0, output),
                },
            ),
        ),
    }
}

/// The assistant message that re-announces a decoded call batch.
pub open spec fn batch_message_view(calls: Seq<(Seq<char>, Seq<char>, Seq<char>)>) -> MessageView {
    MessageView {
        message_type: MessageType::AIMessage,
        content: Seq::empty(),
        id: None,
        tool_calls: Some(calls),
    }
}

/// The messages contributed by one step: on the first step, the assistant
/// message carrying the whole decoded call batch, then always one tool
/// message tagging the observation with its call identifier. `None` when
/// the step's log does not decode.
pub open spec fn open_ai_step_messages(step: (AgentActionView, Seq<char>), first: bool) -> Option<
    Seq<MessageView>,
> {
    match log_tools_of(step.0.log) {
        None => None,
        Some(lt) => match function_calls_of(lt.1) {
            None => None,
            Some(calls) => {
                let tool_msg = MessageView {
                    message_type: MessageType::ToolMessage,
                    content: step.1,
                    id: Some(lt.0),
                    tool_calls: None,
                };
                if first {
                    Some(seq![batch_message_view(calls), tool_msg])
                } else {
                    Some(seq![tool_msg])
                }
            },
        },
    }
}

/// The structured scratchpad of all steps, or `None` when any log fails
/// to decode.
pub open spec fn open_ai_scratchpad_spec(steps: Seq<(AgentActionView, Seq<char>)>) -> Option<
    Seq<MessageView>,
>
    decreases steps.len(),
{
    if steps.len() == 0 {
        Some(Seq::empty())
    } else {
        match open_ai_scratchpad_spec(steps.drop_last()) {
            None => None,
            Some(pre) => match open_ai_step_messages(steps.last(), steps.len() == 1) {
                None => None,
                Some(ms) => Some(pre + ms),
            },
        }
    }
}

/// Once some prefix of the steps fails to decode, the whole scratchpad
/// fails to decode.
pub proof fn lemma_scratchpad_none_extends(steps: Seq<(AgentActionView, Seq<char>)>, k: int)
    requires
        0 <= k <= steps.len(),
        open_ai_scratchpad_spec(steps.subrange(0, k)) is None,
    ensures
        open_ai_scratchpad_spec(steps) is None,
    decreases steps.len(),
{
    if k == steps.len() {
        assert(steps.subrange(0, k) =~= steps);
    } else {
        assert(steps.drop_last().subrange(0, k) =~= steps.subrange(0, k));
        lemma_scratchpad_none_extends(steps.drop_last(), k);
    }
}

/// An agent for backends that batch parallel tool calls per turn.
pub struct OpenAiToolAgent<C: Chain, T: Tool> {
    pub chain: C,
    pub tools: Vec<T>,
    pub prompt: MessageFormatterStruct,
    pub functions: Vec<FunctionDefinition>,
    pub options: ChainCallOptions,
}

impl<C: Chain, T: Tool> OpenAiToolAgent<C, T> {
    /// Builds the prompt plan from the prefix text.
    pub fn create_prompt(prefix: &str) -> (r: Result<MessageFormatterStruct, AgentError>)
        ensures
            r matches Ok(f) && f@ == open_ai_prompt_spec(prefix@),
    {
        let mut variables: Vec<String> = Vec::new();
        variables.push(String::from_str("input"));
        let template = PromptTemplate { text: String::from_str("{{input}}"), variables };
        let mut items: Vec<MessageOrTemplate> = Vec::new();
        items.push(MessageOrTemplate::Message(Message::new_system_message(prefix)));
        items.push(MessageOrTemplate::MessagesPlaceholder(String::from_str("chat_history")));
        items.push(MessageOrTemplate::Template(template));
        items.push(MessageOrTemplate::MessagesPlaceholder(String::from_str("agent_scratchpad")));
        let formatter = MessageFormatterStruct { items };
        proof {
            let spec_items = open_ai_prompt_spec(prefix@);
            assert(formatter@.len() == 4);
            assert(formatter@[0] == spec_items[0]);
            assert(formatter@[1] == spec_items[1]);
            assert(formatter@[2] matches MessageOrTemplateView::Template(t) && t.variables
                =~= seq!["input"@]);
            assert(formatter@[2] == spec_items[2]);
            assert(formatter@[3] == spec_items[3]);
            assert(formatter@ =~= spec_items);
        }
        Ok(formatter)
    }

    /// Reconstructs the structured scratchpad from the encoded logs of the
    /// prior steps.
    pub fn construct_scratchpad(&self, intermediate_steps: &Vec<(AgentAction, String)>) -> (r:
        Result<Vec<Message>, AgentError>)
        ensures
            match r {
                Ok(v) => open_ai_scratchpad_spec(steps_view(intermediate_steps@)) == Some(
                    v@.map_values(|m: Message| m@),
                ),
                Err(e) => open_ai_scratchpad_spec(steps_view(intermediate_steps@)) is None && e
                    matches AgentError::SerdeJsonError(_),
            },
    {
        let mut thoughts: Vec<Message> = Vec::new();
        let mut i: usize = 0;
        proof {
            assert(steps_view(intermediate_steps@.subrange(0, 0)) =~= Seq::<(
                AgentActionView,
                Seq<char>,
            )>::empty());
            assert(thoughts@.map_values(|m: Message| m@) =~= Seq::<MessageView>::empty());
        }
        while i < intermediate_steps.len()
            invariant
                0 <= i <= intermediate_steps@.len(),
                open_ai_scratchpad_spec(steps_view(intermediate_steps@.subrange(0, i as int)))
                    == Some(thoughts@.map_values(|m: Message| m@)),
                thoughts@.len() == 0 <==> i == 0,
            decreases intermediate_steps@.len() - i,
        {
            let ghost pre = steps_view(intermediate_steps@.subrange(0, i as int));
            let ghost cur = steps_view(intermediate_steps@.subrange(0, i + 1));
            proof {
                assert(intermediate_steps@.subrange(0, i + 1).drop_last() =~= intermediate_steps@
                    .subrange(0, i as int));
                assert(cur.drop_last() =~= pre);
                assert(cur.last() == (intermediate_steps@[i as int].0@, intermediate_steps@[
                    i as int].1@));
            }
            let action = &intermediate_steps[i].0;
            let lt = match json_log_tools(action.log.as_str()) {
                Some(lt) => lt,
                None => {
                    proof {
                        assert(open_ai_step_messages(cur.last(), i == 0) is None);
                        assert(open_ai_scratchpad_spec(cur) is None);
                        assert(steps_view(intermediate_steps@).subrange(0, i + 1) =~= cur);
                        lemma_scratchpad_none_extends(steps_view(intermediate_steps@), i + 1);
                    }
                    return Err(
                        AgentError::SerdeJsonError(
                            String::from_str(
                                "an action's log does not hold an encoded call-batch trace",
                            ),
                        ),
                    );
                },
            };
            let (tool_id, tools_doc) = lt;
            let calls = match json_function_calls(tools_doc.as_str()) {
                Some(calls) => calls,
                None => {
                    proof {
                        assert(open_ai_step_messages(cur.last(), i == 0) is None);
                        assert(open_ai_scratchpad_spec(cur) is None);
                        assert(steps_view(intermediate_steps@).subrange(0, i + 1) =~= cur);
                        lemma_scratchpad_none_extends(steps_view(intermediate_steps@), i + 1);
                    }
                    return Err(
                        AgentError::SerdeJsonError(
                            String::from_str(
                                "an encoded call-batch trace does not hold a call batch",
                            ),
                        ),
                    );
                },
            };
            if thoughts.len() == 0 {
                thoughts.push(Message::new_ai_message("").with_tool_calls(calls));
                proof {
                    reveal_strlit("");
                    assert(""@ =~= Seq::<char>::empty());
                }
            }
            thoughts.push(
                Message::new_tool_message(intermediate_steps[i].1.as_str(), tool_id.as_str()),
            );
            proof {
                let stepm = open_ai_step_messages(cur.last(), i == 0);
                assert(stepm is Some);
                assert(thoughts@.map_values(|m: Message| m@) =~= open_ai_scratchpad_spec(
                    pre,
                ).unwrap() + stepm.unwrap());
            }
            i += 1;
        }
        proof {
            assert(intermediate_steps@.subrange(0, intermediate_steps@.len() as int)
                =~= intermediate_steps@);
        }
        Ok(thoughts)
    }

    /// Decodes one round of generated text into its event: a call batch
    /// becomes the action batch whose logs carry the encoded trace, any
    /// other text the final answer.
    pub fn decode_plan(&self, output: String) -> (r: AgentEvent)
        ensures
            r@ == open_ai_plan_spec(output@),
    {
        match json_function_calls(output.as_str()) {
            Some(calls) => {
                let ghost callsv = calls@.map_values(|c: FunctionCall| c@);
                let mut actions: Vec<AgentAction> = Vec::new();
                let mut i: usize = 0;
                while i < calls.len()
                    invariant
                        0 <= i <= calls@.len(),
                        callsv == calls@.map_values(|c: FunctionCall| c@),
                        actions@.len() == i,
                        forall|k: int|
                            0 <= k < i ==> actions@[k]@ == (AgentActionView {
                                tool: callsv[k].1,
                                tool_input: callsv[k].2,
                                log: log_tools_doc(callsv[k].0, output@),
                            }),
                    decreases calls@.len() - i,
                {
                    let call = &calls[i];
                    let log = json_encode_log_tools(call.id.as_str(), output.as_str());
                    actions.push(
                        AgentAction {
                            tool: call.name.clone(),
                            tool_input: call.arguments.clone(),
                            log,
                        },
                    );
                    i += 1;
                }
                let ev = AgentEvent::Action(actions);
                proof {
                    let planned = callsv.map_values(
                        |c: (Seq<char>, Seq<char>, Seq<char>)| AgentActionView {
                            tool: c.1,
                            tool_input: c.2,
                            log: log_tools_doc(c.0, output@),
                        },
                    );
                    assert(actions@.map_values(|a: AgentAction| a@) =~= planned);
                    assert(open_ai_plan_spec(output@) == ev@);
                }
                ev
            },
            None => {
                let ghost outv = output@;
                let ev = AgentEvent::Finish(AgentFinish { output });
                proof {
                    assert(open_ai_plan_spec(outv) == ev@);
                }
                ev
            },
        }
    }
}

impl<C: Chain, T: Tool> Agent for OpenAiToolAgent<C, T> {
    type ToolT = T;

    open spec fn tools_spec(&self) -> Seq<T> {
        self.tools@
    }

    /// Every event this agent yields is planned from some generated text.
    open spec fn planned_event(&self, ev: AgentEventView) -> bool {
        exists|output: Seq<char>| open_ai_plan_spec(output) == ev
    }

    /// This agent rejects exactly the step histories whose encoded traces
    /// fail to decode.
    open spec fn plan_rejects(&self, steps: Seq<(AgentActionView, Seq<char>)>) -> bool {
        open_ai_scratchpad_spec(steps) is None
    }

    /// Failures surface as a propagated generation failure or as a decode
    /// error of the encoded traces.
    open spec fn planned_error(&self, e: AgentError) -> bool {
        (e matches AgentError::ChainError(_)) || (e matches AgentError::SerdeJsonError(_))
    }

    fn plan(&self, intermediate_steps: &Vec<(AgentAction, String)>, inputs: PromptArgs) -> (r:
        Result<AgentEvent, AgentError>)
    {
        let scratchpad = match self.construct_scratchpad(intermediate_steps) {
            Ok(s) => s,
            Err(e) => return Err(e),
        };
        let mut inputs = inputs;
        inputs.insert("agent_scratchpad", PromptValue::Messages(scratchpad));
        let output = match self.chain.call(inputs) {
            Ok(g) => g.generation,
            Err(e) => return Err(AgentError::ChainError(e.message())),
        };
        let ghost outv = output@;
        let ev = self.decode_plan(output);
        proof {
            assert(open_ai_plan_spec(outv) == ev@);
        }
        Ok(ev)
    }

    fn get_tools(&self) -> (r: &Vec<T>) {
        &self.tools
    }
}

} // verus!
