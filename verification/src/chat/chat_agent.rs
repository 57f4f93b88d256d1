//! The conversational agent: builds its prompt from the registered tools,
//! reconstructs a free-text scratchpad from prior steps, delegates to the
//! generation capability and parses the result.

use vstd::prelude::*;

verus! {

use vstd::string::StringExecFns;
use crate::agent::Agent;
use crate::chain::{Chain, ChainCallOptions};
use crate::errors::AgentError;
use crate::prompt::{
    MessageFormatterStruct,
    MessageOrTemplate,
    MessageOrTemplateView,
    PromptArgs,
    PromptTemplate,
    PromptTemplateView,
    PromptValue,
};
use crate::schemas::{
    AgentAction,
    AgentActionView,
    AgentEvent,
    AgentEventView,
    Message,
    MessageType,
    MessageView,
    plain_message_view,
    steps_view,
};
use crate::text::{replace_spec, replace_str};
use crate::tools::Tool;
use super::output_parser::{ChatOutputParser, parse_event_spec};
use super::prompt::{FORMAT_INSTRUCTIONS, TEMPLATE_TOOL_RESPONSE};

/// The name and description of each tool.
pub open spec fn tool_fields<T: Tool>(tools: Seq<T>) -> Seq<(Seq<char>, Seq<char>)> {
    tools.map_values(|t: T| (t.name_spec(), t.description_spec()))
}

/// One line of the tool listing.
pub open spec fn tool_line(t: (Seq<char>, Seq<char>)) -> Seq<char> {
    "> "@ + t.0 + ": "@ + t.1
}

/// The tool listing: one line per tool, separated by line breaks.
pub open spec fn tool_lines_spec(ts: Seq<(Seq<char>, Seq<char>)>) -> Seq<char>
    decreases ts.len(),
{
    if ts.len() == 0 {
        Seq::empty()
    } else if ts.len() == 1 {
        tool_line(ts[0])
    } else {
        tool_lines_spec(ts.drop_last()) + "\n"@ + tool_line(ts.last())
    }
}

/// The tool names, separated by commas.
pub open spec fn tool_names_spec(ts: Seq<(Seq<char>, Seq<char>)>) -> Seq<char>
    decreases ts.len(),
{
    if ts.len() == 0 {
        Seq::empty()
    } else if ts.len() == 1 {
        ts[0].0
    } else {
        tool_names_spec(ts.drop_last()) + ", "@ + ts.last().0
    }
}

/// The suffix prompt with its placeholders substituted, one placeholder at
/// a time: the tool listing, then the tool names, then the fixed format
/// instructions (so that a placeholder inside the instructions text itself
/// is kept verbatim).
pub open spec fn rendered_suffix_spec(
    ts: Seq<(Seq<char>, Seq<char>)>,
    suffix: Seq<char>,
) -> Seq<char> {
    replace_spec(
        replace_spec(
            replace_spec(suffix, "{{tools}}"@, tool_lines_spec(ts)),
            "{{tool_names}}"@,
            tool_names_spec(ts),
        ),
        "{{format_instructions}}"@,
        FORMAT_INSTRUCTIONS@,
    )
}

/// The prompt plan of the conversational agent: the system prefix, the
/// conversation so far, the rendered suffix awaiting the user input, and
/// the scratchpad.
pub open spec fn conversational_prompt_spec(
    ts: Seq<(Seq<char>, Seq<char>)>,
    suffix: Seq<char>,
    prefix: Seq<char>,
) -> Seq<MessageOrTemplateView> {
    seq![
        MessageOrTemplateView::Message(plain_message_view(MessageType::SystemMessage, prefix)),
        MessageOrTemplateView::MessagesPlaceholder("chat_history"@),
        MessageOrTemplateView::Template(
            PromptTemplateView { text: rendered_suffix_spec(ts, suffix), variables: seq!["input"@] },
        ),
        MessageOrTemplateView::MessagesPlaceholder("agent_scratchpad"@),
    ]
}

/// The boilerplate wrapped around one observation.
pub open spec fn tool_response_spec(observation: Seq<char>) -> Seq<char> {
    replace_spec(TEMPLATE_TOOL_RESPONSE@, "{{observation}}"@, observation)
}

/// The scratchpad: for each step, the action's raw planning trace as an
/// assistant message, then the observation wrapped in the tool-response
/// boilerplate as a user message.
pub open spec fn scratchpad_spec(steps: Seq<(AgentActionView, Seq<char>)>) -> Seq<MessageView>
    decreases steps.len(),
{
    if steps.len() == 0 {
        Seq::empty()
    } else {
        scratchpad_spec(steps.drop_last()) + seq![
            plain_message_view(MessageType::AIMessage, steps.last().0.log),
            plain_message_view(MessageType::HumanMessage, tool_response_spec(steps.last().1)),
        ]
    }
}

/// An agent that converses in free text and plans through fenced `json`
/// blocks.
pub struct ConversationalAgent<C: Chain, T: Tool> {
    pub chain: C,
    pub tools: Vec<T>,
    pub output_parser: ChatOutputParser,
    pub prompt: MessageFormatterStruct,
    pub options: ChainCallOptions,
}

impl<C: Chain, T: Tool> ConversationalAgent<C, T> {
    /// Builds the prompt plan from the tools and the prefix and suffix
    /// text.
    pub fn create_prompt(tools: &Vec<T>, suffix: &str, prefix: &str) -> (r: Result<
        MessageFormatterStruct,
        AgentError,
    >)
        ensures
            r matches Ok(f) && f@ == conversational_prompt_spec(
                tool_fields(tools@),
                suffix@,
                prefix@,
            ),
    {
        let ghost ts = tool_fields(tools@);
        let mut tool_string = String::new();
        let mut tool_names = String::new();
        let mut i: usize = 0;
        proof {
            assert(tools@.subrange(0, 0) =~= Seq::<T>::empty());
            assert(tool_fields(tools@.subrange(0, 0)) =~= Seq::<(Seq<char>, Seq<char>)>::empty());
        }
        while i < tools.len()
            invariant
                0 <= i <= tools@.len(),
                tool_string@ == tool_lines_spec(tool_fields(tools@.subrange(0, i as int))),
                tool_names@ == tool_names_spec(tool_fields(tools@.subrange(0, i as int))),
            decreases tools@.len() - i,
        {
            let ghost pre_fields = tool_fields(tools@.subrange(0, i as int));
            let ghost cur_fields = tool_fields(tools@.subrange(0, i + 1));
            proof {
                assert(tools@.subrange(0, i + 1).drop_last() =~= tools@.subrange(0, i as int));
                assert(cur_fields.drop_last() =~= pre_fields);
                assert(cur_fields.last() == (tools@[i as int].name_spec(), tools@[
                    i as int].description_spec()));
            }
            if i > 0 {
                tool_string.append("\n");
                tool_names.append(", ");
            }
            tool_string.append("> ");
            tool_string.append(tools[i].name().as_str());
            tool_string.append(": ");
            tool_string.append(tools[i].description().as_str());
            tool_names.append(tools[i].name().as_str());
            proof {
                if i == 0 {
                    assert(tool_string@ =~= tool_line(cur_fields[0]));
                    assert(cur_fields.len() == 1);
                    assert(tool_names@ =~= cur_fields[0].0);
                } else {
                    assert(tool_string@ =~= tool_lines_spec(pre_fields) + "\n"@ + tool_line(
                        cur_fields.last(),
                    ));
                    assert(tool_names@ =~= tool_names_spec(pre_fields) + ", "@
                        + cur_fields.last().0);
                }
            }
            i += 1;
        }
        proof {
            assert(tools@.subrange(0, tools@.len() as int) =~= tools@);
        }
        proof {
            reveal_strlit("{{tools}}");
            reveal_strlit("{{tool_names}}");
            reveal_strlit("{{format_instructions}}");
        }
        let step1 = replace_str(suffix, "{{tools}}", tool_string.as_str());
        let step2 = replace_str(step1.as_str(), "{{tool_names}}", tool_names.as_str());
        let sufix_prompt = replace_str(step2.as_str(), "{{format_instructions}}", FORMAT_INSTRUCTIONS);
        let mut variables: Vec<String> = Vec::new();
        variables.push(String::from_str("input"));
        let template = PromptTemplate { text: sufix_prompt, variables };
        let mut items: Vec<MessageOrTemplate> = Vec::new();
        items.push(MessageOrTemplate::Message(Message::new_system_message(prefix)));
        items.push(MessageOrTemplate::MessagesPlaceholder(String::from_str("chat_history")));
        items.push(MessageOrTemplate::Template(template));
        items.push(MessageOrTemplate::MessagesPlaceholder(String::from_str("agent_scratchpad")));
        let formatter = MessageFormatterStruct { items };
        proof {
            let spec_items = conversational_prompt_spec(ts, suffix@, prefix@);
            assert(formatter@.len() == 4);
            assert(formatter@[0] == spec_items[0]);
            assert(formatter@[1] == spec_items[1]);
            assert(formatter@[2] matches MessageOrTemplateView::Template(t) && t.variables
                =~= seq!["input"@]);
            assert(formatter@[2] == spec_items[2]);
            assert(formatter@[3] == spec_items[3]);
            assert(formatter@ =~= spec_items);
        }
        Ok(formatter)
    }

    /// Renders the prior steps as the free-text scratchpad.
    pub fn construct_scratchpad(&self, intermediate_steps: &Vec<(AgentAction, String)>) -> (r:
        Result<Vec<Message>, AgentError>)
        ensures
            r matches Ok(v) && v@.map_values(|m: Message| m@) == scratchpad_spec(
                steps_view(intermediate_steps@),
            ),
    {
        let mut thoughts: Vec<Message> = Vec::new();
        let mut i: usize = 0;
        proof {
            assert(steps_view(intermediate_steps@.subrange(0, 0)) =~= Seq::<(
                AgentActionView,
                Seq<char>,
            )>::empty());
            assert(thoughts@.map_values(|m: Message| m@) =~= Seq::<MessageView>::empty());
        }
        while i < intermediate_steps.len()
            invariant
                0 <= i <= intermediate_steps@.len(),
                thoughts@.map_values(|m: Message| m@) == scratchpad_spec(
                    steps_view(intermediate_steps@.subrange(0, i as int)),
                ),
            decreases intermediate_steps@.len() - i,
        {
            let ghost pre = steps_view(intermediate_steps@.subrange(0, i as int));
            let ghost cur = steps_view(intermediate_steps@.subrange(0, i + 1));
            proof {
                assert(intermediate_steps@.subrange(0, i + 1).drop_last() =~= intermediate_steps@
                    .subrange(0, i as int));
                assert(cur.drop_last() =~= pre);
                assert(cur.last() == (intermediate_steps@[i as int].0@, intermediate_steps@[
                    i as int].1@));
            }
            let action = &intermediate_steps[i].0;
            thoughts.push(Message::new_ai_message(action.log.as_str()));
            proof {
                reveal_strlit("{{observation}}");
            }
            let tool_response = replace_str(
                TEMPLATE_TOOL_RESPONSE,
                "{{observation}}",
                intermediate_steps[i].1.as_str(),
            );
            thoughts.push(Message::new_human_message(tool_response.as_str()));
            proof {
                assert(thoughts@.map_values(|m: Message| m@) =~= scratchpad_spec(pre) + seq![
                    plain_message_view(MessageType::AIMessage, cur.last().0.log),
                    plain_message_view(
                        MessageType::HumanMessage,
                        tool_response_spec(cur.last().1),
                    ),
                ]);
            }
            i += 1;
        }
        proof {
            assert(intermediate_steps@.subrange(0, intermediate_steps@.len() as int)
                =~= intermediate_steps@);
        }
        Ok(thoughts)
    }
}

impl<C: Chain, T: Tool> Agent for ConversationalAgent<C, T> {
    type ToolT = T;

    open spec fn tools_spec(&self) -> Seq<T> {
        self.tools@
    }

    /// Every event this agent yields is the parse of some generated text.
    open spec fn planned_event(&self, ev: AgentEventView) -> bool {
        exists|text: Seq<char>| parse_event_spec(text) == Some(ev)
    }

    /// This agent rejects no step history before consulting the
    /// generation capability.
    open spec fn plan_rejects(&self, steps: Seq<(AgentActionView, Seq<char>)>) -> bool {
        false
    }

    /// Failures surface as a propagated generation failure or as the
    /// parser's schema error.
    open spec fn planned_error(&self, e: AgentError) -> bool {
        (e matches AgentError::ChainError(_)) || (e matches AgentError::SerdeJsonError(_))
    }

    fn plan(&self, intermediate_steps: &Vec<(AgentAction, String)>, inputs: PromptArgs) -> (r:
        Result<AgentEvent, AgentError>)
    {
        let scratchpad = match self.construct_scratchpad(intermediate_steps) {
            Ok(s) => s,
            Err(e) => return Err(e),
        };
        let mut inputs = inputs;
        inputs.insert("agent_scratchpad", PromptValue::Messages(scratchpad));
        let output = match self.chain.call(inputs) {
            Ok(g) => g.generation,
            Err(e) => return Err(AgentError::ChainError(e.message())),
        };
        match self.output_parser.parse(output.as_str()) {
            Ok(ev) => {
                proof {
                    assert(parse_event_spec(output@) == Some(ev@));
                }
                Ok(ev)
            },
            Err(e) => Err(e),
        }
    }

    fn get_tools(&self) -> (r: &Vec<T>) {
        &self.tools
    }
}

} // verus!
