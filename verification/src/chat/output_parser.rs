//! The fault-tolerant output parser: extracts a fenced `json` block from
//! generated text, decodes it (repairing truncated documents), and turns it
//! into a planning event. Plain prose degrades to a final answer; only a
//! block with the wrong schema is a hard error.

use vstd::prelude::*;

verus! {

use vstd::string::StrSliceExecFns;
use vstd::string::StringExecFns;
use crate::errors::AgentError;
use crate::json::{agent_fields_of, json_agent_fields, parse_partial_json, partial_doc_spec};
use crate::schemas::{
    AgentAction,
    AgentActionView,
    AgentEvent,
    AgentEventView,
    AgentFinish,
    AgentFinishView,
};
use crate::text::{find_from_spec, find_str, lemma_find_some, str_eq, trim_spec, trim_str};
use super::prompt::FORMAT_INSTRUCTIONS;

/// The trimmed contents of the first fenced block: the text between the
/// first occurrence of the opening fence tagged `json` and the next fence
/// after it, with surrounding white space removed.
pub open spec fn extract_block_spec(text: Seq<char>) -> Option<Seq<char>> {
    match find_from_spec(text, "```json"@, 0) {
        None => None,
        Some(i) => match find_from_spec(text, "```"@, i + 7) {
            None => None,
            Some(j) => Some(trim_spec(text.subrange(i + 7, j))),
        },
    }
}

/// The accepted document carried by the first fenced `json` block of
/// `text`, after lenient decoding with repair.
pub open spec fn json_markdown_spec(text: Seq<char>) -> Option<Seq<char>> {
    match extract_block_spec(text) {
        None => None,
        Some(block) => partial_doc_spec(block, false),
    }
}

/// The trimmed contents of the first fenced `json` block of `text`.
pub fn extract_block(text: &str) -> (r: Option<String>)
    ensures
        match r {
            Some(b) => extract_block_spec(text@) == Some(b@),
            None => extract_block_spec(text@) is None,
        },
{
    proof {
        reveal_strlit("```json");
        reveal_strlit("```");
    }
    let n = text.unicode_len();
    match find_str(text, "```json", 0) {
        None => None,
        Some(i) => {
            proof {
                lemma_find_some(text@, "```json"@, 0);
                assert(i + 7 <= n);
            }
            match find_str(text, "```", i + 7) {
                None => None,
                Some(j) => {
                    proof {
                        lemma_find_some(text@, "```"@, i + 7);
                    }
                    let inner = text.substring_char(i + 7, j);
                    Some(String::from_str(trim_str(inner)))
                },
            }
        },
    }
}

/// Locates the fenced `json` block of `json_markdown` and decodes it
/// leniently, yielding the accepted document.
pub fn parse_json_markdown(json_markdown: &str) -> (r: Option<String>)
    ensures
        match r {
            Some(d) => json_markdown_spec(json_markdown@) == Some(d@),
            None => json_markdown_spec(json_markdown@) is None,
        },
{
    match extract_block(json_markdown) {
        None => None,
        Some(block) => parse_partial_json(block.as_str(), false),
    }
}

/// The event that `text` parses to: a final answer carrying `text` itself
/// when no fenced block yields a document; otherwise, by the block's
/// `action` field, either the final answer named by the sentinel or a
/// single-action batch. `None` marks the one hard error: a document whose
/// shape is not the expected object.
pub open spec fn parse_event_spec(text: Seq<char>) -> Option<AgentEventView> {
    match json_markdown_spec(text) {
        None => Some(AgentEventView::Finish(AgentFinishView { output: text })),
        Some(doc) => match agent_fields_of(doc) {
            None => None,
            Some(fields) => if fields.0 == "Final Answer"@ {
                Some(AgentEventView::Finish(AgentFinishView { output: fields.1 }))
            } else {
                Some(
                    AgentEventView::Action(
                        seq![
                            AgentActionView {
                                tool: fields.0,
                                tool_input: fields.1,
                                log: text,
                            },
                        ],
                    ),
                )
            },
        },
    }
}

/// Parses raw generated text into planning events.
pub struct ChatOutputParser {}

impl ChatOutputParser {
    pub fn new() -> (r: Self) {
        ChatOutputParser {  }
    }

    /// Turns one round of generated text into a planning event, degrading
    /// to a final answer whenever no well-formed block can be recovered.
    pub fn parse(&self, text: &str) -> (r: Result<AgentEvent, AgentError>)
        ensures
            match r {
                Ok(ev) => parse_event_spec(text@) == Some(ev@),
                Err(e) => parse_event_spec(text@) is None && e matches AgentError::SerdeJsonError(
                    _,
                ),
            },
    {
        match parse_json_markdown(text) {
            Some(doc) => {
                match json_agent_fields(doc.as_str()) {
                    None => Err(
                        AgentError::SerdeJsonError(
                            String::from_str(
                                "the fenced document is not an object with string fields action and action_input",
                            ),
                        ),
                    ),
                    Some(fields) => {
                        let (action, action_input) = fields;
                        if str_eq(action.as_str(), "Final Answer") {
                            Ok(AgentEvent::Finish(AgentFinish { output: action_input }))
                        } else {
                            let mut actions: Vec<AgentAction> = Vec::new();
                            actions.push(
                                AgentAction {
                                    tool: action,
                                    tool_input: action_input,
                                    log: String::from_str(text),
                                },
                            );
                            let r = AgentEvent::Action(actions);
                            proof {
                                assert(r@ matches AgentEventView::Action(s) ==> s
                                    =~= seq![
                                    AgentActionView {
                                        tool: fields.0@,
                                        tool_input: fields.1@,
                                        log: text@,
                                    },
                                ]);
                            }
                            Ok(r)
                        }
                    },
                }
            },
            None => Ok(AgentEvent::Finish(AgentFinish { output: String::from_str(text) })),
        }
    }

    /// The fixed response-format instructions shown to the generation
    /// capability.
    pub fn get_format_instructions(&self) -> (r: &'static str)
        ensures
            r@ == FORMAT_INSTRUCTIONS@,
    {
        FORMAT_INSTRUCTIONS
    }
}

/// Text with no fenced block parses to a final answer carrying the text
/// unchanged.
pub proof fn lemma_parse_passthrough(text: Seq<char>)
    requires
        extract_block_spec(text) is None,
    ensures
        parse_event_spec(text) == Some(
            AgentEventView::Finish(AgentFinishView { output: text }),
        ),
{
}

/// A fenced document whose `action` field is the sentinel parses to a
/// final answer whose output is the `action_input` field verbatim.
pub proof fn lemma_parse_final_answer(text: Seq<char>, doc: Seq<char>)
    requires
        json_markdown_spec(text) == Some(doc),
        agent_fields_of(doc) matches Some(fields) && fields.0 == "Final Answer"@,
    ensures
        parse_event_spec(text) == Some(
            AgentEventView::Finish(
                AgentFinishView { output: agent_fields_of(doc).unwrap().1 },
            ),
        ),
{
}

/// A fenced document with any other `action` parses to a single-element
/// action batch: the tool is the `action` field, the payload the
/// `action_input` field, and the log the original text unchanged.
pub proof fn lemma_parse_action_batch(text: Seq<char>, doc: Seq<char>)
    requires
        json_markdown_spec(text) == Some(doc),
        agent_fields_of(doc) matches Some(fields) && fields.0 != "Final Answer"@,
    ensures
        parse_event_spec(text) == Some(
            AgentEventView::Action(
                seq![
                    AgentActionView {
                        tool: agent_fields_of(doc).unwrap().0,
                        tool_input: agent_fields_of(doc).unwrap().1,
                        log: text,
                    },
                ],
            ),
        ),
{
}

/// A block that the decoder rejects and whose repair scan aborts on a
/// mismatched closer never yields a document: the parse falls back to a
/// final answer carrying the raw text.
pub proof fn lemma_parse_rejected_repair(text: Seq<char>, block: Seq<char>)
    requires
        extract_block_spec(text) == Some(block),
        !crate::json::json_accepts(block),
        crate::json::repair_scan(block, 0, false, false, Seq::empty()) is None,
    ensures
        parse_event_spec(text) == Some(
            AgentEventView::Finish(AgentFinishView { output: text }),
        ),
{
}

} // verus!
