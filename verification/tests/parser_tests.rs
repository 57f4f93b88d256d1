use agent_chain::chat::output_parser::{extract_block, parse_json_markdown, ChatOutputParser};
use agent_chain::errors::AgentError;
use agent_chain::json::{parse_partial_json, repair_json};
use agent_chain::schemas::AgentEvent;

fn parse(text: &str) -> Result<AgentEvent, AgentError> {
    ChatOutputParser::new().parse(text)
}

#[test]
fn final_answer_block_parses_to_finish() {
    let text = "Thought: done\n```json\n{\"action\": \"Final Answer\", \"action_input\": \"42\"}\n```";
    match parse(text) {
        Ok(AgentEvent::Finish(f)) => assert_eq!(f.output, "42"),
        other => panic!("expected a finish, got {:?}", other.is_ok()),
    }
}

#[test]
fn tool_action_block_parses_to_single_action_batch() {
    let text = "```json\n{\"action\": \"Calculator\", \"action_input\": \"2+2\"}\n```";
    match parse(text) {
        Ok(AgentEvent::Action(actions)) => {
            assert_eq!(actions.len(), 1);
            assert_eq!(actions[0].tool, "Calculator");
            assert_eq!(actions[0].tool_input, "2+2");
            assert_eq!(actions[0].log, text);
        }
        other => panic!("expected an action batch, got {:?}", other.is_ok()),
    }
}

#[test]
fn prose_without_block_passes_through_as_finish() {
    let text = "I am just answering in plain prose.";
    match parse(text) {
        Ok(AgentEvent::Finish(f)) => assert_eq!(f.output, text),
        other => panic!("expected a finish, got {:?}", other.is_ok()),
    }
}

#[test]
fn truncated_block_is_repaired_and_parses_like_the_closed_one() {
    let truncated = "```json\n{\"action\": \"Foo\", \"action_input\": \"bar\"\n```";
    let closed = "```json\n{\"action\": \"Foo\", \"action_input\": \"bar\"}\n```";
    let a = parse(truncated);
    let b = parse(closed);
    match (a, b) {
        (Ok(AgentEvent::Action(x)), Ok(AgentEvent::Action(y))) => {
            assert_eq!(x[0].tool, y[0].tool);
            assert_eq!(x[0].tool, "Foo");
            assert_eq!(x[0].tool_input, y[0].tool_input);
            assert_eq!(x[0].tool_input, "bar");
        }
        _ => panic!("expected two action batches"),
    }
}

#[test]
fn mismatched_closer_falls_back_to_raw_text() {
    let text = "```json\n{\"a\": [1,2}\n```";
    match parse(text) {
        Ok(AgentEvent::Finish(f)) => assert_eq!(f.output, text),
        other => panic!("expected the raw-text fallback, got {:?}", other.is_ok()),
    }
}

#[test]
fn wrong_schema_in_valid_block_is_a_hard_error() {
    let text = "```json\n{\"action\": 5, \"action_input\": \"x\"}\n```";
    match parse(text) {
        Err(e) => assert!(e.message().starts_with("Serde json error: ")),
        Ok(_) => panic!("expected a schema error"),
    }
}

#[test]
fn missing_field_in_valid_block_is_a_hard_error() {
    let text = "```json\n{\"action\": \"Foo\"}\n```";
    assert!(parse(text).is_err());
}

#[test]
fn unclosed_fence_passes_through() {
    let text = "```json\n{\"action\": \"Foo\", \"action_input\": \"bar\"}";
    match parse(text) {
        Ok(AgentEvent::Finish(f)) => assert_eq!(f.output, text),
        _ => panic!("expected a finish"),
    }
}

#[test]
fn extract_block_trims_the_fenced_contents() {
    let text = "before ```json  {\"a\": 1}\n``` after";
    assert_eq!(extract_block(text), Some("{\"a\": 1}".to_string()));
    assert_eq!(extract_block("no fence here"), None);
}

#[test]
fn parse_json_markdown_accepts_valid_and_repairable_documents() {
    assert_eq!(
        parse_json_markdown("```json\n{\"a\": 1}\n```"),
        Some("{\"a\": 1}".to_string())
    );
    assert_eq!(
        parse_json_markdown("```json\n{\"a\": [1, 2\n```"),
        Some("{\"a\": [1, 2]}".to_string())
    );
    assert_eq!(parse_json_markdown("```json\n{\"a\": [1,2}\n```"), None);
}

#[test]
fn repair_appends_expected_closers_in_pop_order() {
    assert_eq!(repair_json("{\"a\": [1, 2"), Some("{\"a\": [1, 2]}".to_string()));
    assert_eq!(repair_json("[[{"), Some("[[{}]]".to_string()));
    assert_eq!(repair_json("{\"a\": [1,2}"), None);
    assert_eq!(repair_json("]"), None);
    assert_eq!(repair_json("{\"s\": \"br[ack{ets in strings\""), Some(
        "{\"s\": \"br[ack{ets in strings\"}".to_string()
    ));
    assert_eq!(repair_json("{\"s\": \"esc\\\"aped\""), Some(
        "{\"s\": \"esc\\\"aped\"}".to_string()
    ));
}

#[test]
fn parse_partial_json_strict_mode_rejects_what_repair_would_fix() {
    assert_eq!(parse_partial_json("{\"a\": 1", true), None);
    assert_eq!(parse_partial_json("{\"a\": 1", false), Some("{\"a\": 1}".to_string()));
    assert_eq!(parse_partial_json("{\"a\": 1}", true), Some("{\"a\": 1}".to_string()));
}

#[test]
fn a_whitespace_only_block_passes_through() {
    let text = "```json   \n```";
    match parse(text) {
        Ok(AgentEvent::Finish(f)) => assert_eq!(f.output, text),
        _ => panic!("expected a finish"),
    }
}

#[test]
fn a_block_that_is_no_document_even_after_repair_passes_through() {
    let text = "```json\nhello there\n```";
    match parse(text) {
        Ok(AgentEvent::Finish(f)) => assert_eq!(f.output, text),
        _ => panic!("expected a finish"),
    }
}

#[test]
fn escaped_quotes_inside_the_payload_survive_the_parse() {
    let text = "```json\n{\"action\": \"Final Answer\", \"action_input\": \"say \\\"hi\\\"\"}\n```";
    match parse(text) {
        Ok(AgentEvent::Finish(f)) => assert_eq!(f.output, "say \"hi\""),
        _ => panic!("expected a finish"),
    }
}

#[test]
fn extra_fields_in_the_block_are_ignored() {
    let text = "```json\n{\"action\": \"Foo\", \"action_input\": \"bar\", \"extra\": 3}\n```";
    match parse(text) {
        Ok(AgentEvent::Action(actions)) => {
            assert_eq!(actions[0].tool, "Foo");
            assert_eq!(actions[0].tool_input, "bar");
        }
        _ => panic!("expected an action batch"),
    }
}

#[test]
fn an_array_document_is_a_hard_error() {
    assert!(parse("```json\n[1, 2]\n```").is_err());
}

#[test]
fn format_instructions_describe_both_response_options() {
    let parser = ChatOutputParser::new();
    let instructions = parser.get_format_instructions();
    assert!(instructions.contains("Final Answer"));
    assert!(instructions.contains("```json"));
}
