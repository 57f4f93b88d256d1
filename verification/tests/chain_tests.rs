use agent_chain::chain::{Chain, ChainCallOptions, DEFAULT_OUTPUT_KEY};
use agent_chain::conversational::builder::ConversationalChainBuilder;
use agent_chain::conversational::prompt::DEFAULT_TEMPLATE;
use agent_chain::errors::{AgentError, ChainError};
use agent_chain::memory::{BaseMemory, SimpleMemory};
use agent_chain::output_parsers::{OutputParser, SimpleOutputParser};
use agent_chain::prompt::{PromptArgs, PromptTemplate, PromptValue};
use agent_chain::schemas::{FunctionCall, GenerateResult, Message, MessageType};
use agent_chain::text::{concat_str, find_str, replace_str, str_eq, trim_str};

struct ScriptChain;

impl Chain for ScriptChain {
    fn call(&self, _input_variables: PromptArgs) -> Result<GenerateResult, ChainError> {
        Ok(GenerateResult { generation: "ok".to_string() })
    }
}

#[test]
fn chain_build_requires_a_generation_capability() {
    let err = match ConversationalChainBuilder::<ScriptChain>::new().build() {
        Err(e) => e,
        Ok(_) => panic!("expected a missing-object error"),
    };
    assert_eq!(err.message(), "Missing Object On Builder: LLM must be set");
}

#[test]
fn chain_build_fills_in_the_defaults() {
    let chain = ConversationalChainBuilder::<ScriptChain>::new()
        .llm(ScriptChain)
        .build()
        .unwrap_or_else(|_| panic!("expected a chain"));
    assert_eq!(chain.output_key, DEFAULT_OUTPUT_KEY);
    assert_eq!(chain.input_key, "input");
    assert_eq!(chain.prompt.text, DEFAULT_TEMPLATE);
    assert_eq!(
        chain.prompt.variables,
        vec!["history".to_string(), "input".to_string()]
    );
    assert!(chain.options.is_none());
    assert!(chain.memory.is_none());
    assert!(chain.output_parser.is_none());
}

#[test]
fn chain_build_keeps_what_was_configured() {
    let mut memory = SimpleMemory::new();
    memory.add_user_message("earlier");
    let chain = ConversationalChainBuilder::<ScriptChain>::new()
        .llm(ScriptChain)
        .options(ChainCallOptions::default().with_max_tokens(5))
        .input_key("question")
        .output_key("answer")
        .output_parser(SimpleOutputParser::new())
        .memory(memory)
        .prompt(PromptTemplate {
            text: "T {history} {input}".to_string(),
            variables: vec!["history".to_string(), "input".to_string()],
        })
        .build()
        .unwrap_or_else(|_| panic!("expected a chain"));
    assert_eq!(chain.input_key, "question");
    assert_eq!(chain.output_key, "answer");
    assert_eq!(chain.prompt.text, "T {history} {input}");
    assert_eq!(chain.options.map(|o| o.max_tokens), Some(Some(5)));
    assert_eq!(chain.memory.map(|m| m.messages.len()), Some(1));
    assert!(chain.output_parser.is_some());
}

#[test]
fn simple_output_parser_passes_text_through() {
    assert_eq!(
        SimpleOutputParser::new().parse("as is"),
        Ok("as is".to_string())
    );
}

#[test]
fn generate_result_defaults_to_empty_text() {
    let r = GenerateResult::default();
    assert_eq!(r.generation, "");
}

#[test]
fn chain_call_options_start_unbounded() {
    assert_eq!(ChainCallOptions::default().max_tokens, None);
    assert_eq!(ChainCallOptions::default().with_max_tokens(7).max_tokens, Some(7));
}

#[test]
fn simple_memory_appends_role_tagged_messages() {
    let mut memory = SimpleMemory::new();
    assert_eq!(memory.messages().len(), 0);
    memory.add_user_message("hola");
    memory.add_ai_message("hello");
    let messages = memory.messages();
    assert_eq!(messages.len(), 2);
    assert_eq!(messages[0].message_type, MessageType::HumanMessage);
    assert_eq!(messages[0].content, "hola");
    assert_eq!(messages[1].message_type, MessageType::AIMessage);
    assert_eq!(messages[1].content, "hello");
}

#[test]
fn message_constructors_tag_roles_and_ids() {
    let m = Message::new_system_message("sys");
    assert_eq!(m.message_type, MessageType::SystemMessage);
    assert_eq!(m.content, "sys");
    assert!(m.id.is_none());
    assert!(m.tool_calls.is_none());
    let t = Message::new_tool_message("out", "c9");
    assert_eq!(t.message_type, MessageType::ToolMessage);
    assert_eq!(t.id.as_deref(), Some("c9"));
    let b = Message::new_ai_message("").with_tool_calls(vec![FunctionCall::new(
        "c1", "calc", "2+2",
    )]);
    let calls = b.tool_calls.expect("the batch");
    assert_eq!(calls.len(), 1);
    assert_eq!(calls[0].name, "calc");
}

#[test]
fn prompt_args_bindings_shadow_earlier_ones() {
    let mut args = PromptArgs::new();
    assert!(!args.contains_key("input"));
    args.insert("input", PromptValue::Text("first".to_string()));
    args.insert("input", PromptValue::Text("second".to_string()));
    match args.get("input") {
        Some(PromptValue::Text(t)) => assert_eq!(t, "second"),
        _ => panic!("expected the latest binding"),
    }
    let copy = args.duplicate();
    assert_eq!(copy.entries.len(), args.entries.len());
    match copy.get("input") {
        Some(PromptValue::Text(t)) => assert_eq!(t, "second"),
        _ => panic!("expected the latest binding in the copy"),
    }
}

#[test]
fn error_messages_carry_their_category() {
    assert_eq!(AgentError::LLMError("x".to_string()).message(), "LLM error: x");
    assert_eq!(AgentError::ChainError("x".to_string()).message(), "Chain error: x");
    assert_eq!(AgentError::PromptError("x".to_string()).message(), "Prompt error: x");
    assert_eq!(AgentError::ToolError("x".to_string()).message(), "Tool error: x");
    assert_eq!(
        AgentError::MissingObject("x".to_string()).message(),
        "Missing Object On Builder: x"
    );
    assert_eq!(
        AgentError::MissingInputVariable("x".to_string()).message(),
        "Missing input variable: x"
    );
    assert_eq!(
        AgentError::SerdeJsonError("x".to_string()).message(),
        "Serde json error: x"
    );
    assert_eq!(AgentError::OtherError("x".to_string()).message(), "Error: x");
    assert_eq!(ChainError::AgentError("x".to_string()).message(), "Agent error: x");
    assert_eq!(ChainError::LLMError("x".to_string()).message(), "LLM error: x");
    assert_eq!(ChainError::OtherError("x".to_string()).message(), "Error: x");
    assert_eq!(
        ChainError::MissingObject("x".to_string()).message(),
        "Missing Object On Builder: x"
    );
}

#[test]
fn text_helpers_match_their_contracts_on_samples() {
    assert_eq!(find_str("abcabc", "bc", 0), Some(1));
    assert_eq!(find_str("abcabc", "bc", 2), Some(4));
    assert_eq!(find_str("abcabc", "zz", 0), None);
    assert_eq!(trim_str("  padded \n"), "padded");
    assert_eq!(trim_str("\u{a0}wide\u{3000}"), "wide");
    assert_eq!(trim_str("   "), "");
    assert_eq!(replace_str("a-b-c", "-", "+"), "a+b+c");
    assert_eq!(replace_str("aaa", "aa", "b"), "ba");
    assert_eq!(replace_str("x", "nope", "y"), "x");
    assert!(str_eq("same", "same"));
    assert!(!str_eq("same", "sama"));
    assert!(!str_eq("same", "sam"));
    assert_eq!(concat_str("foo", "bar"), "foobar");
}
