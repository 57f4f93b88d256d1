//! The conversational agent: prompt text, output parsing, the agent itself
//! and its builder.

pub mod builder;
pub mod chat_agent;
pub mod output_parser;
pub mod prompt;
