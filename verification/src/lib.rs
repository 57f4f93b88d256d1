//! Building blocks for driving a text-generation capability through a
//! think-act-observe loop: a fault-tolerant output parser that turns raw
//! generated text into structured events, agents that plan the next step
//! from prior observations, and an executor that dispatches planned actions
//! to registered tools until a final answer or an iteration bound is reached.

pub mod agent;
pub mod chain;
pub mod chat;
pub mod conversational;
pub mod errors;
pub mod executor;
pub mod json;
pub mod memory;
pub mod open_ai_tools;
pub mod output_parsers;
pub mod prompt;
pub mod schemas;
pub mod text;
pub mod tools;
