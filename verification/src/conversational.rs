//! The conversational chain: a generation capability bound to a prompt
//! template, a transcript memory and an output parser.

pub mod builder;
pub mod chain;
pub mod prompt;
