//! The call-batch agent: plans through a side channel of batched tool
//! calls written by the generation capability.

pub mod agent;
pub mod builder;
pub mod prompt;
