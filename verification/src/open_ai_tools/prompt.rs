//! The fixed prompt text of the call-batch agent.

use vstd::prelude::*;

verus! {

pub const PREFIX: &'static str = "You are a helpful assistant";

} // verus!
