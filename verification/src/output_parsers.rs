//! Output parsers applied to generated text before it is handed back.

use vstd::prelude::*;

verus! {

use vstd::string::StringExecFns;

/// Maps raw generated text to the text handed back to the caller.
/// Implementations may live outside this library.
pub trait OutputParser {
    fn parse(&self, output: &str) -> (r: Result<String, String>);
}

/// The parser that hands the text back unchanged.
pub struct SimpleOutputParser {}

impl SimpleOutputParser {
    pub fn new() -> (r: Self) {
        SimpleOutputParser {  }
    }
}

impl OutputParser for SimpleOutputParser {
    fn parse(&self, output: &str) -> (r: Result<String, String>)
        ensures
            r matches Ok(s) && s@ == output@,
    {
        Ok(String::from_str(output))
    }
}

} // verus!
