//! A bare compile check, without running tests: the classification of one
//! compiler invocation's exit status.

use vstd::prelude::*;
use crate::coder::agent_name;
use crate::coder::spec_agent_name;
use crate::errors::AiCriticError;

verus! {

pub const COMPILER_AGENT_NAME: &'static str = "Compiler";

/// An agent that only compiles a candidate, reporting success or the exit
/// code of a failed compilation.
pub struct CompilerAgent {
    pub name: String,
    pub print: bool,
}

impl CompilerAgent {
    /// The compile-only agent with the given number; it starts quiet.
    pub fn new(id: usize) -> (r: CompilerAgent)
        ensures
            r.name@ == spec_agent_name(COMPILER_AGENT_NAME@, id as nat),
            r.print == false,
    {
        CompilerAgent { name: agent_name(COMPILER_AGENT_NAME, id), print: false }
    }

    /// Classifies one compiler run by its exit status: zero is success, any
    /// other status reports the failed compilation, and a process killed by a
    /// signal is fatal.
    pub fn classify_exit_status(&self, status: Option<i32>) -> (r: Result<(), AiCriticError>)
        ensures
            match status {
                Some(code) => if code == 0 {
                    r is Ok
                } else {
                    r matches Err(AiCriticError::CompilationFailed { code: c }) && c == code
                },
                None => r matches Err(AiCriticError::ProcessTerminated),
            },
    {
        match status {
            Some(code) => {
                if code == 0 {
                    Ok(())
                } else {
                    Err(AiCriticError::CompilationFailed { code })
                }
            },
            None => Err(AiCriticError::ProcessTerminated),
        }
    }
}

} // verus!
