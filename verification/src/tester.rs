//! The verification runner's decisions.
//!
//! Compiling a candidate and running its test binary are external work; what
//! this crate owns is the classification of their outcomes: which exit status
//! means success, which produces a repair request, and which is fatal, plus
//! the trimming of diagnostics before they are sent back to the service.

use vstd::prelude::*;
use vstd::string::StrSliceExecFns;
use vstd::string::StringExecFns;
use crate::coder::agent_name;
use crate::coder::spec_agent_name;
use crate::errors::AiCriticError;
use crate::fixer::ReviewNeeded;
use crate::fixer::ReviewType;
use crate::strutil::find_substring;
use crate::strutil::is_match_at;
use crate::strutil::truncate_chars;

verus! {

pub const TESTER_AGENT_NAME: &'static str = "Tester";

/// Compiler diagnostics can be long; only this many characters are sent back
/// to the service with a repair request.
pub const MAX_COMPILER_OUTPUT: usize = 500;

/// The line that opens a panic's stack backtrace in test output.
pub const BACKTRACE_MARK: &'static str = "stack backtrace:";

/// The verification runner: compiles a candidate, then runs its tests.
pub struct TesterAgent {
    pub name: String,
}

/// What one verification step produced: a success with its output and the
/// path of the built test binary, or a failure with trimmed diagnostics and
/// the repair request they justify.
#[derive(Debug, PartialEq)]
pub enum TesterResult {
    Success { stdout: String, exec_path: String },
    Failure { output: String, review: ReviewNeeded },
}

/// `r` is `s` with everything from the first backtrace line on removed (and
/// exactly `s` where no backtrace line occurs).
pub open spec fn spec_stripped_backtrace(s: Seq<char>, r: Seq<char>) -> bool {
    if exists|j: int| is_match_at(s, BACKTRACE_MARK@, j) {
        exists|i: int|
            {
                &&& is_match_at(s, BACKTRACE_MARK@, i)
                &&& (forall|j: int| 0 <= j < i ==> !is_match_at(s, BACKTRACE_MARK@, j))
                &&& r == s.subrange(0, i)
            }
    } else {
        r == s
    }
}

/// `r` is `s` cut down to at most [`MAX_COMPILER_OUTPUT`] characters.
pub open spec fn spec_truncated_output(s: Seq<char>, r: Seq<char>) -> bool {
    if s.len() <= MAX_COMPILER_OUTPUT {
        r == s
    } else {
        r == s.subrange(0, MAX_COMPILER_OUTPUT as int)
    }
}

impl TesterAgent {
    /// The verification runner with the given number.
    pub fn new(id: usize) -> (r: TesterAgent)
        ensures
            r.name@ == spec_agent_name(TESTER_AGENT_NAME@, id as nat),
    {
        TesterAgent { name: agent_name(TESTER_AGENT_NAME, id) }
    }

    /// Cuts a panic's stack backtrace out of test output: the feedback sent
    /// back to the service ends where the first backtrace line begins.
    pub fn remove_stacktrace<'a>(input: &'a str) -> (r: &'a str)
        ensures
            spec_stripped_backtrace(input@, r@),
    {
        match find_substring(input, BACKTRACE_MARK) {
            Some(i) => {
                let r = input.substring_char(0, i);
                r
            },
            None => input,
        }
    }

    /// Classifies one compiler run, given its exit status (`None` where the
    /// process was killed by a signal) and captured streams. Exit status zero
    /// is a success carrying the path of the built binary; any other status
    /// turns the diagnostics into a compiler-fix request, trimmed for the
    /// service but complete in the request's comments.
    pub fn classify_compile_output(
        &self,
        status: Option<i32>,
        stdout: String,
        stderr: String,
        exec_path: String,
    ) -> (r: Result<TesterResult, AiCriticError>)
        ensures
            match status {
                Some(code) => if code == 0 {
                    r matches Ok(TesterResult::Success { stdout: s, exec_path: p }) && s == stdout
                        && p == exec_path
                } else {
                    r matches Ok(TesterResult::Failure { output, review })
                        && spec_truncated_output(stderr@, output@) && review.review_type
                        == ReviewType::CompilerFix && review.comments@.len() == 1
                        && review.comments@[0]@ == stderr@
                },
                None => r matches Err(AiCriticError::ProcessTerminated),
            },
    {
        match status {
            Some(code) => {
                if code == 0 {
                    Ok(TesterResult::Success { stdout, exec_path })
                } else {
                    let output = truncate_chars(stderr.as_str(), MAX_COMPILER_OUTPUT).to_owned();
                    let mut comments: Vec<String> = Vec::new();
                    comments.push(stderr);
                    Ok(
                        TesterResult::Failure {
                            output,
                            review: ReviewNeeded { review_type: ReviewType::CompilerFix, comments },
                        },
                    )
                }
            },
            None => Err(AiCriticError::ProcessTerminated),
        }
    }

    /// Classifies one run of the test binary by its exit status: zero means
    /// every test passed; the test harness's own failure status turns the
    /// output, backtrace removed, into a test-fix request; any other status
    /// is fatal, and a killed process doubly so.
    pub fn classify_test_output(&self, status: Option<i32>, stdout: String) -> (r: Result<
        TesterResult,
        AiCriticError,
    >)
        ensures
            match status {
                Some(code) => if code == 0 {
                    r matches Ok(TesterResult::Success { stdout: s, exec_path: p }) && s == stdout
                        && p@.len() == 0
                } else if code == 101 {
                    r matches Ok(TesterResult::Failure { output, review })
                        && spec_stripped_backtrace(stdout@, output@) && review.review_type
                        == ReviewType::TestFix && review.comments@.len() == 1
                        && review.comments@[0]@ == output@
                } else {
                    r matches Err(AiCriticError::TestingFailed { code: c }) && c == code
                },
                None => r matches Err(AiCriticError::ProcessTerminated),
            },
    {
        match status {
            Some(code) => {
                if code == 0 {
                    Ok(TesterResult::Success { stdout, exec_path: String::new() })
                } else if code == 101 {
                    let output = Self::remove_stacktrace(stdout.as_str()).to_owned();
                    let mut comments: Vec<String> = Vec::new();
                    comments.push(output.clone());
                    Ok(
                        TesterResult::Failure {
                            output,
                            review: ReviewNeeded { review_type: ReviewType::TestFix, comments },
                        },
                    )
                } else {
                    Err(AiCriticError::TestingFailed { code })
                }
            },
            None => Err(AiCriticError::ProcessTerminated),
        }
    }
}

} // verus!
