//! The Repairer role: one agent call that rewrites the current candidate
//! program given a bundle of review feedback.

use vstd::prelude::*;
use vstd::string::StringExecFns;
use crate::coder::Code;
use crate::coder::agent_name;
use crate::coder::parse_code_response;
use crate::coder::spec_agent_name;
use crate::coder::spec_parse_code;
use crate::errors::AiCriticError;
use crate::json::JsonValue;

verus! {

pub const FIXER_NAME: &'static str = "Fixer";

/// The instruction payload of the Repairer role.
pub const FIXER_SYSTEM_PROMPT: &'static str = "
    Correct the code, returning the fixed code as JSON in a string field called `code`.";

/// The framing of review feedback coming from dissenting critics.
pub const CODE_REVIEW_PROMPT: &'static str = "
    Specifically address these code review issues:
";

/// The framing of feedback coming from a failed compilation.
pub const COMPILE_FIX_PROMPT: &'static str = "
    Fix the code so that it compiles.
    Correct the compilation errors without changing the code's functionality.
    The code failed to compile with the following errors:
";

/// The framing of feedback coming from a failed test run.
pub const TEST_FIX_PROMPT: &'static str = "
    The code failed its unit tests as shown below. Fix the code so that it passes all tests.
    1. Match the given `assert_id` value to the assert() in the code to find the assertion that
       failed.
    2. Is the test correct? If not, write the correct test.
    3. Is the assertion correct? If not, write the correct assertion.
    4. Only if the test and assertion are correct, correct the non-test code.
    This is the output of the failed test:
";

/// What kind of feedback a repair request carries.
#[derive(Debug, Clone, Copy, PartialEq, Eq)]
pub enum ReviewType {
    CodeReview,
    CompilerFix,
    TestFix,
}

/// A bundle of feedback driving one Repairer call.
#[derive(Debug, PartialEq)]
pub struct ReviewNeeded {
    pub review_type: ReviewType,
    pub comments: Vec<String>,
}

/// The framing prompt of each feedback kind.
pub open spec fn spec_review_prompt(review_type: ReviewType) -> Seq<char> {
    match review_type {
        ReviewType::CodeReview => CODE_REVIEW_PROMPT@,
        ReviewType::CompilerFix => COMPILE_FIX_PROMPT@,
        ReviewType::TestFix => TEST_FIX_PROMPT@,
    }
}

/// The feedback comments as a bulleted list, one per line.
pub open spec fn spec_bulleted(comments: Seq<String>) -> Seq<char>
    decreases comments.len(),
{
    if comments.len() == 0 {
        Seq::empty()
    } else if comments.len() == 1 {
        "\u{2022} "@ + comments[0]@
    } else {
        spec_bulleted(comments.drop_last()) + "\n"@ + "\u{2022} "@ + comments.last()@
    }
}

/// The full user message of one Repairer call: the feedback framing, the
/// bulleted comments, and the current candidate program.
pub open spec fn spec_fixer_message(
    review_type: ReviewType,
    comments: Seq<String>,
    code: Seq<char>,
) -> Seq<char> {
    spec_review_prompt(review_type) + "\n\n"@ + spec_bulleted(comments) + "\n\n"@ + code
}

/// The Repairer agent: a name and the instruction payload it sends as its
/// system message.
pub struct FixerAgent {
    pub name: String,
    pub system_msg: String,
}

impl FixerAgent {
    /// The Repairer agent with the given number.
    pub fn new(id: usize) -> (r: Result<FixerAgent, AiCriticError>)
        ensures
            r matches Ok(a) && a.name@ == spec_agent_name(FIXER_NAME@, id as nat)
                && a.system_msg@ == FIXER_SYSTEM_PROMPT@,
    {
        Ok(FixerAgent { name: agent_name(FIXER_NAME, id), system_msg: String::from_str(
            FIXER_SYSTEM_PROMPT,
        ) })
    }

    /// Builds the user message of one repair call from the current candidate
    /// and the pending feedback.
    pub fn compose_message(&self, code: &str, review: &ReviewNeeded) -> (msg: String)
        ensures
            msg@ == spec_fixer_message(review.review_type, review.comments@, code@),
    {
        let prompt: &str = match review.review_type {
            ReviewType::CodeReview => CODE_REVIEW_PROMPT,
            ReviewType::CompilerFix => COMPILE_FIX_PROMPT,
            ReviewType::TestFix => TEST_FIX_PROMPT,
        };
        let mut msg = String::from_str(prompt);
        msg.append("\n\n");
        let mut i: usize = 0;
        let ghost comments = review.comments@;
        let ghost head = spec_review_prompt(review.review_type) + "\n\n"@;
        while i < review.comments.len()
            invariant
                comments == review.comments@,
                head == spec_review_prompt(review.review_type) + "\n\n"@,
                0 <= i <= comments.len(),
                msg@ == head + spec_bulleted(comments.take(i as int)),
            decreases comments.len() - i,
        {
            if i > 0 {
                msg.append("\n");
            }
            msg.append("\u{2022} ");
            msg.append(review.comments[i].as_str());
            proof {
                assert(comments.take(i + 1).drop_last() =~= comments.take(i as int));
                assert(comments.take(i + 1).last() == comments[i as int]);
                assert(msg@ =~= head + spec_bulleted(comments.take(i + 1)));
            }
            i = i + 1;
        }
        msg.append("\n\n");
        msg.append(code);
        proof {
            assert(comments.take(comments.len() as int) =~= comments);
            assert(msg@ =~= spec_fixer_message(review.review_type, comments, code@));
        }
        msg
    }

    /// Turns a validated chat reply into the repaired candidate program.
    pub fn parse_response(&self, json: &JsonValue) -> (r: Result<Code, AiCriticError>)
        ensures
            spec_parse_code(json@, r),
    {
        parse_code_response(json)
    }
}

} // verus!
