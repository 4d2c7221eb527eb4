//! The error vocabulary of the critique loop.
//!
//! Transport-level failures (network, process spawning) are handled by the
//! surrounding program; this crate's errors describe what its own logic can
//! decide: malformed service output, schema violations, and exhausted budgets.

use vstd::prelude::*;
use vstd::string::StringExecFns;
use crate::json::JsonValue;
use crate::strutil::spec_decimal;
use crate::strutil::usize_to_string;

verus! {

/// Everything that can go wrong inside the critique loop.
#[derive(Debug)]
pub enum AiCriticError {
    /// A spawned process was killed by a signal before reporting an exit code.
    ProcessTerminated,
    /// The compiler exited with the given nonzero code.
    CompilationFailed { code: i32 },
    /// The test binary exited with an unexpected code (neither success nor an
    /// ordinary assertion failure).
    TestingFailed { code: i32 },
    /// The service's reply was JSON, but not a JSON object.
    NotJsonObject,
    /// The service's reply had a JSON shape the loop cannot use.
    UnexpectedJsonStructure { json: JsonValue },
    /// The service's reply lacks these required fields.
    MissingJsonFields { fields: Vec<String> },
    /// The service's reply was not JSON at all.
    JsonParse { message: String },
    /// The request was retried this many times without a usable reply.
    MaxRetriesExceeded { retries: usize },
    /// The convergence loop used up its whole proposal budget.
    MaxProposalsExceeded { proposals: usize },
}

/// The decimal rendering of a signed number: a minus sign where negative.
pub open spec fn spec_signed_decimal(n: int) -> Seq<char> {
    if n < 0 {
        seq!['-'] + spec_decimal((-n) as nat)
    } else {
        spec_decimal(n as nat)
    }
}

/// Renders an `i32` in decimal, as the `{}` format does.
pub fn i32_to_string(n: i32) -> (r: String)
    ensures
        r@ == spec_signed_decimal(n as int),
{
    if n >= 0 {
        usize_to_string(n as usize)
    } else {
        let magnitude = -(n as i64);
        let mut s = String::from_str("-");
        s.append(usize_to_string(magnitude as usize).as_str());
        proof {
            reveal_strlit("-");
            assert(s@ =~= spec_signed_decimal(n as int));
        }
        s
    }
}

/// The comma-separated rendering of a list of quoted field names, as the
/// `{:?}` format of a list of strings gives it between the brackets.
pub open spec fn spec_quoted_list(fields: Seq<Seq<char>>) -> Seq<char>
    decreases fields.len(),
{
    if fields.len() == 0 {
        Seq::empty()
    } else if fields.len() == 1 {
        seq!['"'] + fields[0] + seq!['"']
    } else {
        spec_quoted_list(fields.drop_last()) + seq![',', ' ', '"'] + fields.last() + seq!['"']
    }
}

fn quoted_list(fields: &Vec<String>) -> (r: String)
    ensures
        r@ == spec_quoted_list(fields@.map_values(|f: String| f@)),
{
    let ghost views = fields@.map_values(|f: String| f@);
    let mut out = String::new();
    let mut i: usize = 0;
    while i < fields.len()
        invariant
            views == fields@.map_values(|f: String| f@),
            views.len() == fields@.len(),
            0 <= i <= fields.len(),
            out@ == spec_quoted_list(views.take(i as int)),
        decreases fields.len() - i,
    {
        if i > 0 {
            out.append(", ");
        }
        out.append("\"");
        out.append(fields[i].as_str());
        out.append("\"");
        proof {
            reveal_strlit(", ");
            reveal_strlit("\"");
            assert(views.take(i + 1).drop_last() =~= views.take(i as int));
            assert(views.take(i + 1)[0] == views[0]);
            assert(out@ =~= spec_quoted_list(views.take(i + 1)));
        }
        i = i + 1;
    }
    proof {
        assert(views.take(fields@.len() as int) =~= views);
    }
    out
}

impl AiCriticError {
    /// What the error means, rendered as text.
    pub open spec fn spec_message(self) -> Seq<char> {
        match self {
            AiCriticError::ProcessTerminated => "the process was terminated by signal"@,
            AiCriticError::CompilationFailed { code } => "the compilation exited with code "@
                + spec_signed_decimal(code as int),
            AiCriticError::TestingFailed { code } => "the test exited with code "@
                + spec_signed_decimal(code as int),
            AiCriticError::NotJsonObject => "the returned JSON is not an object"@,
            AiCriticError::UnexpectedJsonStructure { json } =>
                "unexpected JSON structure in the returned value"@,
            AiCriticError::MissingJsonFields { fields } => "the returned JSON is missing fields `["@
                + spec_quoted_list(fields@.map_values(|f: String| f@)) + "]`"@,
            AiCriticError::JsonParse { message } => "failed to parse JSON: "@ + message@,
            AiCriticError::MaxRetriesExceeded { retries } => "too many retries: "@
                + spec_decimal(retries as nat),
            AiCriticError::MaxProposalsExceeded { proposals } => "too many proposals: "@
                + spec_decimal(proposals as nat),
        }
    }

    /// Renders the error, standing in for std's display formatting.
    pub fn message(&self) -> (m: String)
        ensures
            m@ == self.spec_message(),
    {
        match self {
            AiCriticError::ProcessTerminated => String::from_str(
                "the process was terminated by signal",
            ),
            AiCriticError::CompilationFailed { code } => {
                let mut s = String::from_str("the compilation exited with code ");
                s.append(i32_to_string(*code).as_str());
                s
            },
            AiCriticError::TestingFailed { code } => {
                let mut s = String::from_str("the test exited with code ");
                s.append(i32_to_string(*code).as_str());
                s
            },
            AiCriticError::NotJsonObject => String::from_str("the returned JSON is not an object"),
            AiCriticError::UnexpectedJsonStructure { json } => String::from_str(
                "unexpected JSON structure in the returned value",
            ),
            AiCriticError::MissingJsonFields { fields } => {
                let mut s = String::from_str("the returned JSON is missing fields `[");
                s.append(quoted_list(fields).as_str());
                s.append("]`");
                s
            },
            AiCriticError::JsonParse { message } => {
                let mut s = String::from_str("failed to parse JSON: ");
                s.append(message.as_str());
                s
            },
            AiCriticError::MaxRetriesExceeded { retries } => {
                let mut s = String::from_str("too many retries: ");
                s.append(usize_to_string(*retries).as_str());
                s
            },
            AiCriticError::MaxProposalsExceeded { proposals } => {
                let mut s = String::from_str("too many proposals: ");
                s.append(usize_to_string(*proposals).as_str());
                s
            },
        }
    }
}

} // verus!
