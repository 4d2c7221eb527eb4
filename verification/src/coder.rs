//! The Generator role: one agent call that writes the first candidate program
//! from the problem statement.

use vstd::prelude::*;
use vstd::string::StringExecFns;
use crate::chatter_json::ChatterJSON;
use crate::chatter_json::field_set;
use crate::chatter_json::string_set;
use crate::errors::AiCriticError;
use crate::json::JsonSpec;
use crate::json::JsonValue;
use crate::json::get_field;
use crate::json::key_set;
use crate::json::lemma_lookup_key_set;
use crate::json::spec_lookup;
use crate::strutil::spec_decimal;
use crate::strutil::usize_to_string;

verus! {

pub const CODER_NAME: &'static str = "Coder";

/// The instruction payload of the Generator role.
pub const CODER_SYSTEM_PROMPT: &'static str = "
    Write the requested program in Rust. Include complete unit tests. Return the code as JSON in a
    string field called `code`.
    Any clarifying explanations should be included in the code as // comments.
    Be sure that the tests demonstrate that the code solves the requested problem.
    Any `assert` used should include a custom message with a unique 6-digit hex number labelled
    `assert_id` that uniquely identifies the assert line so that line numbers are not required.
";

/// A candidate program: the payload of a `code` reply field.
#[derive(Debug, Clone, PartialEq)]
pub struct Code {
    pub code: String,
}

impl Code {
    /// A copy with the same text.
    pub fn duplicate(&self) -> (r: Code)
        ensures
            r.code@ == self.code@,
    {
        Code { code: self.code.clone() }
    }
}

/// What extracting a candidate from a validated reply object yields, stated
/// over the reply's shape: the `code` member must exist and hold a string,
/// and where it is absent the error names exactly that field.
pub open spec fn spec_parse_code(js: JsonSpec, r: Result<Code, AiCriticError>) -> bool {
    match js {
        JsonSpec::Object(obj) => match spec_lookup(obj, "code"@) {
            Some(JsonSpec::Str(s)) => r matches Ok(c) && c.code@ == s,
            Some(_) => r matches Err(AiCriticError::JsonParse { message }) && message@
                == "invalid type for the `code` field"@,
            None => r matches Err(AiCriticError::MissingJsonFields { fields: m }) && m@.len() == 1
                && m@[0]@ == "code"@,
        },
        _ => r matches Err(AiCriticError::NotJsonObject),
    }
}

/// Extracts a candidate program from a reply object: the object must carry a
/// string `code` member; other members are ignored.
pub fn parse_code_response(json: &JsonValue) -> (r: Result<Code, AiCriticError>)
    ensures
        spec_parse_code(json@, r),
{
    let mut fields: Vec<&str> = Vec::new();
    fields.push("code");
    let ghost fv = fields@;
    proof {
        assert(field_set(fv).contains("code"@)) by {
            assert(fv[0]@ == "code"@);
        }
        assert forall|x: Seq<char>| field_set(fv).contains(x) implies x == "code"@ by {
            let i = choose|i: int| 0 <= i < fv.len() && fv[i]@ == x;
        }
        if json@ is Object {
            lemma_lookup_key_set(json@->Object_0, "code"@);
        }
    }
    let validated = ChatterJSON::validate_fields(json, fields);
    match validated {
        Err(e) => {
            proof {
                let obj = json@->Object_0;
                if json@ is Object && spec_lookup(obj, "code"@) is None {
                    let m = e->MissingJsonFields_fields;
                    assert forall|t: int| 0 <= t < m@.len() implies m@[t]@ == "code"@ by {
                        assert(string_set(m@).contains(m@[t]@));
                    }
                    assert(string_set(m@).contains("code"@)) by {
                        assert(field_set(fv).difference(key_set(obj)).contains("code"@));
                    }
                    let t = choose|t: int| 0 <= t < m@.len() && m@[t]@ == "code"@;
                    assert(m@.len() == 1) by {
                        if m@.len() >= 2 {
                            assert(m@[0]@ == "code"@);
                            assert(m@[1]@ == "code"@);
                        }
                    }
                }
            }
            Err(e)
        },
        Ok(_) => match json {
            JsonValue::Object(map) => {
                match get_field(map, "code") {
                    Some(JsonValue::Str(s)) => Ok(Code { code: s.clone() }),
                    Some(_) => Err(
                        AiCriticError::JsonParse {
                            message: String::from_str("invalid type for the `code` field"),
                        },
                    ),
                    None => unreached(),
                }
            },
            _ => unreached(),
        },
    }
}

/// The Generator agent: a name and the instruction payload it sends as its
/// system message.
pub struct CoderAgent {
    pub name: String,
    pub system_msg: String,
}

/// The agent's name: the role name, an underscore, and its number.
pub open spec fn spec_agent_name(role: Seq<char>, id: nat) -> Seq<char> {
    role + "_"@ + spec_decimal(id)
}

/// Builds the `{role}_{id}` name every agent carries.
pub fn agent_name(role: &str, id: usize) -> (r: String)
    ensures
        r@ == spec_agent_name(role@, id as nat),
{
    let mut name = String::from_str(role);
    name.append("_");
    name.append(usize_to_string(id).as_str());
    name
}

impl CoderAgent {
    /// The Generator agent with the given number.
    pub fn new(id: usize) -> (r: Result<CoderAgent, AiCriticError>)
        ensures
            r matches Ok(a) && a.name@ == spec_agent_name(CODER_NAME@, id as nat)
                && a.system_msg@ == CODER_SYSTEM_PROMPT@,
    {
        Ok(CoderAgent { name: agent_name(CODER_NAME, id), system_msg: String::from_str(
            CODER_SYSTEM_PROMPT,
        ) })
    }

    /// Turns a validated chat reply into the candidate program.
    pub fn parse_response(&self, json: &JsonValue) -> (r: Result<Code, AiCriticError>)
        ensures
            spec_parse_code(json@, r),
    {
        parse_code_response(json)
    }
}

} // verus!
