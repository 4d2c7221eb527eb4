//! The Critic roles: agents that judge a candidate program against one
//! evaluation kind and answer with a pass flag and a list of issues.
//!
//! There are three specialized kinds (design, correctness, syntax) and one
//! general kind that folds the three into a single instruction payload.

use vstd::prelude::*;
use vstd::string::StringExecFns;
use crate::chatter_json::ChatterJSON;
use crate::chatter_json::distinct_strings;
use crate::chatter_json::field_set;
use crate::chatter_json::string_set;
use crate::errors::AiCriticError;
use crate::json::JsonSpec;
use crate::json::JsonValue;
use crate::json::arr_spec;
use crate::json::get_field;
use crate::json::lemma_arr_spec;
use crate::json::key_set;
use crate::json::lemma_lookup_key_set;
use crate::json::spec_lookup;
use crate::strutil::spec_decimal;
use crate::strutil::usize_to_string;

verus! {

/// The instruction payload all critic kinds share.
pub const BASE_PROMPT: &'static str = "
    Evaluate this code based on the criteria below. Make no comments or explanations.
    Return JSON with two fields:
    1. a field named `passed` with value `true` if the code is correct, else `false`.
    2. a field `corrections` containing list of the errors, if any, else `None`.
";

pub const GENERAL_SYSTEM_PROMPT: &'static str = "
    Review the code for design, correctness, and syntax issues.
";

pub const DESIGN_SYSTEM_PROMPT: &'static str = "
    Evaluation Criteria: Evaluate the _design_ of the solution, considering the following questions:
    1. Is this the right the design to solve the problem?
    2. Does the method chosen meet the constraints of the problem?
    3. Does it use a the correct algorithms and data structures to solve the problem?
";

pub const CORRECTNESS_SYSTEM_PROMPT: &'static str = "
    Evaluation Criteria: Evaluate the _correctness_ of the solution, considering the following
    questions:
    1. Does the code correctly implement the intended solution approach?
    2. Does the code generate the expected output?
    3. Does the output meet the original problem constraints?
    4. Are there enough tests to demonstrate the correctness of the solution?
    5. Do the tests correctly capture situations that validate or invalidate the solution?
";

pub const SYNTAX_SYSTEM_PROMPT: &'static str = "
    Evaluation Criteria: Evaluate the _syntax_ of the solution, considering the following questions:
    1. Are there any syntactic errors?
    2. Will the code and tests compile and run?
    3. Are there any language errors such as borrowing violations or lifetime problems?
    4. Are there any cleanups needed such as unused variables or imports?
";

/// Which judgment a critic is asked for.
#[derive(Debug, Clone, Copy, PartialEq, Eq)]
pub enum CriticType {
    General,
    Design,
    Correctness,
    Syntax,
}

/// What one critic answered: the pass flag and the list of issues, tagged
/// with the critic's name.
#[derive(Debug, PartialEq, Eq, Hash)]
pub struct Correction {
    pub name: String,
    pub passed: bool,
    pub corrections: Vec<String>,
}

/// What turning a reply's `corrections` member into a list of issue strings
/// yields: the service hands back either a list of strings or `null` for "no
/// issues"; anything else is a schema error.
pub open spec fn spec_deserialize_corrections(
    js: JsonSpec,
    r: Result<Vec<String>, AiCriticError>,
) -> bool {
    match js {
        JsonSpec::Null => r matches Ok(out) && out@.len() == 0,
        JsonSpec::Array(items) => if forall|i: int| 0 <= i < items.len() ==> items[i] is Str {
            r matches Ok(out) && out@.len() == items.len() && (forall|i: int|
                0 <= i < items.len() ==> ((#[trigger] items[i]) matches JsonSpec::Str(s) && out@[i]@
                    == s))
        } else {
            r matches Err(AiCriticError::JsonParse { message }) && message@ == "Expected string"@
        },
        _ => r matches Err(AiCriticError::JsonParse { message }) && message@
            == "Expected array or null"@,
    }
}

/// Reads a `corrections` member: `null` stands for an empty list, a list must
/// hold strings only.
pub fn deserialize_corrections(v: &JsonValue) -> (r: Result<Vec<String>, AiCriticError>)
    ensures
        spec_deserialize_corrections(v@, r),
{
    match v {
        JsonValue::Null => Ok(Vec::new()),
        JsonValue::Array(items) => {
            proof {
                lemma_arr_spec(items@);
            }
            let ghost ispec = arr_spec(items@);
            let mut out: Vec<String> = Vec::new();
            let mut i: usize = 0;
            while i < items.len()
                invariant
                    v@ == JsonSpec::Array(ispec),
                    ispec == arr_spec(items@),
                    ispec.len() == items@.len(),
                    forall|t: int| 0 <= t < items@.len() ==> ispec[t] == items@[t].to_spec(),
                    0 <= i <= items@.len(),
                    out@.len() == i,
                    forall|t: int|
                        0 <= t < i ==> ((#[trigger] ispec[t]) matches JsonSpec::Str(s) && out@[t]@
                            == s),
                decreases items@.len() - i,
            {
                match &items[i] {
                    JsonValue::Str(s) => {
                        out.push(s.clone());
                    },
                    _ => {
                        proof {
                            assert(ispec[i as int] == items@[i as int].to_spec());
                            assert(!(ispec[i as int] is Str));
                        }
                        return Err(
                            AiCriticError::JsonParse {
                                message: String::from_str("Expected string"),
                            },
                        );
                    },
                }
                i = i + 1;
            }
            Ok(out)
        },
        _ => Err(AiCriticError::JsonParse { message: String::from_str("Expected array or null") }),
    }
}

/// A critic agent: its name, its kind, and the instruction payload it sends
/// as its system message.
pub struct CriticAgent {
    pub name: String,
    pub critic_type: CriticType,
    pub system_msg: String,
}

/// A critic's name: its kind's title and its number.
pub open spec fn spec_critic_name(critic_type: CriticType, id: nat) -> Seq<char> {
    (match critic_type {
        CriticType::General => "General Critic "@,
        CriticType::Design => "Design Critic "@,
        CriticType::Correctness => "Correctness Critic "@,
        CriticType::Syntax => "Syntax Critic "@,
    }) + spec_decimal(id)
}

/// A critic's instruction payload: the shared base prompt and its kind's
/// evaluation criteria.
pub open spec fn spec_critic_prompt(critic_type: CriticType) -> Seq<char> {
    BASE_PROMPT@ + "\n"@ + (match critic_type {
        CriticType::General => GENERAL_SYSTEM_PROMPT@,
        CriticType::Design => DESIGN_SYSTEM_PROMPT@,
        CriticType::Correctness => CORRECTNESS_SYSTEM_PROMPT@,
        CriticType::Syntax => SYNTAX_SYSTEM_PROMPT@,
    })
}

/// The required critic-reply fields that the object lacks.
pub open spec fn missing_required_fields(obj: Seq<(Seq<char>, JsonSpec)>) -> Set<Seq<char>> {
    Set::new(
        |x: Seq<char>|
            (x == "passed"@ && spec_lookup(obj, "passed"@) is None) || (x == "corrections"@
                && spec_lookup(obj, "corrections"@) is None),
    )
}

/// What parsing a critic reply yields, stated over the reply's shape: both
/// required members must be present (the error names exactly the absent
/// ones), `passed` must be a boolean, and `corrections` must be a list of
/// strings or `null`; the verdict carries the critic's name for attribution.
pub open spec fn spec_parse_correction(
    js: JsonSpec,
    name: Seq<char>,
    r: Result<Correction, AiCriticError>,
) -> bool {
    match js {
        JsonSpec::Object(obj) => match (spec_lookup(obj, "passed"@), spec_lookup(
            obj,
            "corrections"@,
        )) {
            (Some(lv), Some(cv)) => match lv {
                JsonSpec::Bool(b) => match cv {
                    JsonSpec::Null => r matches Ok(c) && c.name@ == name && c.passed == b
                        && c.corrections@.len() == 0,
                    JsonSpec::Array(items) => if forall|i: int|
                        0 <= i < items.len() ==> items[i] is Str {
                        r matches Ok(c) && c.name@ == name && c.passed == b && c.corrections@.len()
                            == items.len() && (forall|i: int|
                            0 <= i < items.len() ==> ((#[trigger] items[i]) matches JsonSpec::Str(s)
                                && c.corrections@[i]@ == s))
                    } else {
                        r matches Err(AiCriticError::JsonParse { message }) && message@
                            == "Expected string"@
                    },
                    _ => r matches Err(AiCriticError::JsonParse { message }) && message@
                        == "Expected array or null"@,
                },
                _ => r matches Err(AiCriticError::JsonParse { message }) && message@
                    == "Expected boolean"@,
            },
            _ => r matches Err(AiCriticError::MissingJsonFields { fields: m }) && string_set(m@)
                == missing_required_fields(obj) && distinct_strings(m@),
        },
        _ => r matches Err(AiCriticError::NotJsonObject),
    }
}

impl CriticAgent {
    /// The critic of the given kind and number.
    pub fn new(critic_type: CriticType, id: usize) -> (r: Result<CriticAgent, AiCriticError>)
        ensures
            r matches Ok(a) && a.name@ == spec_critic_name(critic_type, id as nat)
                && a.system_msg@ == spec_critic_prompt(critic_type) && a.critic_type
                == critic_type,
    {
        let prefix: &str = match critic_type {
            CriticType::General => "General Critic ",
            CriticType::Design => "Design Critic ",
            CriticType::Correctness => "Correctness Critic ",
            CriticType::Syntax => "Syntax Critic ",
        };
        let mut name = String::from_str(prefix);
        name.append(usize_to_string(id).as_str());
        let type_prompt: &str = match critic_type {
            CriticType::General => GENERAL_SYSTEM_PROMPT,
            CriticType::Design => DESIGN_SYSTEM_PROMPT,
            CriticType::Correctness => CORRECTNESS_SYSTEM_PROMPT,
            CriticType::Syntax => SYNTAX_SYSTEM_PROMPT,
        };
        let mut system_msg = String::from_str(BASE_PROMPT);
        system_msg.append("\n");
        system_msg.append(type_prompt);
        Ok(CriticAgent { name, critic_type, system_msg })
    }

    /// Turns a validated chat reply into this critic's verdict.
    pub fn parse_response(&self, json: &JsonValue) -> (r: Result<Correction, AiCriticError>)
        ensures
            spec_parse_correction(json@, self.name@, r),
    {
        let mut fields: Vec<&str> = Vec::new();
        fields.push("passed");
        fields.push("corrections");
        let ghost fv = fields@;
        proof {
            assert(field_set(fv).contains("passed"@)) by {
                assert(fv[0]@ == "passed"@);
            }
            assert(field_set(fv).contains("corrections"@)) by {
                assert(fv[1]@ == "corrections"@);
            }
            assert forall|x: Seq<char>| field_set(fv).contains(x) implies (x == "passed"@ || x
                == "corrections"@) by {
                let i = choose|i: int| 0 <= i < fv.len() && fv[i]@ == x;
            }
            if json@ is Object {
                lemma_lookup_key_set(json@->Object_0, "passed"@);
                lemma_lookup_key_set(json@->Object_0, "corrections"@);
            }
        }
        match ChatterJSON::validate_fields(json, fields) {
            Err(e) => {
                proof {
                    let obj = json@->Object_0;
                    if json@ is Object && (spec_lookup(obj, "passed"@) is None || spec_lookup(
                        obj,
                        "corrections"@,
                    ) is None) {
                        assert(field_set(fv).difference(key_set(obj)) =~= missing_required_fields(
                            obj,
                        ));
                    }
                }
                Err(e)
            },
            Ok(_) => match json {
                JsonValue::Object(map) => {
                    let passed = match get_field(map, "passed") {
                        Some(JsonValue::Bool(b)) => *b,
                        Some(_) => {
                            return Err(
                                AiCriticError::JsonParse {
                                    message: String::from_str("Expected boolean"),
                                },
                            );
                        },
                        None => unreached(),
                    };
                    let corrections = match get_field(map, "corrections") {
                        Some(cv) => match deserialize_corrections(cv) {
                            Ok(cs) => cs,
                            Err(e) => {
                                return Err(e);
                            },
                        },
                        None => unreached(),
                    };
                    Ok(Correction { name: self.name.clone(), passed, corrections })
                },
                _ => unreached(),
            },
        }
    }
}

} // verus!
